use interlock::controllers::admin::{demote, ensure_admin, promote, UserResponse};
use interlock::controllers::api_auth::{
    api_key_attempt, bearer_token, first_attempt, pid_from_claims, AuthAttempt, HeaderText,
};
use interlock::controllers::blobs::{
    content_disposition, content_length, storage_key, upload_content_type, upload_file_name,
    BlobModel, BlobResponse,
};
use interlock::controllers::chat::{check_retry, check_session_access, MessageModel, MessageResponse};
use interlock::controllers::projects::{
    check_not_member, ensure_can_create, share_target, require_project_access, search_query_runs, ProjectFields,
    ProjectModel, ProjectResponse, UpdateProjectParams, SEARCH_LIMIT,
};
use interlock::controllers::sessions::{
    check_item_access, require_membership, required_project, Params, SessionFields, SessionModel,
    SessionResponse,
};
use interlock::controllers::ApiError;
use interlock::models::needs_new_session_id;
use interlock::views::{CurrentResponse, LoginResponse, UserModel};

const PID: u128 = 0x67e5504410b1426f9247bb680e5fe0c8;
const PID_TEXT: &str = "67e55044-10b1-426f-9247-bb680e5fe0c8";

fn user(role: &str) -> UserModel {
    UserModel {
        id: 7,
        pid: PID,
        email: "a@b.c".to_string(),
        name: "Ann".to_string(),
        role: role.to_string(),
        api_key: "lo-key".to_string(),
        email_verified_at: None,
        created_at: "2024-01-01T00:00:00Z".to_string(),
    }
}

fn unauthorized(r: Result<(), ApiError>, m: &str) {
    match r {
        Err(ApiError::Unauthorized(t)) => assert_eq!(t, m),
        _ => panic!("expected unauthorized"),
    }
}

#[test]
fn login_and_current_responses() {
    let mut u = user("user");
    let l = LoginResponse::new(&u, &"tok".to_string());
    assert_eq!(l.token, "tok");
    assert_eq!(l.pid, PID_TEXT);
    assert_eq!(l.name, "Ann");
    assert!(!l.is_verified);
    assert_eq!(l.role, "user");
    u.email_verified_at = Some("2024-02-02T00:00:00Z".to_string());
    assert!(LoginResponse::new(&u, &"t".to_string()).is_verified);
    let c = CurrentResponse::new(&u);
    assert_eq!(c.pid, PID_TEXT);
    assert_eq!(c.email, "a@b.c");
    assert_eq!(c.api_key, "lo-key");
}

#[test]
fn only_admins_administer() {
    assert!(ensure_admin(&user("admin")).is_ok());
    unauthorized(ensure_admin(&user("user")), "Access denied: Admins only");
    assert_eq!(promote(&user("admin")).ok(), Some("admin".to_string()));
    assert!(matches!(promote(&user("viewer")), Err(ApiError::Unauthorized(_))));
}

#[test]
fn admins_cannot_demote_themselves() {
    match demote(&user("admin"), PID) {
        Err(ApiError::BadRequest(m)) => assert_eq!(m, "Cannot demote yourself"),
        _ => panic!("expected a bad request"),
    }
    assert_eq!(demote(&user("admin"), 1).ok(), Some("user".to_string()));
    assert!(matches!(demote(&user("user"), 1), Err(ApiError::Unauthorized(_))));
}

#[test]
fn user_response_copies_fields() {
    let r = UserResponse::from(user("admin"));
    assert_eq!(r.id, 7);
    assert_eq!(r.pid, PID);
    assert_eq!(r.role, "admin");
    assert_eq!(r.created_at, "2024-01-01T00:00:00Z");
}

#[test]
fn project_rules() {
    unauthorized(ensure_can_create(&user("viewer")), "Viewers cannot create projects");
    assert!(ensure_can_create(&user("user")).is_ok());
    unauthorized(require_project_access(0), "User does not have access to this project");
    assert!(require_project_access(2).is_ok());
    match check_not_member(1) {
        Err(ApiError::BadRequest(m)) => assert_eq!(m, "User is already a member of this project"),
        _ => panic!("expected a bad request"),
    }
    assert!(check_not_member(0).is_ok());
    assert!(!search_query_runs("a"));
    assert!(search_query_runs("ab"));
    assert_eq!(SEARCH_LIMIT, 10);
}

#[test]
fn project_update_keeps_absent_fields() {
    let mut item = ProjectFields { name: "old".to_string(), description: Some("d".to_string()) };
    UpdateProjectParams { name: Some("new".to_string()), description: None }.apply(&mut item);
    assert_eq!(item.name, "new");
    assert_eq!(item.description, Some("d".to_string()));
    UpdateProjectParams { name: None, description: Some("e".to_string()) }.apply(&mut item);
    assert_eq!(item.name, "new");
    assert_eq!(item.description, Some("e".to_string()));
}

#[test]
fn session_rules() {
    let p = Params { title: Some("T".to_string()), content: None, project_id: None };
    match required_project(&p) {
        Err(ApiError::BadRequest(m)) => assert_eq!(m, "project_id is required"),
        _ => panic!("expected a bad request"),
    }
    let p = Params { title: None, content: Some("C".to_string()), project_id: Some(5) };
    assert_eq!(required_project(&p).ok(), Some(5));
    let mut item = SessionFields { title: Some("a".to_string()), content: None, project_id: None };
    p.update(&mut item);
    assert_eq!(item.title, Some("a".to_string()));
    assert_eq!(item.content, Some("C".to_string()));
    assert_eq!(item.project_id, Some(5));
    unauthorized(require_membership(0), "User does not have access to this project");
    assert!(require_membership(1).is_ok());
    assert!(check_item_access(None, 0).is_ok());
    unauthorized(check_item_access(Some(3), 0), "Authorized access required");
    assert!(check_item_access(Some(3), 1).is_ok());
}

#[test]
fn missing_session_is_not_found() {
    assert!(matches!(check_session_access::<u8>(None), Err(ApiError::NotFound)));
    assert_eq!(check_session_access(Some(3u8)).ok(), Some(3));
}

#[test]
fn sharing_with_unknown_email_is_not_found() {
    assert!(matches!(share_target::<u8>(None), Err(ApiError::NotFound)));
    assert_eq!(share_target(Some(5u8)).ok(), Some(5));
}

#[test]
fn retry_needs_pending_tasks() {
    match check_retry(&vec![]) {
        Err(ApiError::BadRequest(m)) => assert_eq!(m, "No pending tasks to retry"),
        _ => panic!("expected a bad request"),
    }
    assert!(check_retry(&vec!["task".to_string()]).is_ok());
}

#[test]
fn blob_texts() {
    assert_eq!(storage_key(PID, 1), format!("{}/00000000-0000-0000-0000-000000000001", PID_TEXT));
    assert_eq!(upload_file_name(None), "unnamed");
    assert_eq!(upload_file_name(Some("x.pdf")), "x.pdf");
    assert_eq!(upload_content_type(None), "application/octet-stream");
    assert_eq!(upload_content_type(Some("text/plain")), "text/plain");
    assert_eq!(content_disposition("a b.txt"), "attachment; filename=\"a b.txt\"");
    assert_eq!(content_length(1234), "1234");
    assert_eq!(content_length(0), "0");
}

#[test]
fn bearer_tokens() {
    assert_eq!(bearer_token("Bearer abc"), Some("abc".to_string()));
    assert_eq!(bearer_token("Basic abc"), None);
    assert_eq!(bearer_token("Bearer "), Some("".to_string()));
}

#[test]
fn credential_order() {
    let auth = HeaderText::Text("Bearer jwt".to_string());
    let key = HeaderText::Text("k".to_string());
    assert!(matches!(first_attempt(&auth, &key), AuthAttempt::Jwt(t) if t == "jwt"));
    let auth = HeaderText::Text("Token x".to_string());
    assert!(matches!(first_attempt(&auth, &key), AuthAttempt::ApiKey(k) if k == "k"));
    assert!(matches!(
        first_attempt(&HeaderText::Absent, &HeaderText::Absent),
        AuthAttempt::Reject(ApiError::Unauthorized(m)) if m == "unauthorized"
    ));
    assert!(matches!(
        api_key_attempt(&HeaderText::Unreadable),
        AuthAttempt::Reject(ApiError::Unauthorized(m)) if m == "invalid api key"
    ));
}

#[test]
fn claims_pid() {
    assert_eq!(pid_from_claims(PID_TEXT).ok(), Some(PID));
    match pid_from_claims("not-a-uuid") {
        Err(ApiError::Unauthorized(m)) => assert_eq!(m, "invalid token"),
        _ => panic!("expected unauthorized"),
    }
}

#[test]
fn record_responses_copy_fields() {
    let p = ProjectResponse::from(ProjectModel {
        id: 1,
        name: "P".to_string(),
        description: None,
        created_at: "c".to_string(),
        updated_at: "u".to_string(),
    });
    assert_eq!((p.id, p.name.as_str(), p.role), (1, "P", None));
    let s = SessionResponse::from(SessionModel {
        id: 2,
        title: Some("T".to_string()),
        content: None,
        project_id: Some(1),
        created_at: "c".to_string(),
        updated_at: "u".to_string(),
    });
    assert_eq!((s.id, s.title, s.project_id, s.updated_at.as_str()), (2, Some("T".to_string()), Some(1), "u"));
    let b = BlobResponse::from(BlobModel {
        id: 3,
        session_id: 2,
        file_name: "f".to_string(),
        content_type: "text/plain".to_string(),
        size: 9,
        storage_key: "k".to_string(),
        created_at: "c".to_string(),
    });
    assert_eq!((b.id, b.session_id, b.size, b.content_type.as_str()), (3, 2, 9, "text/plain"));
    let m = MessageResponse::from(MessageModel {
        id: 4,
        session_id: 2,
        role: "user".to_string(),
        content: "hi".to_string(),
        created_at: "2024-01-01T00:00:00+00:00".to_string(),
    });
    assert_eq!((m.id, m.role.as_str(), m.content.as_str()), (4, "user", "hi"));
}

#[test]
fn api_reference_page() {
    let page = interlock::controllers::openapi::serve_swagger_ui();
    assert!(page.starts_with("<!doctype html>"));
    assert!(page.contains("SwaggerUI"));
    assert!(page.contains("url: \"/api-docs/openapi.json\""));
    assert!(page.ends_with("</html>"));
}

#[test]
fn fresh_session_ids() {
    assert!(needs_new_session_id(true, None));
    assert!(needs_new_session_id(true, Some(0)));
    assert!(!needs_new_session_id(true, Some(5)));
    assert!(!needs_new_session_id(false, None));
}
