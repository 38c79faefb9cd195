use interlock::agent::cycle::{entry, GeminiContent};
use interlock::agent::legacy::{
    legacy_failure_observation, legacy_opening_history, legacy_step, legacy_system_prompt,
    legacy_tool_call, LegacyCall, LegacyStep, LEGACY_PROMPT_HEAD, LEGACY_PROMPT_TAIL,
    MISSING_INPUT_OBSERVATION,
};
use interlock::agent::tools::{ToolInput, ToolRequest};

fn text_of(c: &GeminiContent) -> String {
    c.parts[0].text.clone().unwrap()
}

fn empty_input() -> ToolInput {
    ToolInput {
        blob_id: None,
        sheet_name: None,
        file_name: None,
        content: None,
        image_id: None,
        url: None,
        prompt: None,
        replace_existing: None,
        rows: None,
    }
}

#[test]
fn legacy_prompt_frames_files() {
    let p = legacy_system_prompt("- a.txt");
    assert_eq!(p, format!("{}- a.txt{}", LEGACY_PROMPT_HEAD, LEGACY_PROMPT_TAIL));
}

#[test]
fn legacy_history_replays_messages() {
    let msgs = vec![("user".to_string(), "q".to_string()), ("assistant".to_string(), "a".to_string())];
    let h = legacy_opening_history("P".to_string(), &msgs);
    assert_eq!(h.len(), 4);
    assert_eq!(text_of(&h[0]), "P");
    assert_eq!(h[2].role, "user");
    assert_eq!(h[3].role, "model");
    assert_eq!(text_of(&h[3]), "a");
}

#[test]
fn legacy_final_answer() {
    let mut h = vec![entry("user", "P".to_string())];
    match legacy_step(&mut h, "  Thought: done\nFinal Answer: 42 \n") {
        LegacyStep::Finish { answer } => assert_eq!(answer, "Thought: done\nFinal Answer: 42"),
        _ => panic!("expected a final answer"),
    }
    assert_eq!(h.len(), 2);
    assert_eq!(h[1].role, "model");
}

#[test]
fn legacy_plain_reply() {
    let mut h = vec![];
    match legacy_step(&mut h, "Just text") {
        LegacyStep::Reply { text } => assert_eq!(text, "Just text"),
        _ => panic!("expected a reply"),
    }
    assert_eq!(h.len(), 1);
}

#[test]
fn legacy_action_without_input() {
    let mut h = vec![];
    assert!(matches!(legacy_step(&mut h, "Action: list_files"), LegacyStep::Observed));
    assert_eq!(h.len(), 2);
    assert_eq!(h[1].role, "user");
    assert_eq!(text_of(&h[1]), format!("Observation: {}", MISSING_INPUT_OBSERVATION));
}

#[test]
fn legacy_action_with_bad_json() {
    let mut h = vec![];
    let r = legacy_step(&mut h, "Action: read_file\nAction Input: {oops");
    assert!(matches!(r, LegacyStep::Observed));
    let obs = text_of(&h[1]);
    assert!(obs.starts_with("Observation: Error: Failed to parse JSON arguments: "));
    assert!(obs.ends_with(". Ensure 'Action Input' is valid JSON."));
}

#[test]
fn legacy_tool_step() {
    let mut h = vec![];
    let r = legacy_step(&mut h, "Action: read_file\nAction Input: ```json\n{\"blob_id\": \"x\"}\n```");
    match r {
        LegacyStep::CallTool { action, input } => {
            assert_eq!(action, "read_file");
            assert_eq!(interlock::agent::tools::text_member_of(&input, "blob_id"), Some("x".to_string()));
        }
        _ => panic!("expected a tool call"),
    }
    assert_eq!(h.len(), 1);
}

#[test]
fn legacy_unknown_tool() {
    match legacy_tool_call("dance", &empty_input(), &None) {
        LegacyCall::Observe(m) => {
            assert!(m.starts_with("Error: Unknown action 'dance'. Available tools are: list_files"))
        }
        _ => panic!("expected an observation"),
    }
}

#[test]
fn legacy_blob_id_errors() {
    match legacy_tool_call("read_file", &empty_input(), &None) {
        LegacyCall::Observe(m) => assert_eq!(m, "Error: Missing 'blob_id' in arguments"),
        _ => panic!("expected an observation"),
    }
    let mut input = empty_input();
    input.blob_id = Some("nope".to_string());
    match legacy_tool_call("get_excel_sheets", &input, &None) {
        LegacyCall::Observe(m) => assert_eq!(m, "Error: Invalid UUID for blob_id"),
        _ => panic!("expected an observation"),
    }
}

#[test]
fn legacy_search_query() {
    match legacy_tool_call("search_internet", &empty_input(), &Some("rust".to_string())) {
        LegacyCall::Run(ToolRequest::SearchInternet { query }) => assert_eq!(query, "rust"),
        _ => panic!("expected a search"),
    }
    match legacy_tool_call("search_internet", &empty_input(), &None) {
        LegacyCall::Observe(m) => assert_eq!(m, "Error: Missing 'query' argument"),
        _ => panic!("expected an observation"),
    }
}

#[test]
fn legacy_create_never_replaces() {
    let mut input = empty_input();
    input.content = Some("c".to_string());
    input.replace_existing = Some(true);
    match legacy_tool_call("create_pdf_doc", &input, &None) {
        LegacyCall::Run(ToolRequest::CreatePdfDoc { file_name, replace_existing, .. }) => {
            assert_eq!(file_name, "output.pdf");
            assert!(!replace_existing);
        }
        _ => panic!("expected a pdf request"),
    }
}

#[test]
fn legacy_failures() {
    assert_eq!(legacy_failure_observation(&ToolRequest::ListFiles, "e"), None);
    let req = ToolRequest::SearchInternet { query: "q".to_string() };
    assert_eq!(legacy_failure_observation(&req, "boom"), Some("Error searching: boom".to_string()));
}
