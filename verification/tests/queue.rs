use interlock::agent::queue::{
    complete_first_task, fail_task, next_queue_step, start_status, QueueError, QueueStep,
    SessionQueue,
};
use interlock::controllers::chat::{cancel_session, queue_tasks, retry_session};

fn tasks(v: &[&str]) -> Vec<String> {
    v.iter().map(|s| s.to_string()).collect()
}

#[test]
fn queued_tasks_run_in_order_and_complete() {
    let mut s = SessionQueue { status: "completed".to_string(), pending: vec![] };
    queue_tasks(&mut s, tasks(&["a", "b"]));
    assert_eq!(s.status, "processing");
    assert_eq!(start_status(&s.pending), None);
    let mut local = s.pending.clone();
    match next_queue_step(&local, &s.status) {
        QueueStep::Run { task } => assert_eq!(task, "a"),
        _ => panic!("expected a run"),
    }
    assert_eq!(complete_first_task(&mut local), "processing");
    match next_queue_step(&local, "processing") {
        QueueStep::Run { task } => assert_eq!(task, "b"),
        _ => panic!("expected a run"),
    }
    assert_eq!(complete_first_task(&mut local), "completed");
    assert!(local.is_empty());
    assert!(matches!(next_queue_step(&local, "completed"), QueueStep::Done));
}

#[test]
fn empty_queue_completes_at_start() {
    assert_eq!(start_status(&vec![]), Some("completed".to_string()));
}

#[test]
fn cancel_halts_and_refuses_retry() {
    let mut s = SessionQueue { status: "processing".to_string(), pending: tasks(&["a"]) };
    cancel_session(&mut s);
    assert_eq!(s.status, "cancelled");
    assert!(s.pending.is_empty());
    assert!(matches!(next_queue_step(&tasks(&["a"]), &s.status), QueueStep::Halt));
    assert!(matches!(retry_session(&mut s), Err(QueueError::NothingToRetry)));
    assert_eq!(s.status, "cancelled");
}

#[test]
fn failure_then_retry_reruns_task() {
    let (msg, status) = fail_task("timeout");
    assert_eq!(msg, "Error executing task: timeout");
    assert_eq!(status, "error");
    let mut s = SessionQueue { status, pending: tasks(&["a", "b"]) };
    assert!(matches!(next_queue_step(&s.pending, &s.status), QueueStep::Halt));
    assert!(retry_session(&mut s).is_ok());
    assert_eq!(s.status, "processing");
    match next_queue_step(&s.pending, &s.status) {
        QueueStep::Run { task } => assert_eq!(task, "a"),
        _ => panic!("expected a run"),
    }
}
