use sanshu::coordinator::{
    budget_exhausted, effective_wait_ms, new_task_id, poll_tick, record_matches, AdmitAction,
    InteractionTool, TickAction,
};
use sanshu::task::{PersistedPendingTask, TaskStatus};

fn record(task_id: &str, pid: Option<u32>) -> PersistedPendingTask {
    PersistedPendingTask {
        task_id: task_id.to_string(),
        request_file: format!("/tmp/mcp_request_{}.json", task_id),
        response_file: format!("/tmp/mcp_response_{}.json", task_id),
        ui_pid: pid,
    }
}

#[test]
fn register_then_second_start_returns_same_task() {
    let mut tool = InteractionTool::new();
    assert!(tool.existing_pending().is_none());
    let rec = tool.register_task(
        "task-1".to_string(),
        "/tmp/req".to_string(),
        "/tmp/resp".to_string(),
        4242,
    );
    assert_eq!(rec.task_id, "task-1");
    assert_eq!(rec.ui_pid, Some(4242));
    // A second start call reconciles and finds the winner's task.
    let existing = tool.existing_pending();
    assert_eq!(existing, Some("task-1".to_string()));
}

#[test]
fn admit_record_without_pid_is_discarded() {
    let mut tool = InteractionTool::new();
    let action = tool.admit_record(Some(record("stale", None)));
    match action {
        AdmitAction::Discarded(order) => {
            assert_eq!(order.task_id, "stale");
            assert_eq!(order.request_file, "/tmp/mcp_request_stale.json");
            assert_eq!(order.response_file, "/tmp/mcp_response_stale.json");
        }
        _ => panic!("a record without a pid must be discarded"),
    }
    assert!(tool.existing_pending().is_none());
}

#[test]
fn admit_record_with_live_pid_is_adopted() {
    let mut tool = InteractionTool::new();
    let action = tool.admit_record(Some(record("old-task", Some(77))));
    assert!(matches!(action, AdmitAction::Adopted));
    // Recovery across restart: the first start call returns the old id.
    assert_eq!(tool.existing_pending(), Some("old-task".to_string()));
}

#[test]
fn admit_record_is_ignored_when_store_is_not_empty() {
    let mut tool = InteractionTool::new();
    tool.register_task("live".to_string(), "r".to_string(), "w".to_string(), 1);
    let action = tool.admit_record(Some(record("other", Some(9))));
    assert!(matches!(action, AdmitAction::Kept));
    assert_eq!(tool.existing_pending(), Some("live".to_string()));
}

#[test]
fn remove_if_dead_prunes_only_dead_tasks() {
    let mut tool = InteractionTool::new();
    tool.register_task("t".to_string(), "req".to_string(), "resp".to_string(), 5);
    assert!(tool.remove_if_dead("t", true).is_none());
    assert_eq!(tool.existing_pending(), Some("t".to_string()));
    let order = tool.remove_if_dead("t", false).expect("dead task must be pruned");
    assert_eq!(order.task_id, "t");
    assert_eq!(order.request_file, "req");
    assert_eq!(order.response_file, "resp");
    assert!(tool.existing_pending().is_none());
    assert!(tool.remove_if_dead("t", false).is_none());
}

#[test]
fn poll_lookup_finds_registered_task() {
    let mut tool = InteractionTool::new();
    tool.register_task("id".to_string(), "req".to_string(), "resp".to_string(), 3);
    let task = tool.poll_lookup("id", None).expect("registered task must be found");
    assert_eq!(task.request_file, "req");
    assert_eq!(task.response_file, "resp");
    assert_eq!(task.ui_pid, Some(3));
    assert!(matches!(task.status, TaskStatus::Pending));
}

#[test]
fn poll_lookup_adopts_matching_record() {
    let mut tool = InteractionTool::new();
    let task = tool
        .poll_lookup("wanted", Some(record("wanted", Some(8))))
        .expect("a matching record must be adopted");
    assert_eq!(task.ui_pid, Some(8));
    // Now in memory too.
    assert!(tool.poll_lookup("wanted", None).is_some());
}

#[test]
fn poll_lookup_rejects_unknown_task() {
    let mut tool = InteractionTool::new();
    assert!(tool.poll_lookup("nope", None).is_none());
    assert!(tool.poll_lookup("nope", Some(record("other", Some(1)))).is_none());
}

#[test]
fn finish_lists_both_files_and_removes_the_task() {
    let mut tool = InteractionTool::new();
    tool.register_task("done".to_string(), "rq".to_string(), "rs".to_string(), 11);
    let order = tool.finish("done").expect("a held task must yield a cleanup order");
    assert_eq!(order.task_id, "done");
    assert_eq!(order.request_file, "rq");
    assert_eq!(order.response_file, "rs");
    // Idempotent poll after completion: the identifier is unknown now.
    assert!(tool.poll_lookup("done", None).is_none());
    assert!(tool.finish("done").is_none());
}

#[test]
fn poll_tick_completes_on_visible_content() {
    let r = poll_tick(&Some("{\"user_input\":\"hi\"}".to_string()), true);
    assert!(matches!(r, TickAction::Complete));
    // Whitespace-only content does not complete.
    let r = poll_tick(&Some(" \n\t".to_string()), true);
    assert!(matches!(r, TickAction::KeepWaiting));
}

#[test]
fn poll_tick_abandons_when_ui_is_gone() {
    // Abandonment detection: no response and a dead UI ends the task.
    let r = poll_tick(&None, false);
    assert!(matches!(r, TickAction::Abandoned));
    let r = poll_tick(&Some("".to_string()), false);
    assert!(matches!(r, TickAction::Abandoned));
    // A ready response wins over a dead UI.
    let r = poll_tick(&Some("answer".to_string()), false);
    assert!(matches!(r, TickAction::Complete));
}

#[test]
fn wait_budget_resolution() {
    assert_eq!(effective_wait_ms(Some(1500), Some(30_000)), Some(1500));
    assert_eq!(effective_wait_ms(None, Some(30_000)), Some(30_000));
    assert_eq!(effective_wait_ms(None, None), None);
    // Zero means wait forever in this call.
    assert_eq!(effective_wait_ms(Some(0), Some(30_000)), None);
    assert_eq!(effective_wait_ms(None, Some(0)), None);
}

#[test]
fn budget_exhaustion() {
    assert!(!budget_exhausted(10, None));
    assert!(!budget_exhausted(10, Some(11)));
    assert!(budget_exhausted(11, Some(11)));
    assert!(budget_exhausted(12, Some(11)));
}

#[test]
fn record_matching() {
    assert!(record_matches(&Some(record("a", Some(1))), "a"));
    assert!(!record_matches(&Some(record("a", Some(1))), "b"));
    assert!(!record_matches(&None, "a"));
}

#[test]
fn task_ids_are_uuid_shaped() {
    let a = new_task_id();
    let b = new_task_id();
    assert_eq!(a.chars().count(), 36);
    assert_eq!(b.chars().count(), 36);
    assert_ne!(a, b);
}
