use sanshu::launcher::{
    auto_dev_enabled, blocking_output_to_response, build_candidate_list, choose_ui_command,
    contains_str, dev_wait_budget, explicit_debug, spawn_args, tasklist_indicates_running,
    to_ascii_lower, ui_candidate_names, ui_not_found_message, DEV_SERVER_PORT, POLL_STEP_MS,
};

#[test]
fn substring_search() {
    assert!(contains_str("hello world", "lo wo"));
    assert!(contains_str("abc", ""));
    assert!(contains_str("abc", "abc"));
    assert!(!contains_str("abc", "abcd"));
    assert!(!contains_str("abc", "x"));
}

#[test]
fn ascii_lowercase() {
    assert_eq!(to_ascii_lower("No Tasks FOUND"), "no tasks found");
    assert_eq!(to_ascii_lower("mixed-1_2"), "mixed-1_2");
}

#[test]
fn tasklist_classification() {
    let listing = "\"sanshu-ui.exe\",\"1234\",\"Console\",\"1\",\"52,004 K\"";
    assert!(tasklist_indicates_running(listing, "1234"));
    assert!(!tasklist_indicates_running(listing, "9999"));
    assert!(!tasklist_indicates_running("INFO: No tasks are running.", "1234"));
    assert!(!tasklist_indicates_running("No tasks found with pid 1234", "1234"));
}

#[test]
fn debug_mode_detection() {
    assert!(explicit_debug(&Some("debug".to_string()), false));
    assert!(explicit_debug(&Some("dev".to_string()), false));
    assert!(!explicit_debug(&Some("release".to_string()), true));
    assert!(explicit_debug(&Some("".to_string()), true));
    assert!(!explicit_debug(&Some("".to_string()), false));
    assert!(explicit_debug(&None, true));
    assert!(!explicit_debug(&None, false));
}

#[test]
fn auto_dev_toggle() {
    assert!(auto_dev_enabled(&None));
    assert!(auto_dev_enabled(&Some("1".to_string())));
    assert!(auto_dev_enabled(&Some("yes".to_string())));
    assert!(!auto_dev_enabled(&Some("0".to_string())));
    assert!(!auto_dev_enabled(&Some(" FALSE ".to_string())));
    assert!(!auto_dev_enabled(&Some("Off".to_string())));
}

#[test]
fn dev_wait_defaults() {
    assert_eq!(dev_wait_budget(None), 8000);
    assert_eq!(dev_wait_budget(Some(500)), 500);
    assert_eq!(DEV_SERVER_PORT, 5176);
    assert_eq!(POLL_STEP_MS, 200);
}

#[test]
fn candidate_names_and_args() {
    let names = ui_candidate_names();
    assert_eq!(names, vec!["sanshu-ui".to_string(), "等一下".to_string()]);
    let args = spawn_args("/tmp/rq.json", "/tmp/rs.json");
    assert_eq!(
        args,
        vec![
            "--mcp-request".to_string(),
            "/tmp/rq.json".to_string(),
            "--response-file".to_string(),
            "/tmp/rs.json".to_string(),
        ]
    );
}

#[test]
fn candidate_order_release_only() {
    let names = vec!["ui".to_string()];
    let list = build_candidate_list(
        &None,
        false,
        "/repo",
        &Some("/exe/target".to_string()),
        &Some("/exe/bin".to_string()),
        &names,
    );
    assert_eq!(
        list,
        vec![
            "/repo/target/release/ui".to_string(),
            "/exe/target/release/ui".to_string(),
            "/exe/bin/ui".to_string(),
            "ui".to_string(),
        ]
    );
}

#[test]
fn candidate_order_with_override_and_debug() {
    let names = vec!["ui".to_string()];
    let list = build_candidate_list(
        &Some("/override/ui".to_string()),
        true,
        "/repo",
        &Some("/exe/target".to_string()),
        &None,
        &names,
    );
    assert_eq!(
        list,
        vec![
            "/override/ui".to_string(),
            "/repo/target/debug/ui".to_string(),
            "/exe/target/debug/ui".to_string(),
            "/repo/target/release/ui".to_string(),
            "/exe/target/release/ui".to_string(),
            "ui".to_string(),
        ]
    );
}

#[test]
fn first_usable_candidate_wins() {
    let candidates = vec!["a".to_string(), "b".to_string(), "c".to_string()];
    assert_eq!(
        choose_ui_command(&candidates, &vec![false, true, true]),
        Some("b".to_string())
    );
    assert_eq!(choose_ui_command(&candidates, &vec![false, false, false]), None);
}

#[test]
fn not_found_message_lists_names() {
    let msg = ui_not_found_message(&vec!["sanshu-ui".to_string(), "等一下".to_string()]);
    assert!(msg.starts_with("UI command not found. Tried names: [\"sanshu-ui\", \"等一下\"]"));
    assert!(msg.contains("SANSHU_UI_PATH or MCP_UI_PATH"));
}

#[test]
fn blocking_output_normalization() {
    assert_eq!(blocking_output_to_response("  \n"), "CANCELLED");
    assert_eq!(blocking_output_to_response(""), "CANCELLED");
    assert_eq!(blocking_output_to_response(" answer \n"), "answer");
}
