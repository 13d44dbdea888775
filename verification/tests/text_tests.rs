use sanshu::json::{escape_json, json_string_array, quote_json, quote_json_opt};
use sanshu::messages::{
    abandoned_message, already_open_message, mcp_log_file_name, path_join,
    pending_record_file_name, request_file_name, response_file_name, started_message,
    still_pending_message, task_not_found_message, ui_log_file_name,
};
use sanshu::text::{is_blank, join_strings, parse_u64, preview_str, str_eq, trim_str, u64_to_string};

#[test]
fn decimal_rendering() {
    assert_eq!(u64_to_string(0), "0");
    assert_eq!(u64_to_string(7), "7");
    assert_eq!(u64_to_string(1234567890), "1234567890");
    assert_eq!(u64_to_string(u64::MAX), "18446744073709551615");
}

#[test]
fn decimal_parsing() {
    assert_eq!(parse_u64("0"), Some(0));
    assert_eq!(parse_u64("30000"), Some(30000));
    assert_eq!(parse_u64("+42"), Some(42));
    assert_eq!(parse_u64("18446744073709551615"), Some(u64::MAX));
    assert_eq!(parse_u64("18446744073709551616"), None);
    assert_eq!(parse_u64(""), None);
    assert_eq!(parse_u64("+"), None);
    assert_eq!(parse_u64("12a"), None);
    assert_eq!(parse_u64("-1"), None);
    assert_eq!(parse_u64(" 5"), None);
}

#[test]
fn trimming_and_blanks() {
    assert_eq!(trim_str("  hi \n\t"), "hi");
    assert_eq!(trim_str(""), "");
    assert_eq!(trim_str(" \r\n "), "");
    assert!(is_blank("  \t\r\n"));
    assert!(is_blank(""));
    assert!(!is_blank(" x "));
}

#[test]
fn joining_and_comparing() {
    assert_eq!(
        join_strings(&vec!["a".to_string(), "b".to_string(), "c".to_string()], ", "),
        "a, b, c"
    );
    assert_eq!(join_strings(&vec![], "-"), "");
    assert_eq!(join_strings(&vec!["one".to_string()], "-"), "one");
    assert!(str_eq("same", "same"));
    assert!(!str_eq("same", "Same"));
}

#[test]
fn previews() {
    assert_eq!(preview_str("short"), "short");
    let long = "x".repeat(60);
    let p = preview_str(&long);
    assert_eq!(p.len(), 53);
    assert!(p.ends_with("..."));
}

#[test]
fn json_escaping() {
    assert_eq!(escape_json("plain"), "plain");
    assert_eq!(escape_json("a\"b"), "a\\\"b");
    assert_eq!(escape_json("a\\b"), "a\\\\b");
    assert_eq!(escape_json("line\nbreak\ttab\rret"), "line\\nbreak\\ttab\\rret");
    assert_eq!(escape_json("\u{1}"), "\\u0001");
    assert_eq!(escape_json("\u{1f}"), "\\u001f");
    assert_eq!(quote_json("hi"), "\"hi\"");
    assert_eq!(quote_json_opt(&None), "null");
    assert_eq!(quote_json_opt(&Some("v".to_string())), "\"v\"");
    assert_eq!(
        json_string_array(&vec!["a".to_string(), "b\"".to_string()]),
        "[\"a\",\"b\\\"\"]"
    );
    assert_eq!(json_string_array(&vec![]), "[]");
    // Everything the emitter escapes, a JSON parser decodes back.
    let original = "mixed \"quotes\" and\nlines \u{3} here";
    let parsed: serde_json::Value = serde_json::from_str(&quote_json(original)).unwrap();
    assert_eq!(parsed.as_str().unwrap(), original);
}

#[test]
fn task_file_names() {
    assert_eq!(request_file_name("t1"), "mcp_request_t1.json");
    assert_eq!(response_file_name("t1"), "mcp_response_t1.json");
    assert_eq!(ui_log_file_name("t1"), "devkit_ui_mcp_t1.log");
    assert_eq!(mcp_log_file_name(), "devkit_mcp.log");
    assert_eq!(pending_record_file_name(), "devkit_mcp_pending_task.json");
    assert_eq!(path_join("/tmp", "f.json"), "/tmp/f.json");
}

#[test]
fn instruction_texts() {
    let started = started_message("id-1", "/usr/bin/ui");
    assert!(started.starts_with("Interactive dialog opened. Task ID: id-1\nUI executable: /usr/bin/ui"));
    assert!(started.contains("Call cache_get ONCE with task_id \"id-1\""));

    let open = already_open_message("id-2");
    assert!(open.starts_with("An interactive dialog is already open. Task ID: id-2"));
    assert!(open.contains("DO NOT call prompt again."));

    let gone = abandoned_message("id-3", "/tmp/ui.log", "/tmp/mcp.log");
    assert!(gone.starts_with("UI did not return a response"));
    assert!(gone.contains("Task ID: id-3"));
    assert!(gone.contains("UI log: /tmp/ui.log"));
    assert!(gone.contains("MCP log: /tmp/mcp.log"));

    let pending = still_pending_message("id-4", 1200, Some(30000), "/tmp/u.log", "/tmp/m.log");
    assert!(pending.starts_with("Status: PENDING - User has not submitted yet\nTask ID: id-4"));
    assert!(pending.contains("Long-poll waited: 1200ms (max 30000)"));
    assert!(pending.contains("DO NOT call cache_get again until the user confirms."));
    let unbounded = still_pending_message("id-4", 5, None, "u", "m");
    assert!(unbounded.contains("(max infinite)"));

    let missing = task_not_found_message("id-5");
    assert_eq!(
        missing,
        "Task not found: id-5. Make sure you called cache (or cache_sync) first."
    );
}
