use sanshu::protocol::{
    build_continue_response, build_send_response, default_category, default_is_markdown,
    render_popup_request_json, render_record_json, render_response_json, PopupRequest, ZhiRequest,
};
use sanshu::reply::ImageAttachment;
use sanshu::task::PersistedPendingTask;

#[test]
fn zhi_request_getters() {
    let req = ZhiRequest {
        message: "pick one".to_string(),
        choices: vec!["yes".to_string(), "no".to_string()],
        format: false,
        project_root_path: None,
    };
    assert_eq!(req.get_choices(), &vec!["yes".to_string(), "no".to_string()]);
    assert!(!req.get_format());
    assert!(default_is_markdown());
    assert_eq!(default_category(), "context");
}

#[test]
fn popup_request_drops_empty_choice_list() {
    let req = ZhiRequest {
        message: "m".to_string(),
        choices: vec![],
        format: true,
        project_root_path: Some("/work".to_string()),
    };
    let popup = PopupRequest::from_request("id-1".to_string(), req);
    assert_eq!(popup.id, "id-1");
    assert!(popup.predefined_options.is_none());
    assert!(popup.is_markdown);
    assert_eq!(popup.project_root_path.as_deref(), Some("/work"));
}

#[test]
fn popup_request_json_document() {
    let popup = PopupRequest {
        id: "42".to_string(),
        message: "say \"hi\"\n".to_string(),
        predefined_options: Some(vec!["a".to_string(), "b".to_string()]),
        is_markdown: true,
        project_root_path: None,
    };
    let json = render_popup_request_json(&popup);
    assert_eq!(
        json,
        "{\"id\":\"42\",\"message\":\"say \\\"hi\\\"\\n\",\"predefined_options\":[\"a\",\"b\"],\"is_markdown\":true,\"project_root_path\":null}"
    );
    // What the library writes, a JSON parser reads back unchanged.
    let parsed: serde_json::Value = serde_json::from_str(&json).unwrap();
    assert_eq!(parsed["message"], "say \"hi\"\n");
    assert_eq!(parsed["predefined_options"][1], "b");
    assert_eq!(parsed["project_root_path"], serde_json::Value::Null);
}

#[test]
fn record_json_document() {
    let rec = PersistedPendingTask {
        task_id: "t".to_string(),
        request_file: "/tmp/rq".to_string(),
        response_file: "/tmp/rs".to_string(),
        ui_pid: Some(910),
    };
    assert_eq!(
        render_record_json(&rec),
        "{\"task_id\":\"t\",\"request_file\":\"/tmp/rq\",\"response_file\":\"/tmp/rs\",\"ui_pid\":910}"
    );
    let none = PersistedPendingTask { ui_pid: None, ..rec };
    assert!(render_record_json(&none).ends_with("\"ui_pid\":null}"));
}

#[test]
fn response_json_document() {
    let json = render_response_json(
        &Some("hello".to_string()),
        &vec!["A".to_string()],
        &vec![ImageAttachment {
            data: "Zm9v".to_string(),
            media_type: "image/png".to_string(),
            filename: None,
        }],
        &Some("req-9".to_string()),
        "ui",
        "2021-01-01T00:00:00+00:00",
    );
    assert_eq!(
        json,
        "{\"images\":[{\"data\":\"Zm9v\",\"media_type\":\"image/png\",\"filename\":null}],\
         \"metadata\":{\"request_id\":\"req-9\",\"source\":\"ui\",\"timestamp\":\"2021-01-01T00:00:00+00:00\"},\
         \"selected_options\":[\"A\"],\"user_input\":\"hello\"}"
    );
}

#[test]
fn send_response_round_trips_through_json() {
    let json = build_send_response(
        Some("answer".to_string()),
        vec!["B".to_string()],
        vec![],
        Some("rid".to_string()),
        "popup",
    );
    let parsed: serde_json::Value = serde_json::from_str(&json).unwrap();
    assert_eq!(parsed["user_input"], "answer");
    assert_eq!(parsed["selected_options"][0], "B");
    assert_eq!(parsed["images"].as_array().unwrap().len(), 0);
    assert_eq!(parsed["metadata"]["request_id"], "rid");
    assert_eq!(parsed["metadata"]["source"], "popup");
    assert!(!parsed["metadata"]["timestamp"].as_str().unwrap().is_empty());
}

#[test]
fn continue_response_uses_stock_prompt() {
    let json = build_continue_response(None, None, "ui");
    let parsed: serde_json::Value = serde_json::from_str(&json).unwrap();
    assert_eq!(parsed["user_input"], "Please continue following best practices");
    let json = build_continue_response(Some("go on".to_string()), None, "ui");
    let parsed: serde_json::Value = serde_json::from_str(&json).unwrap();
    assert_eq!(parsed["user_input"], "go on");
}
