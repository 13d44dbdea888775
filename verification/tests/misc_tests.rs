use sanshu::acemcp::{generate_recommendation, SpeedTestMetric};
use sanshu::appmeta::{get_app_info, get_app_name, get_app_version, get_user_agent, AppInfo};
use sanshu::config::{
    is_index_enabled, needs_rotation, tool_enabled, tool_kind_for_name, LogConfig, LogLevel,
    LogRotationConfig, ToolKind,
};
use sanshu::docs::{docs_api_base_url, docs_website_url, format_test_error, DocsConfig, DocsRequest, DocsTool};
use sanshu::history::{
    build_markdown, entry_dir_from_id, ext_from_media_type, first_line, preview_text,
    HistoryResponse,
};
use sanshu::protocol::PopupRequest;
use sanshu::reply::{McpResponse, ResponseMetadata};
use sanshu::memory::{MemoryCategory, MemoryTool};
use sanshu::pantry::{guess_ingredient_mime_from_ext, spice_dir};

fn metric(proxy: Option<u64>, direct: Option<u64>) -> SpeedTestMetric {
    SpeedTestMetric {
        name: "ping".to_string(),
        metric_type: "ping".to_string(),
        proxy_time_ms: proxy,
        direct_time_ms: direct,
        success: true,
        error: None,
    }
}

#[test]
fn app_identity() {
    assert_eq!(get_app_name(), "DevKit");
    assert_eq!(get_app_version(), "0.1.0");
    assert_eq!(get_user_agent(), "sanshu/0.1.0");
    let info = get_app_info();
    assert_eq!(info.get_full_title(), "DevKit v0.1.0");
    assert_eq!(info.get_window_title(), "DevKit");
    let other = AppInfo { name: "Tool".to_string(), version: "2.0".to_string(), ..get_app_info() };
    assert_eq!(other.get_full_title(), "Tool v2.0");
}

#[test]
fn docs_addresses_and_defaults() {
    assert_eq!(docs_website_url(), "https://context7.com");
    assert_eq!(docs_api_base_url(), "https://context7.com/api/v2");
    let config = DocsConfig::default();
    assert!(config.api_key.is_none());
    assert_eq!(config.base_url, "https://context7.com/api/v2");
}

#[test]
fn docs_error_messages() {
    assert_eq!(DocsTool::format_error_message(401, "x"), "Invalid or expired API key");
    assert_eq!(DocsTool::format_error_message(404, "gone"), "Library not found: gone");
    assert_eq!(
        DocsTool::format_error_message(429, "x"),
        "Rate limit reached, consider configuring an API Key"
    );
    assert_eq!(DocsTool::format_error_message(503, "down"), "Docs server error: down");
    assert_eq!(DocsTool::format_error_message(418, "teapot"), "teapot");
}

#[test]
fn docs_text_response_frame() {
    let request = DocsRequest {
        library: "facebook/react".to_string(),
        topic: Some("hooks".to_string()),
        version: None,
        page: Some(2),
    };
    let out = DocsTool::format_text_response("body text", &request);
    assert_eq!(
        out,
        "# facebook/react Documentation\n\n**Topic**: hooks\n**Page**: 2\n\n---\n\nbody text\n\n---\nSource: Docs - facebook/react\n"
    );
}

#[test]
fn docs_not_found_and_stars() {
    let out = DocsTool::format_not_found_no_suggestions("nope/missing");
    assert!(out.starts_with("**Library \"nope/missing\" not found**"));
    assert!(out.ends_with("[Docs](https://context7.com)"));
    assert_eq!(DocsTool::format_stars(999), "999");
    assert_eq!(DocsTool::format_stars(1000), "1.0K");
    assert_eq!(DocsTool::format_stars(1536), "1.5K");
    assert_eq!(DocsTool::format_stars(1550), "1.6K");
}

#[test]
fn config_decisions() {
    assert!(tool_enabled(None));
    assert!(tool_enabled(Some(true)));
    assert!(!tool_enabled(Some(false)));
    assert!(!is_index_enabled(None));
    assert!(is_index_enabled(Some(true)));
    assert!(needs_rotation(200 * 1024 * 1024, 200 * 1024 * 1024));
    assert!(!needs_rotation(1, 2));
    let rot = LogRotationConfig::default();
    assert_eq!(rot.max_size_bytes, 200 * 1024 * 1024);
    assert_eq!(rot.retention_days, 7);
    assert_eq!(rot.max_backup_count, 5);
    let log = LogConfig::default();
    assert_eq!(log.level, LogLevel::Warn);
    assert!(log.file_path.is_none());
    assert!(!log.is_mcp_mode);
}

#[test]
fn tool_dispatch() {
    assert_eq!(tool_kind_for_name("prompt"), ToolKind::Prompt);
    assert_eq!(tool_kind_for_name("prompt_sync"), ToolKind::PromptSync);
    assert_eq!(tool_kind_for_name("get_result"), ToolKind::GetResult);
    assert_eq!(tool_kind_for_name("memory"), ToolKind::Memory);
    assert_eq!(tool_kind_for_name("sou"), ToolKind::Search);
    assert_eq!(tool_kind_for_name("context7"), ToolKind::Docs);
    assert_eq!(tool_kind_for_name("something"), ToolKind::Unknown);
}

#[test]
fn docs_test_errors() {
    assert_eq!(format_test_error(401, "", "lib"), "API 密钥无效或已过期");
    assert_eq!(
        format_test_error(404, "", "my/lib"),
        "库 \"my/lib\" 不存在，请检查库标识符是否正确"
    );
    assert_eq!(format_test_error(500, "boom", "lib"), "Docs 服务器错误: boom");
    assert_eq!(format_test_error(418, "teapot", "lib"), "请求失败 (状态码: 418): teapot");
}

#[test]
fn memory_categories() {
    assert_eq!(MemoryTool::category_from_name("rule"), MemoryCategory::Rule);
    assert_eq!(MemoryTool::category_from_name("preference"), MemoryCategory::Preference);
    assert_eq!(MemoryTool::category_from_name("pattern"), MemoryCategory::Pattern);
    assert_eq!(MemoryTool::category_from_name("context"), MemoryCategory::Context);
    assert_eq!(MemoryTool::category_from_name("anything"), MemoryCategory::Context);
    assert!(MemoryTool::store_content_usable("remember this"));
    assert!(!MemoryTool::store_content_usable(" \n"));
}

#[test]
fn history_helpers() {
    assert_eq!(ext_from_media_type("image/png"), "png");
    assert_eq!(ext_from_media_type("image/jpeg"), "jpg");
    assert_eq!(ext_from_media_type("image/jpg"), "jpg");
    assert_eq!(ext_from_media_type("image/webp"), "webp");
    assert_eq!(ext_from_media_type("image/gif"), "gif");
    assert_eq!(ext_from_media_type("image/svg+xml"), "svg");
    assert_eq!(ext_from_media_type("application/zip"), "bin");
    assert_eq!(entry_dir_from_id("/data/history", "e1"), "/data/history/e1");
    assert_eq!(first_line("one\ntwo"), "one");
    assert_eq!(first_line("one\r\ntwo"), "one");
    assert_eq!(first_line("single"), "single");
    assert_eq!(first_line("keeps trailing\r"), "keeps trailing\r");
    assert_eq!(first_line(""), "");
}

#[test]
fn history_previews() {
    assert_eq!(
        preview_text(&Some("  answer line \nrest".to_string()), &Some("message".to_string())),
        "answer line"
    );
    assert_eq!(
        preview_text(&Some("  \n".to_string()), &Some("message first\nsecond".to_string())),
        "message first"
    );
    assert_eq!(preview_text(&None, &Some("msg".to_string())), "msg");
    assert_eq!(preview_text(&None, &None), "");
}

#[test]
fn history_markdown() {
    let request = PopupRequest {
        id: "1".to_string(),
        message: "what now?".to_string(),
        predefined_options: Some(vec!["a".to_string(), "b".to_string()]),
        is_markdown: true,
        project_root_path: None,
    };
    let response = HistoryResponse::Structured(McpResponse {
        user_input: Some("do a".to_string()),
        selected_options: vec!["a".to_string()],
        images: vec![],
        metadata: ResponseMetadata { timestamp: None, request_id: None, source: None },
    });
    let md = build_markdown(Some(&request), &response, &vec!["img.png".to_string()]);
    assert_eq!(
        md,
        "# 请求\n\nwhat now?\n\n## 选项\n\n- a\n- b\n\n# 回复\n\ndo a\n\n## 选择\n\n- a\n\n\n## 图片\n\n![](images/img.png)\n\n"
    );
    let raw = build_markdown(None, &HistoryResponse::Raw("plain".to_string()), &vec![]);
    assert_eq!(raw, "# 回复\n\nplain\n");
}

#[test]
fn pantry_helpers() {
    assert_eq!(spice_dir("/cache/pantry", "s1"), "/cache/pantry/s1");
    assert_eq!(guess_ingredient_mime_from_ext("png"), Some("image/png"));
    assert_eq!(guess_ingredient_mime_from_ext("jpeg"), Some("image/jpeg"));
    assert_eq!(guess_ingredient_mime_from_ext("tiff"), Some("image/tiff"));
    assert_eq!(guess_ingredient_mime_from_ext("txt"), None);
}

#[test]
fn speed_recommendation() {
    let single = generate_recommendation(&vec![metric(Some(10), None)], "proxy");
    assert_eq!(single, "单模式测试完成");
    let missing = generate_recommendation(&vec![metric(Some(10), None)], "compare");
    assert_eq!(missing, "无法对比，部分测试失败");
    let faster = generate_recommendation(&vec![metric(Some(100), Some(200))], "compare");
    assert_eq!(faster, "🟢 建议启用代理，性能提升约 50%");
    let slower = generate_recommendation(&vec![metric(Some(300), Some(200))], "compare");
    assert_eq!(slower, "🔴 建议直连，代理性能下降约 33%");
    let even = generate_recommendation(&vec![metric(Some(200), Some(200))], "compare");
    assert_eq!(even, "🟡 代理与直连性能相当");
}
