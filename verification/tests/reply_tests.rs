use sanshu::reply::{
    estimate_decoded_size, is_cancel_sentinel, media_type_allows_embedding, render_legacy,
    render_reply, render_structured, should_skip_history_save, size_label, ContentPart,
    ImageAttachment, ImageSource, McpResponse, McpResponseContent, ReplyPayload, ResponseMetadata,
};
use sanshu::MAX_EMBED_BASE64_LEN;

fn metadata() -> ResponseMetadata {
    ResponseMetadata { timestamp: None, request_id: None, source: None }
}

fn text_of(part: &ContentPart) -> &str {
    match part {
        ContentPart::Text(t) => t.as_str(),
        ContentPart::Image { .. } => panic!("expected a text part"),
    }
}

fn is_image(part: &ContentPart) -> bool {
    matches!(part, ContentPart::Image { .. })
}

#[test]
fn round_trip_text_and_selection() {
    // Free text "hello" and one selected choice "A": the result is exactly
    // the joined selection line followed by the text, with no image parts.
    let resp = McpResponse {
        user_input: Some("hello".to_string()),
        selected_options: vec!["A".to_string()],
        images: vec![],
        metadata: metadata(),
    };
    let parts = render_structured(&resp);
    assert_eq!(parts.len(), 1);
    assert_eq!(text_of(&parts[0]), "Selected: A\n\nhello");
    assert!(!parts.iter().any(is_image));
}

#[test]
fn selections_are_joined_and_input_trimmed() {
    let resp = McpResponse {
        user_input: Some("  spaced out  \n".to_string()),
        selected_options: vec!["A".to_string(), "B".to_string()],
        images: vec![],
        metadata: metadata(),
    };
    let parts = render_structured(&resp);
    assert_eq!(parts.len(), 1);
    assert_eq!(text_of(&parts[0]), "Selected: A, B\n\nspaced out");
}

#[test]
fn cancellation_sentinel_variants() {
    assert!(is_cancel_sentinel("CANCELLED"));
    assert!(is_cancel_sentinel("\"CANCELLED\""));
    assert!(is_cancel_sentinel("  CANCELLED \n"));
    assert!(!is_cancel_sentinel("CANCELLED!"));
    assert!(!is_cancel_sentinel("cancelled"));
    let parts = render_reply(ReplyPayload::Cancelled);
    assert_eq!(parts.len(), 1);
    assert_eq!(text_of(&parts[0]), "Operation cancelled by user");
}

#[test]
fn cancellation_is_never_saved_to_history() {
    assert!(should_skip_history_save("CANCELLED"));
    assert!(should_skip_history_save(" \"CANCELLED\" "));
    assert!(should_skip_history_save("   "));
    assert!(should_skip_history_save(""));
    assert!(!should_skip_history_save("{\"user_input\":\"hi\"}"));
}

#[test]
fn small_allowed_image_is_embedded() {
    let resp = McpResponse {
        user_input: None,
        selected_options: vec![],
        images: vec![ImageAttachment {
            data: "aGVsbG8=".to_string(),
            media_type: "image/png".to_string(),
            filename: None,
        }],
        metadata: metadata(),
    };
    let parts = render_structured(&resp);
    assert_eq!(parts.len(), 1);
    match &parts[0] {
        ContentPart::Image { data, media_type } => {
            assert_eq!(data, "aGVsbG8=");
            assert_eq!(media_type, "image/png");
        }
        _ => panic!("an allowed small attachment must be embedded"),
    }
}

#[test]
fn oversized_attachment_is_described_not_embedded() {
    // Base64 one character over the threshold: never returned as image
    // content, described with its approximate decoded size instead.
    let data = "A".repeat(MAX_EMBED_BASE64_LEN + 1);
    let resp = McpResponse {
        user_input: None,
        selected_options: vec![],
        images: vec![ImageAttachment {
            data,
            media_type: "image/png".to_string(),
            filename: Some("big.png".to_string()),
        }],
        metadata: metadata(),
    };
    let parts = render_structured(&resp);
    assert_eq!(parts.len(), 1);
    assert!(!parts.iter().any(is_image));
    let note = text_of(&parts[0]);
    assert!(note.contains("=== Image 1 ==="));
    assert!(note.contains("Filename: big.png"));
    // (8 MiB + 1) * 3 / 4 = 6291456 bytes, displayed as 6.0 MB.
    assert!(note.contains("Size: 6.0 MB"));
    assert!(note.contains(&format!("Full Base64 length: {} chars", MAX_EMBED_BASE64_LEN + 1)));
    assert!(note.contains("Not embedded: payload exceeds the embeddable size"));
    assert!(note.contains("Base64 preview: AAAAAAAAAAAAAAAAAAAAAAAAAAAAAAAAAAAAAAAAAAAAAAAAAA..."));
}

#[test]
fn unsupported_media_type_is_described_not_embedded() {
    let resp = McpResponse {
        user_input: Some("see attachment".to_string()),
        selected_options: vec![],
        images: vec![ImageAttachment {
            data: "R0lGODlh".to_string(),
            media_type: "image/gif".to_string(),
            filename: None,
        }],
        metadata: metadata(),
    };
    let parts = render_structured(&resp);
    assert_eq!(parts.len(), 2);
    assert_eq!(text_of(&parts[0]), "see attachment");
    assert!(!parts.iter().any(is_image));
    let note = text_of(&parts[1]);
    assert!(note.contains("Type: image/gif"));
    assert!(note.contains("Not embedded: media type not supported"));
}

#[test]
fn empty_reply_yields_placeholder() {
    let resp = McpResponse {
        user_input: Some("   ".to_string()),
        selected_options: vec![],
        images: vec![],
        metadata: metadata(),
    };
    let parts = render_structured(&resp);
    assert_eq!(parts.len(), 1);
    assert_eq!(text_of(&parts[0]), "No content provided");
}

#[test]
fn legacy_blocks_render_in_canonical_order() {
    let blocks = vec![
        McpResponseContent {
            content_type: "text".to_string(),
            text: Some("first".to_string()),
            source: None,
        },
        McpResponseContent {
            content_type: "image".to_string(),
            text: None,
            source: Some(ImageSource {
                source_type: "base64".to_string(),
                media_type: "image/jpeg".to_string(),
                data: "Zm9v".to_string(),
            }),
        },
        McpResponseContent {
            content_type: "note".to_string(),
            text: Some("second".to_string()),
            source: None,
        },
    ];
    let parts = render_legacy(&blocks);
    assert_eq!(parts.len(), 2);
    assert_eq!(text_of(&parts[0]), "first\n\nsecond");
    match &parts[1] {
        ContentPart::Image { data, media_type } => {
            assert_eq!(data, "Zm9v");
            assert_eq!(media_type, "image/jpeg");
        }
        _ => panic!("the base64 image block must be embedded"),
    }
}

#[test]
fn legacy_non_base64_source_is_dropped() {
    let blocks = vec![McpResponseContent {
        content_type: "image".to_string(),
        text: None,
        source: Some(ImageSource {
            source_type: "url".to_string(),
            media_type: "image/png".to_string(),
            data: "http".to_string(),
        }),
    }];
    let parts = render_legacy(&blocks);
    assert_eq!(parts.len(), 1);
    assert_eq!(text_of(&parts[0]), "No content provided");
}

#[test]
fn raw_payload_passes_through() {
    let parts = render_reply(ReplyPayload::Raw("just words".to_string()));
    assert_eq!(parts.len(), 1);
    assert_eq!(text_of(&parts[0]), "just words");
}

#[test]
fn media_allow_list() {
    assert!(media_type_allows_embedding("image/png"));
    assert!(media_type_allows_embedding("image/jpeg"));
    assert!(media_type_allows_embedding("image/webp"));
    assert!(!media_type_allows_embedding("image/gif"));
    assert!(!media_type_allows_embedding("application/pdf"));
}

#[test]
fn size_estimates_and_labels() {
    assert_eq!(estimate_decoded_size(0), 0);
    assert_eq!(estimate_decoded_size(8), 6);
    assert_eq!(estimate_decoded_size(10), 7);
    assert_eq!(size_label(512), "512 B");
    assert_eq!(size_label(1024), "1.0 KB");
    assert_eq!(size_label(1536), "1.5 KB");
    assert_eq!(size_label(1024 * 1024), "1.0 MB");
    assert_eq!(size_label(6291456), "6.0 MB");
}
