use screenshot_triage::classify::{
    build_primary_request, build_refine_request, clean_reply_text, encode_image, mask_credential,
    model_id, parse_reply_text, parse_subcategory_text, primary_prompt, refine_prompt,
    ProviderResponse,
};
use screenshot_triage::pipeline::{
    conclude_unit, processing_event, skipped_event, stop_acknowledgment, summary_event, FileEvent,
};
use screenshot_triage::scan::{Candidate, SkipRecord, SkipReason};

fn candidate() -> Candidate {
    Candidate {
        path: "/shots/Screenshot 2024.png".to_string(),
        name: "Screenshot 2024.png".to_string(),
        size: 1024,
    }
}

fn response(status: u16, body: &str) -> ProviderResponse {
    ProviderResponse { status, body: body.to_string() }
}

#[test]
fn fenced_reply_is_parsed_into_fields() {
    let text = "```json\n{\"new_filename\":\"stripe_invoice.png\",\"category\":\"Finance\",\"reasoning\":\"payment receipt\"}\n```";
    let f = parse_reply_text(text).expect("reply should parse");
    assert_eq!(f.new_filename, "stripe_invoice.png");
    assert_eq!(f.category, "Finance");
    assert_eq!(f.reasoning, "payment receipt");
}

#[test]
fn unfenced_reply_is_parsed_too() {
    let text = "{\"new_filename\":\"a_b.png\",\"category\":\"Code\",\"reasoning\":\"terminal window\"}";
    let f = parse_reply_text(text).expect("reply should parse");
    assert_eq!(f.new_filename, "a_b.png");
    assert_eq!(f.category, "Code");
}

#[test]
fn missing_reasoning_defaults_to_empty() {
    let text = "{\"new_filename\":\"a_b.png\",\"category\":\"Code\"}";
    let f = parse_reply_text(text).expect("reply should parse");
    assert_eq!(f.reasoning, "");
}

#[test]
fn invalid_json_reply_is_rejected() {
    assert!(parse_reply_text("not json at all").is_none());
    assert!(parse_reply_text("```json\n{\"new_filename\": \n```").is_none());
    assert!(parse_reply_text("{\"category\":\"Code\"}").is_none());
    assert!(parse_reply_text("{\"new_filename\":\"a.png\"}").is_none());
    assert!(parse_reply_text("{\"new_filename\":7,\"category\":\"Code\"}").is_none());
    assert!(parse_reply_text("").is_none());
}

#[test]
fn fence_stripping_removes_markers() {
    assert_eq!(clean_reply_text("```json\n{}\n```"), "\n{}\n");
    assert_eq!(clean_reply_text("  {}  "), "{}");
    assert_eq!(clean_reply_text("``````json"), "");
    assert_eq!(clean_reply_text("\u{A0}{}\u{2003}"), "{}");
}

#[test]
fn unit_concludes_with_proposal_on_accepted_body() {
    let body = "{\"content\":[{\"type\":\"text\",\"text\":\"{\\\"new_filename\\\":\\\"stripe_invoice.png\\\",\\\"category\\\":\\\"Finance\\\",\\\"reasoning\\\":\\\"payment receipt\\\"}\"}]}";
    let c = candidate();
    match conclude_unit(&c, Some(&response(200, body))) {
        FileEvent::Proposed(p) => {
            assert_eq!(p.id, "Screenshot 2024.png");
            assert_eq!(p.original_name, "Screenshot 2024.png");
            assert_eq!(p.original_path, "/shots/Screenshot 2024.png");
            assert_eq!(p.proposed_name, "stripe_invoice.png");
            assert_eq!(p.proposed_category, "Finance");
            assert_eq!(p.reasoning, "payment receipt");
        }
        _ => panic!("expected a proposal"),
    }
}

#[test]
fn unit_concludes_with_failure_on_bad_text_block() {
    let c = candidate();
    let body = "{\"content\":[{\"type\":\"text\",\"text\":\"oops not json\"}]}";
    match conclude_unit(&c, Some(&response(200, body))) {
        FileEvent::Failed(n) => assert_eq!(n, "Screenshot 2024.png"),
        _ => panic!("expected a failure"),
    }
}

#[test]
fn unit_concludes_with_failure_on_error_status() {
    let c = candidate();
    let well_shaped = "{\"content\":[{\"type\":\"text\",\"text\":\"{\\\"new_filename\\\":\\\"a.png\\\",\\\"category\\\":\\\"Code\\\"}\"}]}";
    for status in [400u16, 401, 429, 500, 529] {
        match conclude_unit(&c, Some(&response(status, well_shaped))) {
            FileEvent::Failed(n) => assert_eq!(n, "Screenshot 2024.png"),
            _ => panic!("a non-2xx reply must never yield a proposal"),
        }
    }
}

#[test]
fn unit_concludes_with_failure_on_missing_block_or_transport() {
    let c = candidate();
    match conclude_unit(&c, Some(&response(200, "{\"error\":\"overloaded\"}"))) {
        FileEvent::Failed(n) => assert_eq!(n, "Screenshot 2024.png"),
        _ => panic!("expected a failure"),
    }
    match conclude_unit(&c, None) {
        FileEvent::Failed(n) => assert_eq!(n, "Screenshot 2024.png"),
        _ => panic!("expected a failure"),
    }
}

#[test]
fn unit_lifecycle_starts_with_processing() {
    let c = candidate();
    let start = processing_event(&c);
    match start {
        FileEvent::Processing(n) => assert_eq!(n, "Screenshot 2024.png"),
        _ => panic!("expected processing"),
    }
}

#[test]
fn event_channels_are_fixed() {
    let c = candidate();
    assert_eq!(processing_event(&c).channel(), "file-processing");
    assert_eq!(conclude_unit(&c, None).channel(), "file-failed");
    assert_eq!(summary_event(3).channel(), "scan-summary");
    let skip = SkipRecord {
        name: "Screenshot Big.png".to_string(),
        size: 6291456,
        reason: SkipReason::ExceedsSizeLimit,
    };
    assert_eq!(skipped_event(skip).channel(), "file-skipped");
    let body = "{\"content\":[{\"type\":\"text\",\"text\":\"{\\\"new_filename\\\":\\\"a.png\\\",\\\"category\\\":\\\"Code\\\"}\"}]}";
    assert_eq!(conclude_unit(&c, Some(&response(200, body))).channel(), "file-proposed");
}

#[test]
fn image_bytes_are_base64_encoded() {
    assert_eq!(encode_image(&b"hello"[..]), "aGVsbG8=");
    assert_eq!(encode_image(&[]), "");
    assert_eq!(encode_image(&[0xffu8, 0x00, 0x10][..]), "/wAQ");
}

#[test]
fn primary_request_carries_the_fixed_protocol() {
    let r = build_primary_request(&b"hello"[..]);
    assert_eq!(r.model, model_id());
    assert_eq!(r.model, "vision-classifier-v1");
    assert_eq!(r.max_tokens, 1024);
    assert_eq!(r.prompt, primary_prompt());
    assert_eq!(r.image_base64, "aGVsbG8=");
    assert_eq!(r.media_type, "image/png");
}

#[test]
fn refine_request_embeds_the_parent_category() {
    let r = build_refine_request(&b"img"[..], "Finance");
    assert_eq!(r.max_tokens, 256);
    assert_eq!(r.prompt, refine_prompt("Finance"));
    assert!(r.prompt.starts_with("This screenshot is currently categorized as 'Finance'."));
}

#[test]
fn subcategory_reply_is_parsed_and_never_empty() {
    let t = "```json\n{\"subcategory\":\"Bank_Statements\"}\n```";
    assert_eq!(parse_subcategory_text(t).expect("should parse"), "Bank_Statements");
    assert!(parse_subcategory_text("{\"subcategory\":\"\"}").is_none());
    assert!(parse_subcategory_text("{\"other\":\"x\"}").is_none());
    assert!(parse_subcategory_text("not json").is_none());
}

#[test]
fn stopping_acknowledges_without_cancelling() {
    assert_eq!(stop_acknowledgment(), "Stopped watching");
}

#[test]
fn credential_is_masked_to_a_short_prefix() {
    assert_eq!(mask_credential("sk-abcdefghijklmnop"), "sk-abcdefg...");
    assert_eq!(mask_credential("short"), "short...");
    assert_eq!(mask_credential(""), "...");
}
