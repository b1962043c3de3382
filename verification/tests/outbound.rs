use telegram_relay::decimal::{format_i64, format_u64};
use telegram_relay::outbound::{
    build_poll_body, build_poll_url, build_send_body, build_send_url, outcome_of_status,
    ParseMode, RemoteOutcome,
};

#[test]
fn send_url_embeds_credential() {
    assert_eq!(
        build_send_url("123:abc"),
        "https://api.telegram.org/bot123:abc/sendMessage"
    );
    assert_eq!(
        build_poll_url("123:abc"),
        "https://api.telegram.org/bot123:abc/getUpdates"
    );
}

#[test]
fn send_body_plain() {
    let b = build_send_body(7, "hi", None);
    assert_eq!(b, b"{\"chat_id\":7,\"text\":\"hi\"}".to_vec());
}

#[test]
fn send_body_markdown_tag() {
    let b = build_send_body(7, "hi", Some(ParseMode::Markdown));
    assert_eq!(
        b,
        b"{\"chat_id\":7,\"text\":\"hi\",\"parse_mode\":\"MarkdownV2\"}".to_vec()
    );
}

#[test]
fn send_body_html_tag() {
    let b = build_send_body(-100200, "x", Some(ParseMode::Html));
    assert_eq!(
        b,
        b"{\"chat_id\":-100200,\"text\":\"x\",\"parse_mode\":\"HTML\"}".to_vec()
    );
}

#[test]
fn send_body_escapes_text() {
    let b = build_send_body(1, "a\"b\\c\nd\të", None);
    assert_eq!(
        b,
        "{\"chat_id\":1,\"text\":\"a\\\"b\\\\c\\nd\\të\"}".as_bytes().to_vec()
    );
}

#[test]
fn send_body_escapes_rare_control_bytes() {
    let b = build_send_body(1, "\u{1}\u{1f}", None);
    assert_eq!(b, b"{\"chat_id\":1,\"text\":\"\\u0001\\u001f\"}".to_vec());
}

#[test]
fn send_body_passes_unicode_through() {
    let b = build_send_body(-42, "ünïcodé ✓", Some(ParseMode::Markdown));
    assert_eq!(
        b,
        "{\"chat_id\":-42,\"text\":\"ünïcodé ✓\",\"parse_mode\":\"MarkdownV2\"}"
            .as_bytes()
            .to_vec()
    );
}

#[test]
fn poll_body_with_and_without_cursor() {
    assert_eq!(build_poll_body(None), b"{\"timeout\":30}".to_vec());
    assert_eq!(
        build_poll_body(Some(8)),
        b"{\"timeout\":30,\"offset\":8}".to_vec()
    );
}

#[test]
fn decimal_rendering_covers_extremes() {
    assert_eq!(format_u64(0), b"0".to_vec());
    assert_eq!(format_u64(907), b"907".to_vec());
    assert_eq!(format_i64(i64::MIN), b"-9223372036854775808".to_vec());
    assert_eq!(format_i64(i64::MAX), b"9223372036854775807".to_vec());
    assert_eq!(format_i64(-1), b"-1".to_vec());
}

#[test]
fn status_classification() {
    assert!(matches!(outcome_of_status(200, Vec::new()), RemoteOutcome::Delivered));
    assert!(matches!(outcome_of_status(204, Vec::new()), RemoteOutcome::Delivered));
    assert!(matches!(outcome_of_status(299, Vec::new()), RemoteOutcome::Delivered));
    match outcome_of_status(404, b"nf".to_vec()) {
        RemoteOutcome::Rejected { status, body } => {
            assert_eq!(status, 404);
            assert_eq!(body, b"nf".to_vec());
        }
        _ => panic!("expected rejection"),
    }
    match outcome_of_status(199, Vec::new()) {
        RemoteOutcome::Rejected { status, .. } => assert_eq!(status, 199),
        _ => panic!("expected rejection"),
    }
}
