use telegram_relay::config::{render_config, Config};

#[test]
fn render_config_exact_document() {
    let c = Config {
        listen_addr: "127.0.0.1:8080".to_string(),
        bot_token: "123:abc".to_string(),
        target_username: "alice".to_string(),
        chat_id: Some(-42),
    };
    let expected = "{\n  \"listen_addr\": \"127.0.0.1:8080\",\n  \"telegram_bot_token\": \"123:abc\",\n  \"telegram_username\": \"alice\",\n  \"telegram_chat_id\": -42\n}";
    assert_eq!(render_config(&c), expected.as_bytes().to_vec());
}

#[test]
fn render_config_unresolved_chat_is_null() {
    let c = Config {
        listen_addr: "a".to_string(),
        bot_token: "b".to_string(),
        target_username: "c".to_string(),
        chat_id: None,
    };
    let expected = "{\n  \"listen_addr\": \"a\",\n  \"telegram_bot_token\": \"b\",\n  \"telegram_username\": \"c\",\n  \"telegram_chat_id\": null\n}";
    assert_eq!(render_config(&c), expected.as_bytes().to_vec());
}

#[test]
fn render_config_escapes_field_text() {
    let c = Config {
        listen_addr: "0.0.0.0:1".to_string(),
        bot_token: "to\"ken\\x".to_string(),
        target_username: "@bob".to_string(),
        chat_id: Some(7),
    };
    let expected = "{\n  \"listen_addr\": \"0.0.0.0:1\",\n  \"telegram_bot_token\": \"to\\\"ken\\\\x\",\n  \"telegram_username\": \"@bob\",\n  \"telegram_chat_id\": 7\n}";
    assert_eq!(render_config(&c), expected.as_bytes().to_vec());
}
