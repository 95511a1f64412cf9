use vigilant_vole::api::notifications::{form_to_channel, ChannelForm};
use vigilant_vole::db::models::{ChannelKind, HeartbeatStatus, NotificationChannel};
use vigilant_vole::notification::{alert_text, config_str, notification_request};

fn channel(kind: ChannelKind, config: &str) -> NotificationChannel {
    NotificationChannel { id: 1, name: "c".to_string(), kind, config: config.to_string(), active: true }
}

#[test]
fn alert_sentences() {
    assert_eq!(alert_text("api", HeartbeatStatus::Down, Some("timed out")), "api is now down (timed out)");
    assert_eq!(alert_text("api", HeartbeatStatus::Up, None), "api is now up");
}

#[test]
fn discord_and_slack_bodies() {
    let r = notification_request(
        &channel(ChannelKind::Discord, r#"{"url":"https://discord.example/hook"}"#),
        "api",
        HeartbeatStatus::Down,
        Some("HTTP 500 Internal Server Error"),
    )
    .unwrap();
    assert_eq!(r.url, "https://discord.example/hook");
    assert_eq!(r.body, r#"{"content":"api is now down (HTTP 500 Internal Server Error)"}"#);
    let r = notification_request(
        &channel(ChannelKind::Slack, r#"{"url":"https://slack.example/hook","extra":1}"#),
        "api",
        HeartbeatStatus::Up,
        None,
    )
    .unwrap();
    assert_eq!(r.url, "https://slack.example/hook");
    assert_eq!(r.body, r#"{"text":"api is now up"}"#);
}

#[test]
fn webhook_body_carries_fields() {
    let r = notification_request(
        &channel(ChannelKind::Webhook, r#"{"url":"https://hook.example"}"#),
        "say \"hi\"",
        HeartbeatStatus::Down,
        None,
    )
    .unwrap();
    assert_eq!(r.body, r#"{"message":null,"monitor":"say \"hi\"","status":"down"}"#);
    let mut map = serde_json::Map::new();
    map.insert("monitor".to_string(), serde_json::Value::String("say \"hi\"".to_string()));
    map.insert("status".to_string(), serde_json::Value::String("down".to_string()));
    map.insert("message".to_string(), serde_json::Value::Null);
    let expected = serde_json::Value::Object(map).to_string();
    assert_eq!(r.body, expected);
    let r = notification_request(
        &channel(ChannelKind::Webhook, r#"{"url":"https://hook.example"}"#),
        "api",
        HeartbeatStatus::Up,
        Some("ok\n"),
    )
    .unwrap();
    assert_eq!(r.body, r#"{"message":"ok\n","monitor":"api","status":"up"}"#);
}

#[test]
fn telegram_request() {
    let r = notification_request(
        &channel(ChannelKind::Telegram, r#"{"bot_token":"123:abc","chat_id":"42"}"#),
        "db",
        HeartbeatStatus::Down,
        Some("connection refused"),
    )
    .unwrap();
    assert_eq!(r.url, "https://api.telegram.org/bot123:abc/sendMessage");
    assert_eq!(r.body, r#"{"chat_id":"42","text":"db is now down (connection refused)"}"#);
}

#[test]
fn missing_or_bad_settings_are_errors() {
    let e = notification_request(&channel(ChannelKind::Discord, r#"{"hook":"x"}"#), "a", HeartbeatStatus::Up, None)
        .unwrap_err();
    assert_eq!(e, "missing 'url' in channel config");
    let e = notification_request(&channel(ChannelKind::Slack, r#"{"url":5}"#), "a", HeartbeatStatus::Up, None)
        .unwrap_err();
    assert_eq!(e, "missing 'url' in channel config");
    let e = notification_request(
        &channel(ChannelKind::Telegram, r#"{"chat_id":"42"}"#),
        "a",
        HeartbeatStatus::Up,
        None,
    )
    .unwrap_err();
    assert_eq!(e, "missing 'bot_token' in channel config");
    let e = notification_request(
        &channel(ChannelKind::Telegram, r#"{"bot_token":"t"}"#),
        "a",
        HeartbeatStatus::Up,
        None,
    )
    .unwrap_err();
    assert_eq!(e, "missing 'chat_id' in channel config");
    let e = notification_request(&channel(ChannelKind::Webhook, "not json"), "a", HeartbeatStatus::Up, None)
        .unwrap_err();
    let expected = serde_json::from_str::<serde_json::Value>("not json").unwrap_err().to_string();
    assert_eq!(e, expected);
    assert_eq!(config_str("[1]", "url").unwrap_err(), "missing 'url' in channel config");
    assert_eq!(config_str(r#"{"url":"u"}"#, "url").unwrap(), "u");
}

#[test]
fn channel_saved_from_form_notifies_where_the_form_said() {
    let form = ChannelForm {
        name: "ops".to_string(),
        kind: "telegram".to_string(),
        url: String::new(),
        bot_token: "9:tok".to_string(),
        chat_id: "7".to_string(),
    };
    let saved = form_to_channel(form);
    let ch = NotificationChannel { id: 1, name: saved.name, kind: saved.kind, config: saved.config, active: true };
    let r = notification_request(&ch, "web", HeartbeatStatus::Up, None).unwrap();
    assert_eq!(r.url, "https://api.telegram.org/bot9:tok/sendMessage");
    assert_eq!(r.body, r#"{"chat_id":"7","text":"web is now up"}"#);

    let form = ChannelForm {
        name: "hook".to_string(),
        kind: "webhook".to_string(),
        url: "https://example.com/ü\\".to_string(),
        bot_token: String::new(),
        chat_id: String::new(),
    };
    let saved = form_to_channel(form);
    let ch = NotificationChannel { id: 2, name: saved.name, kind: saved.kind, config: saved.config, active: true };
    let r = notification_request(&ch, "web", HeartbeatStatus::Down, None).unwrap();
    assert_eq!(r.url, "https://example.com/ü\\");
}
