use vigilant_vole::api::auth::{
    admin_exists, login_outcome, login_page_gate, login_username, require_auth_gate, session_value,
    setup_page_gate, setup_submit_outcome, Gate, LoginForm, SetupForm, SetupOutcome, LOGIN_ERROR, SETUP_ERROR,
};
use vigilant_vole::api::monitors::{edit_form_values, form_to_new_monitor, new_form_values, MonitorForm};
use vigilant_vole::api::notifications::{form_to_channel, ChannelForm};
use vigilant_vole::api::{dashboard_data, guess_content_type};
use vigilant_vole::auth::{hash_password, stored_key_is_usable, verify_password, SESSION_COOKIE};
use vigilant_vole::config::{join_path, Config};
use vigilant_vole::db::models::{ChannelKind, HeartbeatStatus, Monitor, MonitorType, MonitorWithStatus};
use vigilant_vole::db::users::User;

#[test]
fn content_type_by_extension() {
    assert_eq!(guess_content_type("app.js"), "text/javascript; charset=utf-8");
    assert_eq!(guess_content_type("css/site.css"), "text/css; charset=utf-8");
    assert_eq!(guess_content_type("logo.svg"), "image/svg+xml");
    assert_eq!(guess_content_type("img/a.b.png"), "image/png");
    assert_eq!(guess_content_type("archive.tar.gz"), "application/octet-stream");
    assert_eq!(guess_content_type("README"), "application/octet-stream");
    assert_eq!(guess_content_type("trailing."), "application/octet-stream");
    // A path without a dot is its own extension, as `rsplit('.').next()` gives it.
    assert_eq!(guess_content_type("js"), "text/javascript; charset=utf-8");
}

fn entry(status: Option<HeartbeatStatus>) -> MonitorWithStatus {
    MonitorWithStatus {
        monitor: Monitor {
            id: 1,
            name: "m".to_string(),
            monitor_type: MonitorType::Http,
            target: "https://example.com".to_string(),
            interval_seconds: 60,
            timeout_seconds: 10,
            retries: 0,
            active: true,
        },
        status,
        response_time_ms: None,
        recent: Vec::new(),
        uptime_24h_tenths: None,
    }
}

#[test]
fn dashboard_counts_add_up() {
    let d = dashboard_data(vec![
        entry(Some(HeartbeatStatus::Up)),
        entry(Some(HeartbeatStatus::Down)),
        entry(Some(HeartbeatStatus::Up)),
        entry(Some(HeartbeatStatus::Pending)),
        entry(None),
    ]);
    assert_eq!((d.total, d.up, d.down, d.pending), (5, 2, 1, 2));
    assert_eq!(d.monitors.len(), 5);
    let d = dashboard_data(Vec::new());
    assert_eq!((d.total, d.up, d.down, d.pending), (0, 0, 0, 0));
}

#[test]
fn config_defaults_and_paths() {
    let c = Config::from_settings(None, None);
    assert_eq!(c.data_dir, "./data");
    assert_eq!(c.bind_addr, "0.0.0.0:3001");
    assert_eq!(c.db_path(), "./data/vigilant-vole.db");
    let c = Config::from_settings(Some("/var/lib/vv/".to_string()), Some("8080".to_string()));
    assert_eq!(c.bind_addr, "0.0.0.0:8080");
    assert_eq!(c.db_path(), "/var/lib/vv/vigilant-vole.db");
    let c = Config::from_settings(Some(String::new()), None);
    assert_eq!(c.db_path(), "vigilant-vole.db");
    assert_eq!(join_path("/data", "session.key"), "/data/session.key");
    assert_eq!(
        std::path::Path::new("/data").join("session.key").to_str().unwrap(),
        join_path("/data", "session.key")
    );
}

fn form(kind: &str, interval: i64, timeout: i64, retries: i64) -> MonitorForm {
    MonitorForm {
        name: "site".to_string(),
        monitor_type: kind.to_string(),
        target: "https://example.com".to_string(),
        interval_seconds: interval,
        timeout_seconds: timeout,
        retries,
    }
}

#[test]
fn monitor_form_is_clamped() {
    let m = form_to_new_monitor(form("tcp", 1, 0, -2));
    assert_eq!(m.monitor_type, MonitorType::Tcp);
    assert_eq!((m.interval_seconds, m.timeout_seconds, m.retries), (5, 1, 0));
    let m = form_to_new_monitor(form("nonsense", 120, 30, 3));
    assert_eq!(m.monitor_type, MonitorType::Http);
    assert_eq!((m.interval_seconds, m.timeout_seconds, m.retries), (120, 30, 3));
    assert_eq!(m.name, "site");
}

#[test]
fn monitor_form_values() {
    let v = new_form_values();
    assert_eq!(v.heading, "New Monitor");
    assert_eq!(v.action, "/monitors/new");
    assert_eq!(v.monitor_type, "http");
    assert_eq!((v.interval_seconds, v.timeout_seconds, v.retries), (60, 10, 0));
    assert!(v.name.is_empty() && v.target.is_empty());
    let m = Monitor {
        id: 42,
        name: "db".to_string(),
        monitor_type: MonitorType::Ping,
        target: "10.0.0.5".to_string(),
        interval_seconds: 30,
        timeout_seconds: 3,
        retries: 1,
        active: true,
    };
    let v = edit_form_values(m);
    assert_eq!(v.heading, "Edit Monitor");
    assert_eq!(v.action, "/monitors/42/edit");
    assert_eq!(v.monitor_type, "ping");
    assert_eq!(v.target, "10.0.0.5");
    assert_eq!((v.interval_seconds, v.timeout_seconds, v.retries), (30, 3, 1));
}

#[test]
fn session_values_are_decimal_ids() {
    assert_eq!(SESSION_COOKIE, "vv_session");
    assert_eq!(session_value(0), "0");
    assert_eq!(session_value(1234), "1234");
    assert_eq!(session_value(-7), "-7");
    assert_eq!(session_value(i64::MAX), i64::MAX.to_string());
    assert_eq!(session_value(i64::MIN), i64::MIN.to_string());
}

#[test]
fn gates_follow_admin_and_session() {
    assert!(!admin_exists(0));
    assert!(admin_exists(1));
    assert_eq!(setup_page_gate(true), Gate::RedirectToLogin);
    assert_eq!(setup_page_gate(false), Gate::Proceed);
    assert_eq!(login_page_gate(false), Gate::RedirectToSetup);
    assert_eq!(login_page_gate(true), Gate::Proceed);
    assert_eq!(require_auth_gate(false, true), Gate::RedirectToSetup);
    assert_eq!(require_auth_gate(true, true), Gate::Proceed);
    assert_eq!(require_auth_gate(true, false), Gate::RedirectToLogin);
}

fn setup(username: &str, password: &str) -> SetupForm {
    SetupForm { username: username.to_string(), password: password.to_string() }
}

#[test]
fn setup_refuses_blank_names_and_short_passwords() {
    assert!(matches!(setup_submit_outcome(true, setup("admin", "longenough")), SetupOutcome::RedirectToLogin));
    match setup_submit_outcome(false, setup(" \t ", "longenough")) {
        SetupOutcome::Invalid { error } => assert_eq!(error, SETUP_ERROR),
        _ => panic!("blank username accepted"),
    }
    match setup_submit_outcome(false, setup("admin", "1234567")) {
        SetupOutcome::Invalid { error } => {
            assert_eq!(error, "Username is required and password must be at least 8 characters.")
        }
        _ => panic!("short password accepted"),
    }
}

#[test]
fn setup_creates_trimmed_admin_that_can_log_in() {
    // Four characters, eight bytes: the length rule counts bytes.
    let password = "éééé";
    match setup_submit_outcome(false, setup("  admin  ", password)) {
        SetupOutcome::CreateAdmin { username, password_hash } => {
            assert_eq!(username, "admin");
            assert!(password_hash.starts_with("$argon2id$"));
            let user = User { id: 9, username, password_hash };
            let login = LoginForm { username: " admin".to_string(), password: password.to_string() };
            assert_eq!(login_username(&login), "admin");
            assert_eq!(login_outcome(Some(user), &login.password), Some(9));
        }
        _ => panic!("valid setup refused"),
    }
}

#[test]
fn wrong_password_or_unknown_user_is_refused() {
    let hash = hash_password("correct horse");
    assert!(verify_password(&hash, "correct horse"));
    assert!(!verify_password(&hash, "wrong horse"));
    assert!(!verify_password("not a phc string", "correct horse"));
    let user = User { id: 3, username: "admin".to_string(), password_hash: hash };
    assert_eq!(login_outcome(Some(user), "wrong horse"), None);
    assert_eq!(login_outcome(None, "correct horse"), None);
    assert_eq!(LOGIN_ERROR, "Invalid username or password.");
}

#[test]
fn session_key_reuse_needs_64_bytes() {
    assert!(stored_key_is_usable(&[0u8; 64]));
    assert!(stored_key_is_usable(&[1u8; 100]));
    assert!(!stored_key_is_usable(&[0u8; 63]));
    assert!(!stored_key_is_usable(&[]));
}

fn channel_form(kind: &str) -> ChannelForm {
    ChannelForm {
        name: "alerts".to_string(),
        kind: kind.to_string(),
        url: "https://hooks.example.com/x?a=\"b\"".to_string(),
        bot_token: "123:abc".to_string(),
        chat_id: "-100".to_string(),
    }
}

#[test]
fn channel_form_settings() {
    let c = form_to_channel(channel_form("telegram"));
    assert_eq!(c.kind, ChannelKind::Telegram);
    assert_eq!(c.config, r#"{"bot_token":"123:abc","chat_id":"-100"}"#);
    let c = form_to_channel(channel_form("discord"));
    assert_eq!(c.kind, ChannelKind::Discord);
    assert_eq!(c.config, r#"{"url":"https://hooks.example.com/x?a=\"b\""}"#);
    let c = form_to_channel(channel_form("carrier-pigeon"));
    assert_eq!(c.kind, ChannelKind::Webhook);
    assert_eq!(c.name, "alerts");
    let mut map = serde_json::Map::new();
    map.insert("url".to_string(), serde_json::Value::String("https://hooks.example.com/x?a=\"b\"".to_string()));
    let expected = serde_json::Value::Object(map).to_string();
    assert_eq!(c.config, expected);
}
