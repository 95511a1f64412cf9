use vigilant_vole::db::models::{ChannelKind, HeartbeatStatus, MonitorType};
use vigilant_vole::db::monitors::{
    parse_recent, row_to_monitor, row_to_monitor_with_status, MonitorRow, MonitorStatusRow, SPARKLINE_LEN,
};
use vigilant_vole::db::notifications::{row_to_channel, ChannelRow};
use vigilant_vole::db::migration_order;

#[test]
fn monitor_type_names_round_trip() {
    for k in [MonitorType::Http, MonitorType::Tcp, MonitorType::Ping] {
        assert_eq!(MonitorType::parse(k.as_str()), Some(k));
    }
    assert_eq!(MonitorType::Http.as_str(), "http");
    assert_eq!(MonitorType::Tcp.as_str(), "tcp");
    assert_eq!(MonitorType::Ping.as_str(), "ping");
    assert_eq!(MonitorType::parse("HTTP"), None);
    assert_eq!(MonitorType::parse(""), None);
    assert_eq!(MonitorType::parse("icmp"), None);
}

#[test]
fn heartbeat_status_names_round_trip() {
    for k in [HeartbeatStatus::Up, HeartbeatStatus::Down, HeartbeatStatus::Pending] {
        assert_eq!(HeartbeatStatus::parse(k.as_str()), Some(k));
    }
    assert_eq!(HeartbeatStatus::Pending.as_str(), "pending");
    assert_eq!(HeartbeatStatus::parse("up "), None);
}

#[test]
fn channel_kind_names_round_trip() {
    for k in [ChannelKind::Discord, ChannelKind::Slack, ChannelKind::Telegram, ChannelKind::Webhook] {
        assert_eq!(ChannelKind::parse(k.as_str()), Some(k));
    }
    assert_eq!(ChannelKind::Telegram.as_str(), "telegram");
    assert_eq!(ChannelKind::parse("email"), None);
}

#[test]
fn sparkline_without_history_is_all_empty() {
    let r = parse_recent(None);
    assert_eq!(r.len(), SPARKLINE_LEN);
    assert!(r.iter().all(|s| s.is_none()));
}

#[test]
fn sparkline_is_oldest_first_and_left_padded() {
    let r = parse_recent(Some("down,up,pending".to_string()));
    assert_eq!(r.len(), 20);
    assert!(r[..17].iter().all(|s| s.is_none()));
    assert_eq!(r[17], Some(HeartbeatStatus::Pending));
    assert_eq!(r[18], Some(HeartbeatStatus::Up));
    assert_eq!(r[19], Some(HeartbeatStatus::Down));
}

#[test]
fn sparkline_keeps_unknown_entries_as_gaps() {
    let r = parse_recent(Some("up,weird,,down".to_string()));
    assert_eq!(r.len(), 20);
    assert_eq!(&r[16..], &[Some(HeartbeatStatus::Down), None, None, Some(HeartbeatStatus::Up)]);
}

#[test]
fn sparkline_of_empty_text_has_one_gap() {
    let r = parse_recent(Some(String::new()));
    assert_eq!(r.len(), 20);
    assert!(r.iter().all(|s| s.is_none()));
}

#[test]
fn sparkline_keeps_only_the_newest_entries() {
    // Newest first: one "down", then 22 "up".
    let mut pieces = vec!["down"];
    pieces.extend(vec!["up"; 22]);
    let r = parse_recent(Some(pieces.join(",")));
    assert_eq!(r.len(), SPARKLINE_LEN);
    assert!(r[..19].iter().all(|s| *s == Some(HeartbeatStatus::Up)));
    assert_eq!(r[19], Some(HeartbeatStatus::Down));
    let r = parse_recent(Some(vec!["pending"; 20].join(",")));
    assert_eq!(r.len(), 20);
    assert!(r.iter().all(|s| *s == Some(HeartbeatStatus::Pending)));
}

fn monitor_row(kind: &str, active: i64) -> MonitorRow {
    MonitorRow {
        id: 7,
        name: "api".to_string(),
        monitor_type: kind.to_string(),
        target: "https://example.com".to_string(),
        interval_seconds: 60,
        timeout_seconds: 10,
        retries: 2,
        active,
    }
}

#[test]
fn row_with_unknown_kind_reads_as_http() {
    let m = row_to_monitor(monitor_row("gopher", 1));
    assert_eq!(m.monitor_type, MonitorType::Http);
    assert!(m.active);
    assert_eq!(m.id, 7);
    assert_eq!(m.name, "api");
    assert_eq!(m.retries, 2);
    let m = row_to_monitor(monitor_row("ping", 0));
    assert_eq!(m.monitor_type, MonitorType::Ping);
    assert!(!m.active);
    let m = row_to_monitor(monitor_row("tcp", -3));
    assert!(m.active);
}

#[test]
fn dashboard_row_parses_status_and_history() {
    let r = row_to_monitor_with_status(MonitorStatusRow {
        monitor: monitor_row("tcp", 1),
        status: Some("down".to_string()),
        response_time_ms: Some(12),
        recent_statuses: Some("down,up".to_string()),
        uptime_24h_tenths: Some(995),
    });
    assert_eq!(r.monitor.monitor_type, MonitorType::Tcp);
    assert_eq!(r.status, Some(HeartbeatStatus::Down));
    assert_eq!(r.response_time_ms, Some(12));
    assert_eq!(r.recent.len(), 20);
    assert_eq!(r.recent[19], Some(HeartbeatStatus::Down));
    assert_eq!(r.recent[18], Some(HeartbeatStatus::Up));
    assert_eq!(r.uptime_24h_tenths, Some(995));
    let r = row_to_monitor_with_status(MonitorStatusRow {
        monitor: monitor_row("http", 1),
        status: Some("sideways".to_string()),
        response_time_ms: None,
        recent_statuses: None,
        uptime_24h_tenths: None,
    });
    assert_eq!(r.status, None);
}

#[test]
fn channel_row_with_unknown_kind_reads_as_webhook() {
    let c = row_to_channel(ChannelRow {
        id: 3,
        name: "ops".to_string(),
        kind: "pager".to_string(),
        config: "{}".to_string(),
        active: 0,
    });
    assert_eq!(c.kind, ChannelKind::Webhook);
    assert!(!c.active);
    assert_eq!(c.config, "{}");
    let c = row_to_channel(ChannelRow {
        id: 4,
        name: "chat".to_string(),
        kind: "slack".to_string(),
        config: "{}".to_string(),
        active: 1,
    });
    assert_eq!(c.kind, ChannelKind::Slack);
    assert!(c.active);
}

#[test]
fn migrations_run_in_name_order() {
    let names: Vec<String> =
        ["010_indexes.sql", "001_init.sql", "002_channels.sql", "001_init.sql"].iter().map(|s| s.to_string()).collect();
    let order = migration_order(&names);
    assert_eq!(order, vec!["001_init.sql", "001_init.sql", "002_channels.sql", "010_indexes.sql"]);
    let mut expected = names.clone();
    expected.sort();
    assert_eq!(order, expected);
}

#[test]
fn migration_order_matches_byte_order_beyond_ascii() {
    let names: Vec<String> = ["b", "é", "a", "ab", "", "Z"].iter().map(|s| s.to_string()).collect();
    let mut expected = names.clone();
    expected.sort();
    assert_eq!(migration_order(&names), expected);
}
