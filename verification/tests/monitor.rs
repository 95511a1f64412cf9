use vigilant_vole::db::models::{HeartbeatStatus, Monitor, MonitorType};
use vigilant_vole::monitor::checkers::{
    http_outcome, millis_as_i64, ping_outcome, rand_identifier, tcp_outcome, CheckOutcome, HttpProbe, PingProbe,
    TcpProbe,
};
use vigilant_vole::monitor::registry::TaskRegistry;
use vigilant_vole::monitor::{check_interval_secs, check_timeout_secs, CheckLoopState};

use HeartbeatStatus::{Down, Pending, Up};

fn run(retries: i64, probes: &[HeartbeatStatus]) -> Vec<(HeartbeatStatus, bool)> {
    let mut state = CheckLoopState::new();
    probes
        .iter()
        .map(|p| {
            let s = state.step(retries, *p);
            (s.status, s.notify)
        })
        .collect()
}

#[test]
fn without_retries_every_failure_is_down() {
    let steps = run(0, &[Up, Down, Down, Up, Down]);
    assert_eq!(steps, vec![(Up, true), (Down, true), (Down, false), (Up, true), (Down, true)]);
}

#[test]
fn retries_delay_down_and_pending_never_notifies() {
    let steps = run(2, &[Down, Down, Down, Down, Up, Down, Up]);
    assert_eq!(
        steps,
        vec![
            (Pending, false),
            (Pending, false),
            (Down, true),
            (Down, false),
            (Up, true),
            (Pending, false),
            (Up, false),
        ]
    );
}

#[test]
fn first_settled_status_is_announced() {
    let steps = run(1, &[Up, Up]);
    assert_eq!(steps, vec![(Up, true), (Up, false)]);
}

#[test]
fn negative_retries_behave_like_none() {
    let steps = run(-4, &[Down, Down]);
    assert_eq!(steps, vec![(Down, true), (Down, false)]);
}

#[test]
fn loop_counts_consecutive_failures() {
    let mut state = CheckLoopState::new();
    state.step(5, Down);
    state.step(5, Down);
    assert_eq!(state.consecutive_failures, 2);
    assert_eq!(state.last_notified, None);
    state.step(5, Up);
    assert_eq!(state.consecutive_failures, 0);
    assert_eq!(state.last_notified, Some(Up));
}

fn monitor(interval: i64, timeout: i64) -> Monitor {
    Monitor {
        id: 1,
        name: "m".to_string(),
        monitor_type: MonitorType::Tcp,
        target: "localhost:22".to_string(),
        interval_seconds: interval,
        timeout_seconds: timeout,
        retries: 0,
        active: true,
    }
}

#[test]
fn intervals_and_timeouts_are_at_least_one_second() {
    assert_eq!(check_interval_secs(&monitor(30, 5)), 30);
    assert_eq!(check_interval_secs(&monitor(0, 5)), 1);
    assert_eq!(check_interval_secs(&monitor(-10, 5)), 1);
    assert_eq!(check_timeout_secs(&monitor(30, 5)), 5);
    assert_eq!(check_timeout_secs(&monitor(30, 0)), 1);
}

#[test]
fn outcome_constructors() {
    let up = CheckOutcome::up(42);
    assert_eq!(up.status, Up);
    assert_eq!(up.response_time_ms, Some(42));
    assert_eq!(up.message, None);
    let down = CheckOutcome::down("refused".to_string());
    assert_eq!(down.status, Down);
    assert_eq!(down.response_time_ms, None);
    assert_eq!(down.message.as_deref(), Some("refused"));
}

#[test]
fn http_success_and_redirects_are_up() {
    for code in [200u16, 204, 299, 301, 302, 399] {
        let o = http_outcome(HttpProbe::Responded { status_code: code, elapsed_ms: 120 });
        assert_eq!(o.status, Up, "code {code}");
        assert_eq!(o.response_time_ms, Some(120));
        assert_eq!(o.message, None);
    }
}

#[test]
fn http_errors_are_down_with_status_text() {
    let o = http_outcome(HttpProbe::Responded { status_code: 404, elapsed_ms: 7 });
    assert_eq!(o.status, Down);
    assert_eq!(o.response_time_ms, Some(7));
    assert_eq!(o.message.as_deref(), Some("HTTP 404 Not Found"));
    let o = http_outcome(HttpProbe::Responded { status_code: 503, elapsed_ms: 9 });
    assert_eq!(o.message.as_deref(), Some("HTTP 503 Service Unavailable"));
    let o = http_outcome(HttpProbe::Responded { status_code: 101, elapsed_ms: 1 });
    assert_eq!(o.message.as_deref(), Some("HTTP 101 Switching Protocols"));
    let o = http_outcome(HttpProbe::Responded { status_code: 599, elapsed_ms: 1 });
    assert_eq!(o.message.as_deref(), Some("HTTP 599 <unknown status code>"));
}

#[test]
fn http_failures_and_timeouts() {
    let o = http_outcome(HttpProbe::Failed { error: "dns error".to_string() });
    assert_eq!(o.status, Down);
    assert_eq!(o.response_time_ms, None);
    assert_eq!(o.message.as_deref(), Some("dns error"));
    let o = http_outcome(HttpProbe::TimedOut);
    assert_eq!(o.message.as_deref(), Some("timed out"));
}

#[test]
fn tcp_outcomes() {
    let o = tcp_outcome(TcpProbe::Connected { elapsed_ms: 3 });
    assert_eq!((o.status, o.response_time_ms), (Up, Some(3)));
    let o = tcp_outcome(TcpProbe::Failed { error: "connection refused".to_string() });
    assert_eq!(o.message.as_deref(), Some("connection refused"));
    let o = tcp_outcome(TcpProbe::TimedOut);
    assert_eq!((o.status, o.message.as_deref()), (Down, Some("timed out")));
}

#[test]
fn ping_outcomes() {
    let o = ping_outcome(PingProbe::Unresolved);
    assert_eq!((o.status, o.message.as_deref()), (Down, Some("could not resolve host")));
    let o = ping_outcome(PingProbe::Replied { elapsed_ms: 15 });
    assert_eq!((o.status, o.response_time_ms), (Up, Some(15)));
    let o = ping_outcome(PingProbe::Failed { error: "permission denied".to_string() });
    assert_eq!(o.message.as_deref(), Some("permission denied"));
}

#[test]
fn millis_keep_the_low_bits() {
    assert_eq!(millis_as_i64(1500), 1500);
    assert_eq!(millis_as_i64(u128::from(u64::MAX) + 2), 1);
    assert_eq!(millis_as_i64(1u128 << 63), i64::MIN);
}

#[test]
fn ping_identifier_is_low_bits_of_nanos() {
    assert_eq!(rand_identifier(Some(70_000)), 4_464);
    assert_eq!(rand_identifier(Some(65_535)), 65_535);
    assert_eq!(rand_identifier(None), 0);
}

#[test]
fn registry_tracks_one_task_per_monitor() {
    let mut reg: TaskRegistry<&str> = TaskRegistry::new();
    assert_eq!(reg.register(1, "a"), None);
    assert_eq!(reg.register(2, "b"), None);
    assert!(reg.contains(1));
    assert_eq!(reg.replace(1, "c"), Some("a"));
    assert!(reg.contains(1));
    assert_eq!(reg.take(1), Some("c"));
    assert!(!reg.contains(1));
    assert_eq!(reg.take(1), None);
    assert_eq!(reg.replace(5, "e"), None);
    assert_eq!(reg.register(2, "d"), Some("b"));
}

#[test]
fn heartbeats_record_the_probe_and_settled_changes_are_announced() {
    let mut m = monitor(60, 10);
    m.retries = 1;
    m.name = "db".to_string();
    let mut state = CheckLoopState::new();
    let h = state.heartbeat_for(&m, CheckOutcome::down("refused".to_string()));
    assert_eq!(h.monitor_id, 1);
    assert_eq!(h.status, Pending);
    assert_eq!(h.message.as_deref(), Some("refused"));
    assert!(state.announcement_for(&m, &h).is_none());
    let h = state.heartbeat_for(&m, CheckOutcome::down("refused again".to_string()));
    assert_eq!(h.status, Down);
    let n = state.announcement_for(&m, &h).expect("down is announced");
    assert_eq!((n.monitor_name.as_str(), n.status, n.message.as_deref()), ("db", Down, Some("refused again")));
    let h = state.heartbeat_for(&m, CheckOutcome::up(8));
    assert_eq!((h.status, h.response_time_ms), (Up, Some(8)));
    // A recorded heartbeat whose announcement is never asked for leaves the
    // last announced status as it was.
    let h2 = state.heartbeat_for(&m, CheckOutcome::up(9));
    let n = state.announcement_for(&m, &h2).expect("recovery is announced");
    assert_eq!((n.status, n.message), (Up, None));
    assert!(state.announcement_for(&m, &h).is_none());
}
