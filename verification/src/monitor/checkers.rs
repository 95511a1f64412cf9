//! What one probe of a monitor's target means. The probes themselves (an HTTP
//! request, a TCP connect, an ICMP echo) are network I/O and run in the
//! program around this library; it hands over what happened as a plain value
//! and gets back the outcome to record.

use vstd::prelude::*;

use vstd::string::*;

use crate::db::models::HeartbeatStatus;

verus! {

/// The result of one probe, before retries are taken into account.
#[derive(Debug, Clone)]
pub struct CheckOutcome {
    pub status: HeartbeatStatus,
    pub response_time_ms: Option<i64>,
    pub message: Option<String>,
}

impl CheckOutcome {
    /// A failed probe, with the reason.
    pub fn down(message: String) -> (r: Self)
        ensures
            r.status == HeartbeatStatus::Down,
            r.response_time_ms is None,
            r.message == Some(message),
    {
        CheckOutcome { status: HeartbeatStatus::Down, response_time_ms: None, message: Some(message) }
    }

    /// A successful probe that took `response_time_ms` milliseconds.
    pub fn up(response_time_ms: i64) -> (r: Self)
        ensures
            r.status == HeartbeatStatus::Up,
            r.response_time_ms == Some(response_time_ms),
            r.message is None,
    {
        CheckOutcome {
            status: HeartbeatStatus::Up,
            response_time_ms: Some(response_time_ms),
            message: None,
        }
    }
}

/// Whether `r` is a failed outcome without a response time whose message reads `text`.
pub open spec fn spec_down_with(r: CheckOutcome, text: Seq<char>) -> bool {
    &&& r.status == HeartbeatStatus::Down
    &&& r.response_time_ms is None
    &&& r.message is Some
    &&& r.message->0@ == text
}

/// A count of milliseconds as the heartbeat stores it: the low 64 bits, read as signed.
pub fn millis_as_i64(ms: u128) -> (r: i64)
    ensures
        r == ms as i64,
{
    #[verifier::truncate]
    (ms as i64)
}

/// What happened to an HTTP GET of a monitor's target.
#[derive(Debug, Clone)]
pub enum HttpProbe {
    /// The server answered with `status_code` after `elapsed_ms` milliseconds.
    Responded { status_code: u16, elapsed_ms: u128 },
    /// The request failed; `error` is the client's description.
    Failed { error: String },
    /// No answer came within the timeout.
    TimedOut,
}

/// What happened to a TCP connect to a monitor's target.
#[derive(Debug, Clone)]
pub enum TcpProbe {
    /// The connection was made after `elapsed_ms` milliseconds.
    Connected { elapsed_ms: u128 },
    /// The connect failed; `error` is the system's description.
    Failed { error: String },
    /// No connection within the timeout.
    TimedOut,
}

/// What happened to an ICMP echo of a monitor's target.
#[derive(Debug, Clone)]
pub enum PingProbe {
    /// The target is neither an IP address nor a name that resolves.
    Unresolved,
    /// The echo came back after `elapsed_ms` milliseconds.
    Replied { elapsed_ms: u128 },
    /// Opening the socket or the echo itself failed; `error` says why.
    Failed { error: String },
}

/// The text that `reqwest::StatusCode` displays for the code `code`.
pub uninterp spec fn http_status_text(code: u16) -> Seq<char>;

/// Calls `reqwest::StatusCode::from_u16` and displays the status with
/// `to_string`: the contract claims only that the text is a function of the
/// code, named `http_status_text`. `from_u16` accepts exactly the codes
/// 100 to 999, which `requires` demands.
#[verifier::external_body]
fn status_code_text(code: u16) -> (r: String)
    requires
        100 <= code <= 999,
    ensures
        r@ == http_status_text(code),
{
    reqwest::StatusCode::from_u16(code).map(|status| status.to_string()).unwrap_or_default()
}

/// Whether an HTTP status code counts as success or redirection (200 to 399),
/// as `reqwest::StatusCode::is_success` and `is_redirection` decide it.
pub open spec fn spec_http_code_ok(code: u16) -> bool {
    200 <= code < 400
}

/// Success (2xx) and redirection (3xx) codes count as up; informational
/// (1xx), client-error (4xx) and server-error (5xx) codes do not.
pub proof fn lemma_http_code_classes(code: u16)
    ensures
        200 <= code <= 299 ==> spec_http_code_ok(code),
        300 <= code <= 399 ==> spec_http_code_ok(code),
        code <= 199 ==> !spec_http_code_ok(code),
        400 <= code ==> !spec_http_code_ok(code),
{
}

/// Whether an HTTP probe result is acceptable as a probe result: a server's status
/// code always lies between 100 and 999.
pub open spec fn spec_http_probe_valid(probe: HttpProbe) -> bool {
    probe matches HttpProbe::Responded { status_code, .. } ==> 100 <= status_code <= 999
}

/// The outcome of an HTTP probe: up when the server answered with a success
/// or redirection status, down otherwise; a down answer still records the
/// response time and says `HTTP <status>`.
pub fn http_outcome(probe: HttpProbe) -> (r: CheckOutcome)
    requires
        spec_http_probe_valid(probe),
    ensures
        match probe {
            HttpProbe::Responded { status_code, elapsed_ms } => {
                &&& r.response_time_ms == Some(elapsed_ms as i64)
                &&& if spec_http_code_ok(status_code) {
                    r.status == HeartbeatStatus::Up && r.message is None
                } else {
                    &&& r.status == HeartbeatStatus::Down
                    &&& r.message is Some
                    &&& r.message->0@ == "HTTP "@ + http_status_text(status_code)
                }
            },
            HttpProbe::Failed { error } => r.status == HeartbeatStatus::Down
                && r.response_time_ms is None && r.message == Some(error),
            HttpProbe::TimedOut => spec_down_with(r, "timed out"@),
        },
{
    match probe {
        HttpProbe::Responded { status_code, elapsed_ms } => {
            let elapsed = millis_as_i64(elapsed_ms);
            if 200 <= status_code && status_code < 400 {
                CheckOutcome::up(elapsed)
            } else {
                let mut message = String::from_str("HTTP ");
                let text = status_code_text(status_code);
                message.append(text.as_str());
                CheckOutcome {
                    status: HeartbeatStatus::Down,
                    response_time_ms: Some(elapsed),
                    message: Some(message),
                }
            }
        },
        HttpProbe::Failed { error } => CheckOutcome::down(error),
        HttpProbe::TimedOut => CheckOutcome::down(String::from_str("timed out")),
    }
}

/// The outcome of a TCP probe: up with the connect time, or down with the reason.
pub fn tcp_outcome(probe: TcpProbe) -> (r: CheckOutcome)
    ensures
        match probe {
            TcpProbe::Connected { elapsed_ms } => r.status == HeartbeatStatus::Up
                && r.response_time_ms == Some(elapsed_ms as i64) && r.message is None,
            TcpProbe::Failed { error } => r.status == HeartbeatStatus::Down
                && r.response_time_ms is None && r.message == Some(error),
            TcpProbe::TimedOut => spec_down_with(r, "timed out"@),
        },
{
    match probe {
        TcpProbe::Connected { elapsed_ms } => CheckOutcome::up(millis_as_i64(elapsed_ms)),
        TcpProbe::Failed { error } => CheckOutcome::down(error),
        TcpProbe::TimedOut => CheckOutcome::down(String::from_str("timed out")),
    }
}

/// The outcome of a ping probe: up with the round-trip time, or down with the reason.
pub fn ping_outcome(probe: PingProbe) -> (r: CheckOutcome)
    ensures
        match probe {
            PingProbe::Unresolved => spec_down_with(r, "could not resolve host"@),
            PingProbe::Replied { elapsed_ms } => r.status == HeartbeatStatus::Up
                && r.response_time_ms == Some(elapsed_ms as i64) && r.message is None,
            PingProbe::Failed { error } => r.status == HeartbeatStatus::Down
                && r.response_time_ms is None && r.message == Some(error),
        },
{
    match probe {
        PingProbe::Unresolved => CheckOutcome::down(String::from_str("could not resolve host")),
        PingProbe::Replied { elapsed_ms } => CheckOutcome::up(millis_as_i64(elapsed_ms)),
        PingProbe::Failed { error } => CheckOutcome::down(error),
    }
}

/// The identifier of an echo request: the low 16 bits of the clock's
/// sub-second nanoseconds, or 0 when the clock reads before the epoch.
pub fn rand_identifier(subsec_nanos: Option<u32>) -> (r: u16)
    ensures
        r == (match subsec_nanos {
            Some(n) => n % 65536,
            None => 0,
        }),
{
    match subsec_nanos {
        Some(n) => (n % 65536) as u16,
        None => 0,
    }
}

} // verus!
