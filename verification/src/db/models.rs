//! The kinds, statuses and records that the monitor works with.

use vstd::prelude::*;

use crate::text::str_eq;

verus! {

/// How a monitor probes its target.
#[derive(Debug, Clone, Copy, PartialEq, Eq, Structural)]
pub enum MonitorType {
    Http,
    Tcp,
    Ping,
}

impl MonitorType {
    /// The name under which the kind is stored and shown.
    pub open spec fn spec_name(self) -> Seq<char> {
        match self {
            MonitorType::Http => "http"@,
            MonitorType::Tcp => "tcp"@,
            MonitorType::Ping => "ping"@,
        }
    }

    /// The kind whose name is `s`, if any.
    pub open spec fn spec_parse(s: Seq<char>) -> Option<MonitorType> {
        if s == "http"@ {
            Some(MonitorType::Http)
        } else if s == "tcp"@ {
            Some(MonitorType::Tcp)
        } else if s == "ping"@ {
            Some(MonitorType::Ping)
        } else {
            None
        }
    }

    pub fn as_str(self) -> (r: &'static str)
        ensures
            r@ == self.spec_name(),
    {
        match self {
            MonitorType::Http => "http",
            MonitorType::Tcp => "tcp",
            MonitorType::Ping => "ping",
        }
    }

    pub fn parse(s: &str) -> (r: Option<Self>)
        ensures
            r == Self::spec_parse(s@),
    {
        if str_eq(s, "http") {
            Some(MonitorType::Http)
        } else if str_eq(s, "tcp") {
            Some(MonitorType::Tcp)
        } else if str_eq(s, "ping") {
            Some(MonitorType::Ping)
        } else {
            None
        }
    }
}

/// Parsing the stored name of a monitor kind gives the kind back, and a name
/// parses to a kind only if it is that kind's stored name.
pub proof fn lemma_monitor_type_round_trip(k: MonitorType, s: Seq<char>)
    ensures
        MonitorType::spec_parse(k.spec_name()) == Some(k),
        MonitorType::spec_parse(s) == Some(k) ==> s == k.spec_name(),
{
    reveal_strlit("http");
    reveal_strlit("tcp");
    reveal_strlit("ping");
    assert("http"@.len() != "tcp"@.len());
    assert("tcp"@.len() != "ping"@.len());
    assert("http"@[0] != "ping"@[0]);
}

/// The result of one check of a monitor, as recorded in a heartbeat.
#[derive(Debug, Clone, Copy, PartialEq, Eq, Structural)]
pub enum HeartbeatStatus {
    Up,
    Down,
    Pending,
}

impl HeartbeatStatus {
    /// The name under which the status is stored and shown.
    pub open spec fn spec_name(self) -> Seq<char> {
        match self {
            HeartbeatStatus::Up => "up"@,
            HeartbeatStatus::Down => "down"@,
            HeartbeatStatus::Pending => "pending"@,
        }
    }

    /// The status whose name is `s`, if any.
    pub open spec fn spec_parse(s: Seq<char>) -> Option<HeartbeatStatus> {
        if s == "up"@ {
            Some(HeartbeatStatus::Up)
        } else if s == "down"@ {
            Some(HeartbeatStatus::Down)
        } else if s == "pending"@ {
            Some(HeartbeatStatus::Pending)
        } else {
            None
        }
    }

    pub fn as_str(self) -> (r: &'static str)
        ensures
            r@ == self.spec_name(),
    {
        match self {
            HeartbeatStatus::Up => "up",
            HeartbeatStatus::Down => "down",
            HeartbeatStatus::Pending => "pending",
        }
    }

    pub fn parse(s: &str) -> (r: Option<Self>)
        ensures
            r == Self::spec_parse(s@),
    {
        if str_eq(s, "up") {
            Some(HeartbeatStatus::Up)
        } else if str_eq(s, "down") {
            Some(HeartbeatStatus::Down)
        } else if str_eq(s, "pending") {
            Some(HeartbeatStatus::Pending)
        } else {
            None
        }
    }
}

/// Parsing the stored name of a heartbeat status gives the status back, and a
/// name parses to a status only if it is that status's stored name.
pub proof fn lemma_heartbeat_status_round_trip(k: HeartbeatStatus, s: Seq<char>)
    ensures
        HeartbeatStatus::spec_parse(k.spec_name()) == Some(k),
        HeartbeatStatus::spec_parse(s) == Some(k) ==> s == k.spec_name(),
{
    reveal_strlit("up");
    reveal_strlit("down");
    reveal_strlit("pending");
    assert("up"@.len() != "down"@.len());
    assert("up"@.len() != "pending"@.len());
    assert("down"@.len() != "pending"@.len());
}

/// Where a notification is sent.
#[derive(Debug, Clone, Copy, PartialEq, Eq, Structural)]
pub enum ChannelKind {
    Discord,
    Slack,
    Telegram,
    Webhook,
}

impl ChannelKind {
    /// The name under which the kind is stored and shown.
    pub open spec fn spec_name(self) -> Seq<char> {
        match self {
            ChannelKind::Discord => "discord"@,
            ChannelKind::Slack => "slack"@,
            ChannelKind::Telegram => "telegram"@,
            ChannelKind::Webhook => "webhook"@,
        }
    }

    /// The kind whose name is `s`, if any.
    pub open spec fn spec_parse(s: Seq<char>) -> Option<ChannelKind> {
        if s == "discord"@ {
            Some(ChannelKind::Discord)
        } else if s == "slack"@ {
            Some(ChannelKind::Slack)
        } else if s == "telegram"@ {
            Some(ChannelKind::Telegram)
        } else if s == "webhook"@ {
            Some(ChannelKind::Webhook)
        } else {
            None
        }
    }

    pub fn as_str(self) -> (r: &'static str)
        ensures
            r@ == self.spec_name(),
    {
        match self {
            ChannelKind::Discord => "discord",
            ChannelKind::Slack => "slack",
            ChannelKind::Telegram => "telegram",
            ChannelKind::Webhook => "webhook",
        }
    }

    pub fn parse(s: &str) -> (r: Option<Self>)
        ensures
            r == Self::spec_parse(s@),
    {
        if str_eq(s, "discord") {
            Some(ChannelKind::Discord)
        } else if str_eq(s, "slack") {
            Some(ChannelKind::Slack)
        } else if str_eq(s, "telegram") {
            Some(ChannelKind::Telegram)
        } else if str_eq(s, "webhook") {
            Some(ChannelKind::Webhook)
        } else {
            None
        }
    }
}

/// Parsing the stored name of a channel kind gives the kind back, and a name
/// parses to a kind only if it is that kind's stored name.
pub proof fn lemma_channel_kind_round_trip(k: ChannelKind, s: Seq<char>)
    ensures
        ChannelKind::spec_parse(k.spec_name()) == Some(k),
        ChannelKind::spec_parse(s) == Some(k) ==> s == k.spec_name(),
{
    reveal_strlit("discord");
    reveal_strlit("slack");
    reveal_strlit("telegram");
    reveal_strlit("webhook");
    assert("discord"@.len() != "slack"@.len());
    assert("discord"@.len() != "telegram"@.len());
    assert("discord"@[0] != "webhook"@[0]);
    assert("slack"@.len() != "telegram"@.len());
    assert("slack"@.len() != "webhook"@.len());
    assert("telegram"@.len() != "webhook"@.len());
}

/// A configured monitor.
#[derive(Debug, Clone)]
pub struct Monitor {
    pub id: i64,
    pub name: String,
    pub monitor_type: MonitorType,
    pub target: String,
    pub interval_seconds: i64,
    pub timeout_seconds: i64,
    pub retries: i64,
    pub active: bool,
}

/// The fields of a monitor that a user enters, before it has an id.
#[derive(Debug, Clone)]
pub struct NewMonitor {
    pub name: String,
    pub monitor_type: MonitorType,
    pub target: String,
    pub interval_seconds: i64,
    pub timeout_seconds: i64,
    pub retries: i64,
}

/// A monitor together with what its latest heartbeats say.
///
/// `recent` holds the sparkline, oldest first; `uptime_24h_tenths` is the share
/// of "up" heartbeats over the last day in tenths of a percent (so `997` reads
/// as 99.7 %), or `None` when the monitor has no heartbeat in that day.
#[derive(Debug, Clone)]
pub struct MonitorWithStatus {
    pub monitor: Monitor,
    pub status: Option<HeartbeatStatus>,
    pub response_time_ms: Option<i64>,
    pub recent: Vec<Option<HeartbeatStatus>>,
    pub uptime_24h_tenths: Option<i64>,
}

/// A place to which status changes are sent; `config` is the channel's JSON settings.
#[derive(Debug, Clone)]
pub struct NotificationChannel {
    pub id: i64,
    pub name: String,
    pub kind: ChannelKind,
    pub config: String,
    pub active: bool,
}

} // verus!
