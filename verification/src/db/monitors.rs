//! The rules that turn rows of the `monitors` and `heartbeats` tables into records.

use vstd::prelude::*;

use crate::db::models::{HeartbeatStatus, Monitor, MonitorType, MonitorWithStatus};
use crate::text::{split_char, split_spec};

verus! {

/// How many past heartbeats the dashboard sparkline shows per monitor.
pub const SPARKLINE_LEN: usize = 20;

/// The view of an optional string.
pub open spec fn opt_view(s: Option<String>) -> Option<Seq<char>> {
    match s {
        Some(t) => Some(t@),
        None => None,
    }
}

/// The statuses named in a comma-separated, most-recent-first list, oldest
/// first; a piece that names no status gives `None`.
pub open spec fn spec_recent_statuses(raw: Option<Seq<char>>) -> Seq<Option<HeartbeatStatus>> {
    match raw {
        None => Seq::empty(),
        Some(s) => split_spec(s, ',').map_values(|f: Seq<char>| HeartbeatStatus::spec_parse(f)).reverse(),
    }
}

/// The sparkline drawn from `raw`: its `SPARKLINE_LEN` newest statuses,
/// oldest first, with `None` in front when there are fewer.
pub open spec fn spec_sparkline(raw: Option<Seq<char>>) -> Seq<Option<HeartbeatStatus>> {
    let statuses = spec_recent_statuses(raw);
    if statuses.len() >= SPARKLINE_LEN {
        statuses.subrange(statuses.len() - SPARKLINE_LEN, statuses.len() as int)
    } else {
        Seq::new((SPARKLINE_LEN - statuses.len()) as nat, |i: int| None::<HeartbeatStatus>)
            + statuses
    }
}

/// `raw` is a comma-separated list of statuses, most recent first. Returns a
/// fixed-length (`SPARKLINE_LEN`), oldest-first vec of the newest statuses,
/// left-padded with `None` when there isn't that much history yet, so every
/// monitor's sparkline renders the same width.
pub fn parse_recent(raw: Option<String>) -> (r: Vec<Option<HeartbeatStatus>>)
    ensures
        r@ == spec_sparkline(opt_view(raw)),
        r.len() == SPARKLINE_LEN,
{
    let mut statuses: Vec<Option<HeartbeatStatus>> = Vec::new();
    let ghost expected = spec_recent_statuses(opt_view(raw));
    match raw {
        Some(s) => {
            let fields = split_char(s.as_str(), ',');
            let ghost parsed = split_spec(s@, ',').map_values(
                |f: Seq<char>| HeartbeatStatus::spec_parse(f),
            );
            let n = fields.len();
            let mut k = n;
            while k > 0
                invariant
                    n == fields.len(),
                    n == parsed.len(),
                    parsed == split_spec(s@, ',').map_values(
                        |f: Seq<char>| HeartbeatStatus::spec_parse(f),
                    ),
                    forall|j: int| 0 <= j < n ==> #[trigger] fields[j]@ == split_spec(s@, ',')[j],
                    k <= n,
                    statuses.len() == n - k,
                    forall|j: int|
                        0 <= j < statuses.len() ==> #[trigger] statuses[j] == parsed[n - 1 - j],
                decreases k,
            {
                k = k - 1;
                let p = HeartbeatStatus::parse(fields[k].as_str());
                statuses.push(p);
            }
            assert(statuses@ =~= parsed.reverse());
        },
        None => {
            assert(statuses@ =~= expected);
        },
    }
    assert(statuses@ == expected);
    let n = statuses.len();
    let (missing, start): (usize, usize) = if n < SPARKLINE_LEN {
        (SPARKLINE_LEN - n, 0)
    } else {
        (0, n - SPARKLINE_LEN)
    };
    let mut padded: Vec<Option<HeartbeatStatus>> = Vec::new();
    let mut i: usize = 0;
    while i < missing
        invariant
            i <= missing,
            padded.len() == i,
            forall|j: int| 0 <= j < i ==> #[trigger] padded[j] == None::<HeartbeatStatus>,
        decreases missing - i,
    {
        padded.push(None);
        i = i + 1;
    }
    assert(padded@ =~= Seq::new(missing as nat, |i: int| None::<HeartbeatStatus>));
    let mut j: usize = start;
    while j < n
        invariant
            n == statuses.len(),
            start <= j <= n,
            padded@ == Seq::new(missing as nat, |i: int| None::<HeartbeatStatus>)
                + statuses@.subrange(start as int, j as int),
        decreases n - j,
    {
        padded.push(statuses[j]);
        j = j + 1;
        assert(statuses@.subrange(start as int, j as int) =~= statuses@.subrange(
            start as int,
            (j - 1) as int,
        ).push(statuses@[j - 1]));
    }
    if n < SPARKLINE_LEN {
        assert(statuses@.subrange(0, n as int) =~= statuses@);
    }
    padded
}

/// Every sparkline is exactly `SPARKLINE_LEN` wide, and when there is
/// history its newest entry (the last) is the status named first in the list.
pub proof fn lemma_sparkline_shape(raw: Option<Seq<char>>)
    ensures
        spec_sparkline(raw).len() == SPARKLINE_LEN,
        raw matches Some(s) ==> spec_sparkline(raw).last() == HeartbeatStatus::spec_parse(
            split_spec(s, ',')[0],
        ),
{
    if let Some(s) = raw {
        crate::text::lemma_split_nonempty(s, ',');
    }
}

/// The pieces of a comma-separated list, none when there is no list.
pub open spec fn spec_pieces(raw: Option<Seq<char>>) -> Seq<Seq<char>> {
    match raw {
        Some(s) => split_spec(s, ','),
        None => Seq::empty(),
    }
}

/// The sparkline holds the newest statuses of the newest-first list in
/// reverse: with `k` the number of pieces kept (all of them, at most
/// `SPARKLINE_LEN`) and `pad` the number of empty entries in front, entry `i`
/// is empty before `pad` and otherwise the status named by piece
/// `k - 1 - (i - pad)`.
pub proof fn lemma_sparkline_entries(raw: Option<Seq<char>>)
    ensures
        ({
            let pieces = spec_pieces(raw);
            let k = if pieces.len() < SPARKLINE_LEN { pieces.len() as int } else { SPARKLINE_LEN as int };
            let pad = SPARKLINE_LEN - k;
            forall|i: int|
                0 <= i < SPARKLINE_LEN ==> #[trigger] spec_sparkline(raw)[i] == if i < pad {
                    None
                } else {
                    HeartbeatStatus::spec_parse(pieces[k - 1 - (i - pad)])
                }
        }),
{
    let pieces = spec_pieces(raw);
    let n = pieces.len() as int;
    let parsed = pieces.map_values(|f: Seq<char>| HeartbeatStatus::spec_parse(f));
    let statuses = spec_recent_statuses(raw);
    assert(statuses =~= parsed.reverse());
    let k = if n < SPARKLINE_LEN { n } else { SPARKLINE_LEN as int };
    let pad = SPARKLINE_LEN - k;
    assert forall|i: int| 0 <= i < SPARKLINE_LEN implies #[trigger] spec_sparkline(raw)[i] == if i < pad {
        None
    } else {
        HeartbeatStatus::spec_parse(pieces[k - 1 - (i - pad)])
    } by {
        if n >= SPARKLINE_LEN {
            assert(spec_sparkline(raw)[i] == statuses[n - SPARKLINE_LEN + i]);
            assert(statuses[n - SPARKLINE_LEN + i] == parsed[n - 1 - (n - SPARKLINE_LEN + i)]);
        } else if i >= pad {
            assert(spec_sparkline(raw)[i] == statuses[i - pad]);
            assert(statuses[i - pad] == parsed[n - 1 - (i - pad)]);
        }
    }
}

/// A row of the `monitors` table, as the database hands it over.
#[derive(Debug, Clone)]
pub struct MonitorRow {
    pub id: i64,
    pub name: String,
    pub monitor_type: String,
    pub target: String,
    pub interval_seconds: i64,
    pub timeout_seconds: i64,
    pub retries: i64,
    pub active: i64,
}

/// The monitor kind stored as `s`; a name that is no kind reads as HTTP.
pub open spec fn spec_stored_monitor_type(s: Seq<char>) -> MonitorType {
    match MonitorType::spec_parse(s) {
        Some(k) => k,
        None => MonitorType::Http,
    }
}

/// The monitor that a row describes: an unknown kind reads as HTTP, and the
/// monitor is active when the stored flag is not zero.
pub fn row_to_monitor(row: MonitorRow) -> (m: Monitor)
    ensures
        m.id == row.id,
        m.name == row.name,
        m.monitor_type == spec_stored_monitor_type(row.monitor_type@),
        m.target == row.target,
        m.interval_seconds == row.interval_seconds,
        m.timeout_seconds == row.timeout_seconds,
        m.retries == row.retries,
        m.active == (row.active != 0),
{
    let monitor_type = match MonitorType::parse(row.monitor_type.as_str()) {
        Some(k) => k,
        None => MonitorType::Http,
    };
    Monitor {
        id: row.id,
        name: row.name,
        monitor_type,
        target: row.target,
        interval_seconds: row.interval_seconds,
        timeout_seconds: row.timeout_seconds,
        retries: row.retries,
        active: row.active != 0,
    }
}

/// A row of the dashboard query: a monitor, its latest heartbeat's status
/// and response time, its recent statuses (comma-separated, newest first)
/// and its share of "up" heartbeats over the last day in tenths of a percent.
#[derive(Debug, Clone)]
pub struct MonitorStatusRow {
    pub monitor: MonitorRow,
    pub status: Option<String>,
    pub response_time_ms: Option<i64>,
    pub recent_statuses: Option<String>,
    pub uptime_24h_tenths: Option<i64>,
}

/// The status named by an optional stored name; an unknown name reads as no status.
pub open spec fn spec_stored_status(s: Option<Seq<char>>) -> Option<HeartbeatStatus> {
    match s {
        Some(t) => HeartbeatStatus::spec_parse(t),
        None => None,
    }
}

/// A heartbeat status stored under its own name reads back as that status,
/// and a monitor without a latest heartbeat has no status.
pub proof fn lemma_stored_status_round_trip(k: HeartbeatStatus, s: Seq<char>)
    ensures
        spec_stored_status(Some(k.spec_name())) == Some(k),
        spec_stored_status(None) is None,
        spec_stored_status(Some(s)) == Some(k) ==> s == k.spec_name(),
{
    crate::db::models::lemma_heartbeat_status_round_trip(k, s);
}

/// A monitor kind stored under its own name reads back as that kind, and a
/// stored name that is no kind's name reads as HTTP.
pub proof fn lemma_stored_monitor_type_round_trip(k: MonitorType, s: Seq<char>)
    ensures
        spec_stored_monitor_type(k.spec_name()) == k,
        MonitorType::spec_parse(s) is None ==> spec_stored_monitor_type(s) == MonitorType::Http,
{
    crate::db::models::lemma_monitor_type_round_trip(k, s);
}

/// The dashboard entry that a row of the dashboard query describes.
pub fn row_to_monitor_with_status(row: MonitorStatusRow) -> (r: MonitorWithStatus)
    ensures
        r.monitor.id == row.monitor.id,
        r.monitor.name == row.monitor.name,
        r.monitor.monitor_type == spec_stored_monitor_type(row.monitor.monitor_type@),
        r.monitor.target == row.monitor.target,
        r.monitor.interval_seconds == row.monitor.interval_seconds,
        r.monitor.timeout_seconds == row.monitor.timeout_seconds,
        r.monitor.retries == row.monitor.retries,
        r.monitor.active == (row.monitor.active != 0),
        r.status == spec_stored_status(opt_view(row.status)),
        r.response_time_ms == row.response_time_ms,
        r.recent@ == spec_sparkline(opt_view(row.recent_statuses)),
        r.uptime_24h_tenths == row.uptime_24h_tenths,
{
    let monitor = row_to_monitor(row.monitor);
    let status = match &row.status {
        Some(s) => HeartbeatStatus::parse(s.as_str()),
        None => None,
    };
    MonitorWithStatus {
        monitor,
        status,
        response_time_ms: row.response_time_ms,
        recent: parse_recent(row.recent_statuses),
        uptime_24h_tenths: row.uptime_24h_tenths,
    }
}

} // verus!
