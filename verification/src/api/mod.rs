//! The rules behind the web front end: what the dashboard counts, which
//! content type a static asset is served with, and (in the submodules) what
//! the forms turn into and how requests are gated.

pub mod auth;
pub mod monitors;
pub mod notifications;

use vstd::prelude::*;

use crate::db::models::{HeartbeatStatus, MonitorWithStatus};
use crate::text::{split_char, split_spec, str_eq};

verus! {

/// The part of `path` after its last `.`, or all of it when it has none, as
/// `path.rsplit('.').next()` gives it.
pub open spec fn spec_extension(path: Seq<char>) -> Seq<char> {
    split_spec(path, '.').last()
}

/// The content type that a static asset at `path` is served with.
pub open spec fn spec_content_type(path: Seq<char>) -> Seq<char> {
    let ext = spec_extension(path);
    if ext == "js"@ {
        "text/javascript; charset=utf-8"@
    } else if ext == "css"@ {
        "text/css; charset=utf-8"@
    } else if ext == "svg"@ {
        "image/svg+xml"@
    } else if ext == "png"@ {
        "image/png"@
    } else {
        "application/octet-stream"@
    }
}

/// The content type of a static asset, chosen by the extension of its path.
pub fn guess_content_type(path: &str) -> (r: &'static str)
    ensures
        r@ == spec_content_type(path@),
{
    let pieces = split_char(path, '.');
    proof {
        crate::text::lemma_split_nonempty(path@, '.');
    }
    let ext = pieces[pieces.len() - 1].as_str();
    if str_eq(ext, "js") {
        "text/javascript; charset=utf-8"
    } else if str_eq(ext, "css") {
        "text/css; charset=utf-8"
    } else if str_eq(ext, "svg") {
        "image/svg+xml"
    } else if str_eq(ext, "png") {
        "image/png"
    } else {
        "application/octet-stream"
    }
}

/// A static asset's content type goes by what follows the last `.` of its
/// path: `.js`, `.css`, `.svg` and `.png` have their types whatever comes
/// before, any other ending `t` (without a `.`) is served as
/// `application/octet-stream`, and a path without any `.` is taken whole as
/// its extension.
pub proof fn lemma_content_type_by_extension(p: Seq<char>, t: Seq<char>)
    requires
        forall|j: int| 0 <= j < t.len() ==> #[trigger] t[j] != '.',
    ensures
        spec_content_type(p.push('.') + "js"@) == "text/javascript; charset=utf-8"@,
        spec_content_type(p.push('.') + "css"@) == "text/css; charset=utf-8"@,
        spec_content_type(p.push('.') + "svg"@) == "image/svg+xml"@,
        spec_content_type(p.push('.') + "png"@) == "image/png"@,
        spec_extension(p.push('.') + t) == t,
        spec_extension(t) == t,
        t != "js"@ && t != "css"@ && t != "svg"@ && t != "png"@ ==> spec_content_type(p.push('.') + t)
            == "application/octet-stream"@,
{
    reveal_strlit("js");
    reveal_strlit("css");
    reveal_strlit("svg");
    reveal_strlit("png");
    crate::text::lemma_split_last(p, "js"@, '.');
    crate::text::lemma_split_last(p, "css"@, '.');
    crate::text::lemma_split_last(p, "svg"@, '.');
    crate::text::lemma_split_last(p, "png"@, '.');
    crate::text::lemma_split_last(p, t, '.');
    assert("js"@.len() != "css"@.len());
    assert("js"@.len() != "svg"@.len());
    assert("js"@.len() != "png"@.len());
    assert("css"@[0] != "svg"@[0]);
    assert("css"@[0] != "png"@[0]);
    assert("svg"@[0] != "png"@[0]);
}

/// How many of `statuses` are `target`.
pub open spec fn spec_count(statuses: Seq<Option<HeartbeatStatus>>, target: Option<HeartbeatStatus>) -> nat
    decreases statuses.len(),
{
    if statuses.len() == 0 {
        0
    } else {
        spec_count(statuses.drop_last(), target) + if statuses.last() == target {
            1nat
        } else {
            0nat
        }
    }
}

/// The latest status of each monitor, in order.
pub open spec fn spec_statuses(monitors: Seq<MonitorWithStatus>) -> Seq<Option<HeartbeatStatus>> {
    monitors.map_values(|m: MonitorWithStatus| m.status)
}

/// What the dashboard shows: every monitor, and how many are up, down, and
/// neither (pending, or not checked yet).
pub struct DashboardData {
    pub monitors: Vec<MonitorWithStatus>,
    pub total: usize,
    pub up: usize,
    pub down: usize,
    pub pending: usize,
}

/// Counts the monitors of the dashboard by their latest status.
pub fn dashboard_data(monitors: Vec<MonitorWithStatus>) -> (d: DashboardData)
    ensures
        d.monitors@ == monitors@,
        d.total == monitors.len(),
        d.up == spec_count(spec_statuses(monitors@), Some(HeartbeatStatus::Up)),
        d.down == spec_count(spec_statuses(monitors@), Some(HeartbeatStatus::Down)),
        d.pending == d.total - d.up - d.down,
{
    let total = monitors.len();
    let mut up: usize = 0;
    let mut down: usize = 0;
    let mut i: usize = 0;
    while i < total
        invariant
            total == monitors.len(),
            i <= total,
            up == spec_count(spec_statuses(monitors@).take(i as int), Some(HeartbeatStatus::Up)),
            down == spec_count(
                spec_statuses(monitors@).take(i as int),
                Some(HeartbeatStatus::Down),
            ),
            up + down <= i,
        decreases total - i,
    {
        let ghost ss = spec_statuses(monitors@);
        assert(ss.take(i + 1).drop_last() =~= ss.take(i as int));
        assert(ss.take(i + 1).last() == monitors@[i as int].status);
        if monitors[i].status == Some(HeartbeatStatus::Up) {
            up = up + 1;
        } else if monitors[i].status == Some(HeartbeatStatus::Down) {
            down = down + 1;
        }
        i = i + 1;
    }
    assert(spec_statuses(monitors@).take(total as int) =~= spec_statuses(monitors@));
    let pending = total - up - down;
    DashboardData { monitors, total, up, down, pending }
}

/// Counting adds up one status at a time: nothing is counted in an empty
/// list, and appending a status adds one exactly when it is the one counted.
pub proof fn lemma_count_push(statuses: Seq<Option<HeartbeatStatus>>, x: Option<HeartbeatStatus>, target: Option<HeartbeatStatus>)
    ensures
        spec_count(Seq::empty(), target) == 0,
        spec_count(statuses.push(x), target) == spec_count(statuses, target) + if x == target {
            1int
        } else {
            0int
        },
{
    assert(statuses.push(x).drop_last() =~= statuses);
}

/// The dashboard's count for a status is the number of monitors whose latest
/// status it is.
pub proof fn lemma_count_monitors(monitors: Seq<MonitorWithStatus>, target: Option<HeartbeatStatus>)
    ensures
        spec_count(spec_statuses(monitors), target) == monitors.filter(
            |m: MonitorWithStatus| m.status == target,
        ).len(),
    decreases monitors.len(),
{
    if monitors.len() > 0 {
        lemma_count_monitors(monitors.drop_last(), target);
        assert(spec_statuses(monitors).drop_last() =~= spec_statuses(monitors.drop_last()));
        assert(spec_statuses(monitors).last() == monitors.last().status);
        let pred = |m: MonitorWithStatus| m.status == target;
        reveal(Seq::filter);
        assert(monitors.filter(pred) == if pred(monitors.last()) {
            monitors.drop_last().filter(pred).push(monitors.last())
        } else {
            monitors.drop_last().filter(pred)
        });
    }
}

/// The dashboard's counts add up: every monitor is up, down or pending, and
/// "pending" counts exactly the monitors whose latest status is pending or
/// that have no heartbeat yet.
pub proof fn lemma_dashboard_counts(statuses: Seq<Option<HeartbeatStatus>>)
    ensures
        spec_count(statuses, Some(HeartbeatStatus::Up)) + spec_count(
            statuses,
            Some(HeartbeatStatus::Down),
        ) + spec_count(statuses, Some(HeartbeatStatus::Pending)) + spec_count(statuses, None)
            == statuses.len(),
    decreases statuses.len(),
{
    if statuses.len() > 0 {
        lemma_dashboard_counts(statuses.drop_last());
        match statuses.last() {
            Some(HeartbeatStatus::Up) => {},
            Some(HeartbeatStatus::Down) => {},
            Some(HeartbeatStatus::Pending) => {},
            None => {},
        }
    }
}

} // verus!
