//! The decisions of a monitor's check loop: which status each check reports,
//! when a status change is announced, and how often and how long to probe.
//! The loop itself (timers, probes, database writes, sending) runs in the
//! program around this library: after every probe it asks
//! [`CheckLoopState::heartbeat_for`] what to record and, once the heartbeat is
//! stored, [`CheckLoopState::announcement_for`] whether to announce it.

pub mod checkers;
pub mod registry;

use vstd::prelude::*;

use crate::db::models::{HeartbeatStatus, Monitor};
use crate::monitor::checkers::CheckOutcome;

verus! {

/// The status recorded for a check whose probe gave `probe`, when
/// `failures_before` failed probes in a row came just before it.
pub open spec fn spec_reported_status(
    failures_before: int,
    retries: int,
    probe: HeartbeatStatus,
) -> HeartbeatStatus {
    if probe == HeartbeatStatus::Up {
        HeartbeatStatus::Up
    } else if failures_before + 1 <= retries {
        HeartbeatStatus::Pending
    } else {
        HeartbeatStatus::Down
    }
}

/// The number of failed probes in a row once a probe with result `probe` is counted.
pub open spec fn spec_failures_after(failures_before: int, probe: HeartbeatStatus) -> int {
    if probe == HeartbeatStatus::Up {
        0
    } else {
        failures_before + 1
    }
}

/// A recorded status is announced when it is settled (not pending) and differs
/// from the status announced last.
pub open spec fn spec_should_notify(status: HeartbeatStatus, last: Option<HeartbeatStatus>) -> bool {
    status != HeartbeatStatus::Pending && last != Some(status)
}

/// The status announced last, once `status` has been recorded.
pub open spec fn spec_notified_after(
    status: HeartbeatStatus,
    last: Option<HeartbeatStatus>,
) -> Option<HeartbeatStatus> {
    if spec_should_notify(status, last) {
        Some(status)
    } else {
        last
    }
}

// A run of the loop is modelled as its ticks: for each check, the probe's
// result and whether the announcement decision was taken (it is skipped when
// the database cannot be reached, after the failure count was updated).

/// Failed probes in a row at the end of `ticks`, counted from a fresh loop.
pub open spec fn spec_failures_over(ticks: Seq<(HeartbeatStatus, bool)>) -> int
    decreases ticks.len(),
{
    if ticks.len() == 0 {
        0
    } else {
        spec_failures_after(spec_failures_over(ticks.drop_last()), ticks.last().0)
    }
}

/// The status recorded for the last of `ticks`, counted from a fresh loop.
pub open spec fn spec_last_status(retries: int, ticks: Seq<(HeartbeatStatus, bool)>) -> HeartbeatStatus
    recommends
        ticks.len() > 0,
{
    spec_reported_status(spec_failures_over(ticks.drop_last()), retries, ticks.last().0)
}

/// The status announced last after `ticks`, counted from a fresh loop.
pub open spec fn spec_last_notified_over(retries: int, ticks: Seq<(HeartbeatStatus, bool)>) -> Option<
    HeartbeatStatus,
>
    decreases ticks.len(),
{
    if ticks.len() == 0 {
        None
    } else if ticks.last().1 {
        spec_notified_after(
            spec_last_status(retries, ticks),
            spec_last_notified_over(retries, ticks.drop_last()),
        )
    } else {
        spec_last_notified_over(retries, ticks.drop_last())
    }
}

/// The statuses announced, in order, while a fresh loop goes through `ticks`.
pub open spec fn spec_notifications(retries: int, ticks: Seq<(HeartbeatStatus, bool)>) -> Seq<
    HeartbeatStatus,
>
    decreases ticks.len(),
{
    if ticks.len() == 0 {
        Seq::empty()
    } else {
        let earlier = spec_notifications(retries, ticks.drop_last());
        let status = spec_last_status(retries, ticks);
        if ticks.last().1 && spec_should_notify(
            status,
            spec_last_notified_over(retries, ticks.drop_last()),
        ) {
            earlier.push(status)
        } else {
            earlier
        }
    }
}

/// Whether the loop state `s` is the one that a fresh loop of a monitor
/// allowed `retries` failed probes reaches after `ticks`.
pub open spec fn spec_follows(s: CheckLoopState, retries: int, ticks: Seq<(HeartbeatStatus, bool)>) -> bool {
    &&& s.consecutive_failures == spec_failures_over(ticks)
    &&& s.last_notified == spec_last_notified_over(retries, ticks)
}

/// What a monitor's check loop carries from one check to the next.
#[derive(Debug, Clone, Copy)]
pub struct CheckLoopState {
    /// Failed probes in a row, up to and including the latest check.
    pub consecutive_failures: i64,
    /// The status that was announced last, if any was.
    pub last_notified: Option<HeartbeatStatus>,
}

/// What to do after one probe: the status to record, and whether to announce it.
#[derive(Debug, Clone, Copy)]
pub struct CheckStep {
    pub status: HeartbeatStatus,
    pub notify: bool,
}

impl CheckLoopState {
    /// The state of a loop that has not checked yet.
    pub fn new() -> (s: Self)
        ensures
            s.consecutive_failures == 0,
            s.last_notified is None,
    {
        CheckLoopState { consecutive_failures: 0, last_notified: None }
    }

    /// Counts the probe result `probe` of a monitor allowed `retries` failed
    /// probes in a row before it is down, and gives the status to record.
    pub fn count_probe(&mut self, retries: i64, probe: HeartbeatStatus) -> (status: HeartbeatStatus)
        requires
            old(self).consecutive_failures < i64::MAX,
        ensures
            status == spec_reported_status(
                old(self).consecutive_failures as int,
                retries as int,
                probe,
            ),
            final(self).consecutive_failures == spec_failures_after(
                old(self).consecutive_failures as int,
                probe,
            ),
            final(self).last_notified == old(self).last_notified,
    {
        if probe == HeartbeatStatus::Up {
            self.consecutive_failures = 0;
            HeartbeatStatus::Up
        } else {
            self.consecutive_failures = self.consecutive_failures + 1;
            if self.consecutive_failures <= retries {
                HeartbeatStatus::Pending
            } else {
                HeartbeatStatus::Down
            }
        }
    }

    /// Decides whether the recorded `status` is announced, and remembers it
    /// as the status announced last when it is.
    pub fn settle(&mut self, status: HeartbeatStatus) -> (notify: bool)
        ensures
            notify == spec_should_notify(status, old(self).last_notified),
            final(self).last_notified == spec_notified_after(status, old(self).last_notified),
            final(self).consecutive_failures == old(self).consecutive_failures,
    {
        let notify = status != HeartbeatStatus::Pending && !matches!(self.last_notified, Some(s) if s == status);
        if notify {
            self.last_notified = Some(status);
        }
        notify
    }

    /// One whole check: counts the probe result `probe` of a monitor allowed
    /// `retries` failed probes in a row, and says what to record and whether
    /// to notify.
    pub fn step(&mut self, retries: i64, probe: HeartbeatStatus) -> (r: CheckStep)
        requires
            old(self).consecutive_failures < i64::MAX,
        ensures
            r.status == spec_reported_status(
                old(self).consecutive_failures as int,
                retries as int,
                probe,
            ),
            final(self).consecutive_failures == spec_failures_after(
                old(self).consecutive_failures as int,
                probe,
            ),
            r.notify == spec_should_notify(r.status, old(self).last_notified),
            final(self).last_notified == spec_notified_after(r.status, old(self).last_notified),
    {
        let status = self.count_probe(retries, probe);
        let notify = self.settle(status);
        CheckStep { status, notify }
    }
}

/// A heartbeat to record.
#[derive(Debug, Clone)]
pub struct Heartbeat {
    pub monitor_id: i64,
    pub status: HeartbeatStatus,
    pub response_time_ms: Option<i64>,
    pub message: Option<String>,
}

/// A status change to announce on every active channel.
#[derive(Debug, Clone)]
pub struct Announcement {
    pub monitor_name: String,
    pub status: HeartbeatStatus,
    pub message: Option<String>,
}

impl CheckLoopState {
    /// Counts the probe of `monitor` that gave `outcome` and gives the
    /// heartbeat to record: the status the retry rule gives, with the probe's
    /// response time and message.
    pub fn heartbeat_for(&mut self, monitor: &Monitor, outcome: CheckOutcome) -> (h: Heartbeat)
        requires
            old(self).consecutive_failures < i64::MAX,
        ensures
            h.monitor_id == monitor.id,
            h.status == spec_reported_status(
                old(self).consecutive_failures as int,
                monitor.retries as int,
                outcome.status,
            ),
            h.response_time_ms == outcome.response_time_ms,
            h.message == outcome.message,
            final(self).consecutive_failures == spec_failures_after(
                old(self).consecutive_failures as int,
                outcome.status,
            ),
            final(self).last_notified == old(self).last_notified,
    {
        let status = self.count_probe(monitor.retries, outcome.status);
        Heartbeat {
            monitor_id: monitor.id,
            status,
            response_time_ms: outcome.response_time_ms,
            message: outcome.message,
        }
    }

    /// Once `heartbeat` of `monitor` is recorded: the announcement to send,
    /// when its status is a settled change, with the probe's message.
    pub fn announcement_for(&mut self, monitor: &Monitor, heartbeat: &Heartbeat) -> (a: Option<
        Announcement,
    >)
        ensures
            a is Some <==> spec_should_notify(heartbeat.status, old(self).last_notified),
            a matches Some(n) ==> n.monitor_name == monitor.name && n.status == heartbeat.status
                && n.message == heartbeat.message,
            final(self).last_notified == spec_notified_after(heartbeat.status, old(self).last_notified),
            final(self).consecutive_failures == old(self).consecutive_failures,
    {
        if self.settle(heartbeat.status) {
            let message = match &heartbeat.message {
                Some(m) => Some(m.clone()),
                None => None,
            };
            Some(Announcement { monitor_name: monitor.name.clone(), status: heartbeat.status, message })
        } else {
            None
        }
    }
}

/// A fresh loop follows the empty run.
pub proof fn lemma_new_follows(s: CheckLoopState, retries: int)
    requires
        s.consecutive_failures == 0,
        s.last_notified is None,
    ensures
        spec_follows(s, retries, Seq::empty()),
{
}

/// The loop keeps following its run. When the state `before` follows
/// `ticks`, `count_probe(retries, probe)` turns it into `counted` with the
/// status `status`, and then either `settle(status)` turns that into
/// `after` with the answer `notify` (`decided`), or the decision is skipped
/// and `after` is `counted`: then `status` is the status the run with the new
/// tick records last, `notify` says whether it announces it, and `after`
/// follows the longer run.
pub proof fn lemma_tick_follows(
    retries: i64,
    ticks: Seq<(HeartbeatStatus, bool)>,
    probe: HeartbeatStatus,
    decided: bool,
    before: CheckLoopState,
    status: HeartbeatStatus,
    counted: CheckLoopState,
    notify: bool,
    after: CheckLoopState,
)
    requires
        spec_follows(before, retries as int, ticks),
        status == spec_reported_status(before.consecutive_failures as int, retries as int, probe),
        counted.consecutive_failures == spec_failures_after(before.consecutive_failures as int, probe),
        counted.last_notified == before.last_notified,
        decided ==> notify == spec_should_notify(status, counted.last_notified),
        decided ==> after.last_notified == spec_notified_after(status, counted.last_notified),
        decided ==> after.consecutive_failures == counted.consecutive_failures,
        !decided ==> after == counted,
    ensures
        status == spec_last_status(retries as int, ticks.push((probe, decided))),
        decided ==> (notify <==> spec_notifications(retries as int, ticks.push((probe, decided)))
            == spec_notifications(retries as int, ticks).push(status)),
        decided ==> notify == spec_should_notify(status, spec_last_notified_over(retries as int, ticks)),
        spec_follows(after, retries as int, ticks.push((probe, decided))),
{
    assert(ticks.push((probe, decided)).drop_last() =~= ticks);
    let ns = spec_notifications(retries as int, ticks);
    if decided && !notify {
        assert(spec_notifications(retries as int, ticks.push((probe, decided))).len() == ns.len());
    }
}

/// The failure count after a run is the number of failed probes at its end:
/// it is at least `k` exactly when the last `k` probes all failed.
pub proof fn lemma_failures_are_trailing(ticks: Seq<(HeartbeatStatus, bool)>, k: int)
    requires
        0 <= k <= ticks.len(),
    ensures
        spec_failures_over(ticks) >= k <==> forall|i: int|
            ticks.len() - k <= i < ticks.len() ==> #[trigger] ticks[i].0 != HeartbeatStatus::Up,
    decreases ticks.len(),
{
    let n = ticks.len() as int;
    if k == 0 {
        lemma_failures_nonnegative(ticks);
    } else {
        let init = ticks.drop_last();
        lemma_failures_are_trailing(init, k - 1);
        if ticks.last().0 == HeartbeatStatus::Up {
            assert(!(forall|i: int| n - k <= i < n ==> #[trigger] ticks[i].0 != HeartbeatStatus::Up)) by {
                assert(ticks[n - 1].0 == HeartbeatStatus::Up);
            }
        } else {
            assert((forall|i: int| n - k <= i < n ==> #[trigger] ticks[i].0 != HeartbeatStatus::Up) <==> (
            forall|i: int| (n - 1) - (k - 1) <= i < n - 1 ==> #[trigger] init[i].0 != HeartbeatStatus::Up)) by {
                if forall|i: int| (n - 1) - (k - 1) <= i < n - 1 ==> #[trigger] init[i].0 != HeartbeatStatus::Up {
                    assert forall|i: int| n - k <= i < n implies #[trigger] ticks[i].0 != HeartbeatStatus::Up by {
                        if i < n - 1 {
                            assert(init[i] == ticks[i]);
                        }
                    }
                }
                if forall|i: int| n - k <= i < n ==> #[trigger] ticks[i].0 != HeartbeatStatus::Up {
                    assert forall|i: int| (n - 1) - (k - 1) <= i < n - 1 implies #[trigger] init[i].0
                        != HeartbeatStatus::Up by {
                        assert(init[i] == ticks[i]);
                    }
                }
            }
        }
    }
}

/// Failure counts are never negative.
pub proof fn lemma_failures_nonnegative(ticks: Seq<(HeartbeatStatus, bool)>)
    ensures
        spec_failures_over(ticks) >= 0,
    decreases ticks.len(),
{
    if ticks.len() > 0 {
        lemma_failures_nonnegative(ticks.drop_last());
    }
}

/// A run never counts more failures than it has ticks.
pub proof fn lemma_failures_bounded(ticks: Seq<(HeartbeatStatus, bool)>)
    ensures
        spec_failures_over(ticks) <= ticks.len(),
    decreases ticks.len(),
{
    if ticks.len() > 0 {
        lemma_failures_bounded(ticks.drop_last());
    }
}

/// How many failed probes in a row make a monitor allowed `retries` failed
/// probes down: `retries + 1`, and one when `retries` is negative.
pub open spec fn spec_failures_for_down(retries: int) -> int {
    if retries >= 0 {
        retries + 1
    } else {
        1
    }
}

/// A monitor allowed `retries` failed probes in a row is recorded down exactly
/// when its last `retries + 1` probes all failed (its last probe, when
/// `retries` is negative), pending when its last probe failed but fewer did in
/// a row, and up when its last probe succeeded. Ticks whose announcement
/// decision was skipped count like any other.
pub proof fn lemma_down_after_retries(retries: int, ticks: Seq<(HeartbeatStatus, bool)>)
    requires
        ticks.len() > 0,
    ensures
        (spec_last_status(retries, ticks) == HeartbeatStatus::Up) <==> (ticks.last().0
            == HeartbeatStatus::Up),
        (spec_last_status(retries, ticks) == HeartbeatStatus::Down) <==> (ticks.len()
            >= spec_failures_for_down(retries) && forall|i: int|
            ticks.len() - spec_failures_for_down(retries) <= i < ticks.len() ==> #[trigger] ticks[i].0
                != HeartbeatStatus::Up),
        (spec_last_status(retries, ticks) == HeartbeatStatus::Pending) <==> (ticks.last().0
            != HeartbeatStatus::Up && spec_failures_over(ticks) <= retries),
{
    let n = ticks.len() as int;
    let need = spec_failures_for_down(retries);
    lemma_failures_nonnegative(ticks.drop_last());
    if n >= need {
        lemma_failures_are_trailing(ticks, need);
    } else {
        lemma_failures_bounded(ticks);
    }
    if ticks.last().0 != HeartbeatStatus::Up && n >= need {
        assert(ticks[n - 1].0 != HeartbeatStatus::Up);
    }
}

/// Announcements alternate: no pending status is ever announced, two
/// announcements in a row never carry the same status, and the status
/// announced last is the one the loop remembers.
pub proof fn lemma_notifications_alternate(retries: int, ticks: Seq<(HeartbeatStatus, bool)>)
    ensures
        ({
            let ns = spec_notifications(retries, ticks);
            &&& forall|i: int| 0 <= i < ns.len() ==> #[trigger] ns[i] != HeartbeatStatus::Pending
            &&& forall|i: int| 0 <= i < ns.len() - 1 ==> #[trigger] ns[i] != ns[i + 1]
            &&& spec_last_notified_over(retries, ticks) == (if ns.len() == 0 {
                None
            } else {
                Some(ns.last())
            })
        }),
    decreases ticks.len(),
{
    if ticks.len() > 0 {
        lemma_notifications_alternate(retries, ticks.drop_last());
    }
}

/// The seconds between two checks of `m`: its interval, but at least one.
pub fn check_interval_secs(m: &Monitor) -> (r: u64)
    ensures
        r == (if m.interval_seconds >= 1 { m.interval_seconds as int } else { 1 }),
{
    if m.interval_seconds >= 1 {
        m.interval_seconds as u64
    } else {
        1
    }
}

/// The seconds a probe of `m` may take: its timeout, but at least one.
pub fn check_timeout_secs(m: &Monitor) -> (r: u64)
    ensures
        r == (if m.timeout_seconds >= 1 { m.timeout_seconds as int } else { 1 }),
{
    if m.timeout_seconds >= 1 {
        m.timeout_seconds as u64
    } else {
        1
    }
}

} // verus!
