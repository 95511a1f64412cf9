//! The monitor form: what a submitted form turns into, and what the form shows.

use vstd::prelude::*;
use vstd::string::*;

use crate::db::models::{Monitor, MonitorType, NewMonitor};
use crate::text::{decimal, decimal_text};

verus! {

/// The fields of the monitor form, as submitted.
pub struct MonitorForm {
    pub name: String,
    pub monitor_type: String,
    pub target: String,
    pub interval_seconds: i64,
    pub timeout_seconds: i64,
    pub retries: i64,
}

/// The shortest check interval a form may set, in seconds.
pub const MIN_INTERVAL_SECONDS: i64 = 5;

/// The shortest probe timeout a form may set, in seconds.
pub const MIN_TIMEOUT_SECONDS: i64 = 1;

/// `x`, but at least `lo`.
pub open spec fn spec_at_least(x: i64, lo: i64) -> i64 {
    if x >= lo {
        x
    } else {
        lo
    }
}

/// Raising a value to a floor gives the larger of the two: never below the
/// floor, a value at or above the floor is left alone, and raising twice
/// changes nothing more.
pub proof fn lemma_at_least(x: i64, lo: i64)
    ensures
        spec_at_least(x, lo) >= lo,
        spec_at_least(x, lo) >= x,
        spec_at_least(x, lo) == x || spec_at_least(x, lo) == lo,
        x >= lo ==> spec_at_least(x, lo) == x,
        spec_at_least(spec_at_least(x, lo), lo) == spec_at_least(x, lo),
{
}

/// The monitor that a submitted form describes: an unknown kind becomes HTTP,
/// the interval is at least five seconds, the timeout at least one second,
/// and the retry allowance is not negative.
pub fn form_to_new_monitor(form: MonitorForm) -> (m: NewMonitor)
    ensures
        m.name == form.name,
        m.monitor_type == (match MonitorType::spec_parse(form.monitor_type@) {
            Some(k) => k,
            None => MonitorType::Http,
        }),
        m.target == form.target,
        m.interval_seconds == spec_at_least(form.interval_seconds, MIN_INTERVAL_SECONDS),
        m.timeout_seconds == spec_at_least(form.timeout_seconds, MIN_TIMEOUT_SECONDS),
        m.retries == spec_at_least(form.retries, 0),
{
    let monitor_type = match MonitorType::parse(form.monitor_type.as_str()) {
        Some(k) => k,
        None => MonitorType::Http,
    };
    NewMonitor {
        name: form.name,
        monitor_type,
        target: form.target,
        interval_seconds: if form.interval_seconds >= MIN_INTERVAL_SECONDS {
            form.interval_seconds
        } else {
            MIN_INTERVAL_SECONDS
        },
        timeout_seconds: if form.timeout_seconds >= MIN_TIMEOUT_SECONDS {
            form.timeout_seconds
        } else {
            MIN_TIMEOUT_SECONDS
        },
        retries: if form.retries >= 0 {
            form.retries
        } else {
            0
        },
    }
}

/// What the monitor form page shows: its heading, where it posts to, and the
/// values the fields start with.
pub struct MonitorFormValues {
    pub heading: String,
    pub action: String,
    pub name: String,
    pub monitor_type: String,
    pub target: String,
    pub interval_seconds: i64,
    pub timeout_seconds: i64,
    pub retries: i64,
}

/// The empty form for a new monitor: an HTTP check every 60 seconds with a
/// 10-second timeout and no retries.
pub fn new_form_values() -> (v: MonitorFormValues)
    ensures
        v.heading@ == "New Monitor"@,
        v.action@ == "/monitors/new"@,
        v.name@ == Seq::<char>::empty(),
        v.monitor_type@ == "http"@,
        v.target@ == Seq::<char>::empty(),
        v.interval_seconds == 60,
        v.timeout_seconds == 10,
        v.retries == 0,
{
    MonitorFormValues {
        heading: String::from_str("New Monitor"),
        action: String::from_str("/monitors/new"),
        name: String::new(),
        monitor_type: String::from_str("http"),
        target: String::new(),
        interval_seconds: 60,
        timeout_seconds: 10,
        retries: 0,
    }
}

/// The form for editing `m`, filled with its settings and posting to
/// `/monitors/<id>/edit`.
pub fn edit_form_values(m: Monitor) -> (v: MonitorFormValues)
    ensures
        v.heading@ == "Edit Monitor"@,
        v.action@ == "/monitors/"@ + decimal_text(m.id as int) + "/edit"@,
        v.name == m.name,
        v.monitor_type@ == m.monitor_type.spec_name(),
        v.target == m.target,
        v.interval_seconds == m.interval_seconds,
        v.timeout_seconds == m.timeout_seconds,
        v.retries == m.retries,
{
    let mut action = String::from_str("/monitors/");
    let id = decimal(m.id);
    action.append(id.as_str());
    action.append("/edit");
    MonitorFormValues {
        heading: String::from_str("Edit Monitor"),
        action,
        name: m.name,
        monitor_type: String::from_str(m.monitor_type.as_str()),
        target: m.target,
        interval_seconds: m.interval_seconds,
        timeout_seconds: m.timeout_seconds,
        retries: m.retries,
    }
}

} // verus!
