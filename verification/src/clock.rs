//! The one look at the wall clock: the current local time as plain
//! field values, validated into a `Timestamp`.

use vstd::prelude::*;
use chrono::Datelike;
use chrono::Timelike;
use crate::date::{Date, TimeOfDay, Timestamp};

verus! {

/// Relies on chrono::Local::now and the Datelike/Timelike accessors
/// year, month, day, hour, minute and second: month counts from 1 to
/// 12, day from 1 to 31, and the clock fields stay on the 24-hour
/// dial. The values depend on the wall clock, so nothing more is
/// stated.
#[verifier::external_body]
fn local_now_fields() -> (r: (i32, u32, u32, u32, u32, u32))
    ensures
        1 <= r.1 <= 12,
        1 <= r.2 <= 31,
        r.3 <= 23,
        r.4 <= 59,
        r.5 <= 59,
{
    let now = chrono::Local::now();
    (now.year(), now.month(), now.day(), now.hour(), now.minute(), now.second())
}

/// The current local time, if it falls in the supported calendar range
/// (years 1 through 9999); whatever instant the clock reports, any
/// returned timestamp is well-formed.
pub fn now_timestamp() -> (r: Option<Timestamp>)
    ensures
        r matches Some(ts) ==> ts.wf(),
{
    let (year, month, day, hour, minute, second) = local_now_fields();
    let date = match Date::new(year, month as i32, day as i32) {
        Some(d) => d,
        None => {
            return None;
        },
    };
    let time = TimeOfDay { hour: hour as i32, minute: minute as i32, second: second as i32 };
    Some(Timestamp { date, time })
}

} // verus!
