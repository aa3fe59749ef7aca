use vstd::prelude::*;

use chrono::{Local, TimeZone};

verus! {

/// The text shown in place of a time that cannot be written.
pub open spec fn bad_timestamp() -> Seq<char> {
    "error parsing timestamp"@
}

/// Whether chrono can place `secs` seconds after the Unix epoch on its
/// calendar (`DateTime::from_timestamp(secs, 0)` gives a value); this is a
/// matter of the number alone.
pub uninterp spec fn chrono_in_range(secs: i64) -> bool;

/// Calls chrono's `Local.timestamp_opt(secs, 0).single()` and writes the
/// date-time it gives with its `Display`: the local date and time, a space
/// and the offset.  chrono's `timestamp_opt` gives no time exactly when the
/// number of seconds is out of its calendar's range and one single time
/// otherwise, so whether a text comes back depends on `secs` alone.  A text
/// that comes back begins with the year, so it is never the error text.
/// Which text comes back depends on the machine's time zone (chrono falls
/// back to UTC where none is set) and is left unsaid.  chrono panics only
/// on a malformed time-zone file whose offset is a day or more.
#[verifier::external_body]
fn chrono_local_text(secs: i64) -> (r: Option<String>)
    ensures
        r is Some <==> chrono_in_range(secs),
        r matches Some(t) ==> t@ != bad_timestamp(),
{
    match Local.timestamp_opt(secs, 0).single() {
        Some(dt) => Some(dt.to_string()),
        None => None,
    }
}

/// The text of a converted time, or the error text when there is none.
pub fn local_time_text(converted: Option<String>) -> (s: String)
    ensures
        match converted {
            Some(t) => s@ == t@,
            None => s@ == bad_timestamp(),
        },
{
    match converted {
        Some(t) => t,
        None => "error parsing timestamp".to_owned(),
    }
}

/// A Unix time (seconds) written as a local date and time; times beyond the
/// signed 64-bit range, and times that the time library cannot place, are
/// written as the error text.
pub fn local_time(secs: u64) -> (s: String)
    ensures
        s@ == bad_timestamp() <==> (secs > i64::MAX || !chrono_in_range(secs as i64)),
{
    if secs > i64::MAX as u64 {
        return local_time_text(None);
    }
    let converted = chrono_local_text(secs as i64);
    local_time_text(converted)
}

} // verus!
