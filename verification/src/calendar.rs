//! Day boundaries on Unix timestamps.
//!
//! Loans end on a day boundary, and the liquidation sweep walks from one
//! boundary to the next, so every date the ledger stores is a multiple of a
//! day.

use vstd::prelude::*;

verus! {

/// Seconds in one day.
pub const SECONDS_IN_A_DAY: i64 = 86400;

/// The last day boundary at or before `timestamp`.
pub open spec fn day_start(timestamp: int) -> int {
    timestamp - timestamp % 86400
}

/// The first day boundary after `timestamp`.
pub open spec fn next_midnight(timestamp: int) -> int {
    day_start(timestamp) + 86400
}

/// Whether `date` lies on a day boundary.
pub open spec fn is_midnight(date: int) -> bool {
    date % 86400 == 0
}

/// The boundary that ends a term of `days` days starting at `now`.
pub open spec fn term_end(now: int, days: int) -> int {
    next_midnight(now + days * 86400)
}

/// What `day_start` and `next_midnight` promise: both lie on a day boundary
/// and enclose the timestamp.
pub proof fn lemma_day_bounds(timestamp: int)
    ensures
        is_midnight(day_start(timestamp)),
        is_midnight(next_midnight(timestamp)),
        day_start(timestamp) <= timestamp < next_midnight(timestamp),
        is_midnight(timestamp) ==> day_start(timestamp) == timestamp,
{
}

/// The start of the day that holds `timestamp`.
pub fn get_date_from_timestamp(timestamp: i64) -> (date: i64)
    requires
        timestamp >= i64::MIN + 86400,
    ensures
        date == day_start(timestamp as int),
{
    match timestamp.checked_rem_euclid(SECONDS_IN_A_DAY) {
        Some(into_day) => timestamp - into_day,
        None => timestamp,
    }
}

/// The first midnight after `timestamp`.
pub fn get_midnight_timestamp(timestamp: i64) -> (date: i64)
    requires
        i64::MIN + 86400 <= timestamp <= i64::MAX - 86400,
    ensures
        date == next_midnight(timestamp as int),
{
    get_date_from_timestamp(timestamp) + SECONDS_IN_A_DAY
}

/// Whether a term of `days` days starting at `now` ends on a date that can
/// be represented.
pub open spec fn term_fits(now: i64, days: u64) -> bool {
    i64::MIN + 86400 <= now + days * 86400 <= i64::MAX - 86400
}

/// The midnight that ends a term of `days` days starting at `now`, or `None`
/// where that date cannot be represented.
pub fn checked_term_end(now: i64, days: u64) -> (end: Option<i64>)
    ensures
        end == (if term_fits(now, days) {
            Some(term_end(now as int, days as int) as i64)
        } else {
            None
        }),
        term_fits(now, days) ==> i64::MIN <= term_end(now as int, days as int) <= i64::MAX,
{
    let start: i128 = (now as i128) + (days as i128) * 86400;
    if start < (i64::MIN as i128) + 86400 || start > (i64::MAX as i128) - 86400 {
        None
    } else {
        Some(get_midnight_timestamp(start as i64))
    }
}

} // verus!
