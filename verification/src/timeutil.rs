//! Time support: parsing a commit's push timestamp and measuring its age.
//!
//! The calendar arithmetic is an outside collaborator; the library only
//! handles plain epoch-second values. Both wrappers bound their results by
//! the date range the calendar library itself supports (years within
//! roughly +/-262000, so fewer than 10^13 seconds away from the epoch).

use vstd::prelude::*;

verus! {

/// One more than the largest epoch-second magnitude the calendar library
/// can produce.
pub const MAX_EPOCH_SECONDS: i64 = 10_000_000_000_000;

/// What parsing an RFC 3339 date-time string yields: `None` when the
/// string does not parse, otherwise its timestamp in seconds since the
/// Unix epoch. A function of the string alone.
pub uninterp spec fn date_epoch_seconds(s: Seq<char>) -> Option<i64>;

/// Relies on chrono's `FromStr` for `DateTime<Utc>` and on
/// `DateTime::timestamp`: parsing is deterministic in the string, and a
/// `DateTime` holds years within +/-262143 only (`DateTime::MIN_UTC` /
/// `MAX_UTC`), so its timestamp magnitude stays below 10^13 seconds.
#[verifier::external_body]
pub fn parse_date_seconds(s: &str) -> (r: Option<i64>)
    ensures
        r == date_epoch_seconds(s@),
        r matches Option::Some(t) ==> -MAX_EPOCH_SECONDS < t < MAX_EPOCH_SECONDS,
{
    match s.parse::<chrono::DateTime<chrono::Utc>>() {
        Ok(d) => Some(d.timestamp()),
        Err(_) => None,
    }
}

/// Relies on `chrono::Utc::now` and `DateTime::timestamp`: the clock can
/// say anything, but the value stays within the calendar library's
/// supported date range (below 10^13 seconds in magnitude).
#[verifier::external_body]
pub fn now_epoch_seconds() -> (r: i64)
    ensures
        -MAX_EPOCH_SECONDS < r < MAX_EPOCH_SECONDS,
{
    chrono::Utc::now().timestamp()
}

/// Whole minutes from `then_s` to `now_s`, truncated toward zero
/// (negative when `then_s` lies in the future).
pub open spec fn spec_minutes_between(then_s: i64, now_s: i64) -> int {
    if now_s >= then_s {
        (now_s - then_s) / 60
    } else {
        -((then_s - now_s) / 60)
    }
}

/// Computes the whole minutes between two bounded epoch-second values.
pub fn minutes_between(then_s: i64, now_s: i64) -> (m: i64)
    requires
        -MAX_EPOCH_SECONDS < then_s < MAX_EPOCH_SECONDS,
        -MAX_EPOCH_SECONDS < now_s < MAX_EPOCH_SECONDS,
    ensures
        m == spec_minutes_between(then_s, now_s),
        -MAX_EPOCH_SECONDS < m < MAX_EPOCH_SECONDS,
{
    if now_s >= then_s {
        (((now_s - then_s) as u64) / 60) as i64
    } else {
        -((((then_s - now_s) as u64) / 60) as i64)
    }
}

} // verus!
