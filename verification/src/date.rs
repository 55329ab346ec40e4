//! Conversion from a modification timestamp to a UTC calendar year and month.

use vstd::prelude::*;

verus! {

/// The UTC calendar year and month (1 through 12) determined by a count of
/// non-leap seconds since the Unix epoch, or `None` when the count lies
/// outside the representable calendar range.
pub uninterp spec fn date_of(secs: i64) -> Option<(i32, u8)>;

/// Relies on `chrono::DateTime::from_timestamp` (with zero nanoseconds) and
/// `chrono::Datelike::{year, month}`: the UTC calendar date is a function of
/// the seconds count alone, `from_timestamp` returns `None` exactly on an
/// out-of-range seconds count, and `month` ranges over 1 through 12.
#[verifier::external_body]
pub(crate) fn utc_year_month(secs: i64) -> (r: Option<(i32, u8)>)
    ensures
        r == date_of(secs),
        r is Some ==> 1 <= r.unwrap().1 <= 12,
{
    match chrono::DateTime::from_timestamp(secs, 0) {
        Some(d) => Some((chrono::Datelike::year(&d), chrono::Datelike::month(&d) as u8)),
        None => None,
    }
}

} // verus!
