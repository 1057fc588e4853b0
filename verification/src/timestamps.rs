//! Unix-second instants and what `chrono` makes of them.

use chrono::TimeZone;
use vstd::prelude::*;

verus! {

/// The earliest second `chrono` represents as a `DateTime<Utc>`
/// (-262143-01-01T00:00:00Z).
pub open spec fn min_utc_second() -> int {
    -8334601228800
}

/// The latest second `chrono` represents as a `DateTime<Utc>`
/// (262142-12-31T23:59:59Z).
pub open spec fn max_utc_second() -> int {
    8210266876799
}

/// `secs` names an instant that `chrono` can hold.
pub open spec fn representable(secs: int) -> bool {
    min_utc_second() <= secs <= max_utc_second()
}

/// Calls `chrono::TimeZone::timestamp_opt(&Utc, secs, 0)` and tells whether
/// it gave a single instant. Claimed, from `DateTime::from_timestamp` and
/// the year range of `NaiveDate`: it does exactly when `secs` is between the
/// earliest and the latest representable second.
#[verifier::external_body]
pub(crate) fn utc_second_exists(secs: i64) -> (r: bool)
    ensures
        r == representable(secs as int),
{
    chrono::Utc.timestamp_opt(secs, 0).single().is_some()
}

/// The `%Y-%m-%d` rendering of the UTC calendar date of the instant `secs`.
pub uninterp spec fn utc_date_label(secs: int) -> Seq<char>;

/// Calls `chrono::DateTime::format` with `"%Y-%m-%d"` on the UTC instant
/// `secs`. Its result is named, not stated.
#[verifier::external_body]
pub(crate) fn format_utc_date(secs: i64) -> (r: String)
    requires
        representable(secs as int),
    ensures
        r@ == utc_date_label(secs as int),
{
    match chrono::Utc.timestamp_opt(secs, 0) {
        chrono::MappedLocalTime::Single(d) => d.format("%Y-%m-%d").to_string(),
        _ => String::new(),
    }
}

/// A stored optional instant as the store hands it back: values `chrono`
/// cannot represent read as absent.
pub open spec fn stored_instant(t: Option<i64>) -> Option<i64> {
    match t {
        Some(v) => if representable(v as int) {
            Some(v)
        } else {
            None
        },
        None => None,
    }
}

/// Reads an optional instant column.
pub fn instant_from_column(t: Option<i64>) -> (r: Option<i64>)
    ensures
        r == stored_instant(t),
{
    match t {
        Some(v) => if utc_second_exists(v) {
            Some(v)
        } else {
            None
        },
        None => None,
    }
}

/// Reads a required instant column: values `chrono` cannot represent read as
/// the epoch.
pub fn instant_or_epoch(t: i64) -> (r: i64)
    ensures
        r == if representable(t as int) {
            t
        } else {
            0
        },
{
    if utc_second_exists(t) {
        t
    } else {
        0
    }
}

} // verus!
