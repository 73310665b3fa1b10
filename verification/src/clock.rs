//! Wall-clock readings and calendar renderings, both from `chrono`.
//!
//! Times are carried as microseconds since the Unix epoch (UTC).

use vstd::prelude::*;

verus! {

/// The earliest instant `chrono` represents, in microseconds since the
/// epoch: January 1 of year -262143, 00:00:00 UTC.
pub const EARLIEST_RENDERABLE_MICROS: i64 = -8334601315200000000i64;

/// The latest instant `chrono` represents, in microseconds since the epoch:
/// December 31 of year 262142, 23:59:59.999999 UTC.
pub const LATEST_RENDERABLE_MICROS: i64 = 8210266876799999999i64;

/// What `chrono` renders for the UTC instant `micros` with the strftime
/// pattern `pattern`.
pub uninterp spec fn chrono_utc_format(micros: i64, pattern: Seq<char>) -> Seq<char>;

/// `%Y%m%d`: the calendar day of an instant.
pub open spec fn day_pattern() -> Seq<char> {
    seq!['%', 'Y', '%', 'm', '%', 'd']
}

/// `%Y%m%d%H`: the calendar hour of an instant.
pub open spec fn hour_pattern() -> Seq<char> {
    day_pattern() + seq!['%', 'H']
}

/// `%Y%m%d%H%M`: the calendar minute of an instant.
pub open spec fn minute_pattern() -> Seq<char> {
    hour_pattern() + seq!['%', 'M']
}

/// The patterns that this library renders with.
pub open spec fn known_pattern(p: Seq<char>) -> bool {
    p == day_pattern() || p == hour_pattern() || p == minute_pattern()
}

/// `chrono::Utc::now()` as microseconds since the epoch. The source reads
/// the system clock as a duration since the epoch, so the reading is not
/// negative; nothing else is claimed of it.
#[verifier::external_body]
pub(crate) fn utc_now_micros() -> (t: i64)
    ensures
        0 <= t,
{
    chrono::Utc::now().timestamp_micros()
}

/// `DateTime::<Utc>::from_timestamp_micros(micros)` rendered with
/// `format(pattern)`: the result is `chrono_utc_format(micros, pattern@)`.
/// From `EARLIEST_RENDERABLE_MICROS` to `LATEST_RENDERABLE_MICROS`, chrono's
/// whole range (`NaiveDate::MIN` to `NaiveDate::MAX`), it represents the instant, and
/// the known patterns hold only valid strftime escapes.
#[verifier::external_body]
pub(crate) fn format_utc_micros(micros: i64, pattern: &str) -> (s: String)
    requires
        EARLIEST_RENDERABLE_MICROS <= micros <= LATEST_RENDERABLE_MICROS,
        known_pattern(pattern@),
    ensures
        s@ == chrono_utc_format(micros, pattern@),
{
    chrono::DateTime::<chrono::Utc>::from_timestamp_micros(micros).unwrap().format(pattern).to_string()
}

} // verus!
