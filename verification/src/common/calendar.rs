//! The range of timestamps that the calendar can name.

use vstd::prelude::*;

verus! {

/// The first millisecond that the calendar names: the start of the year
/// 262143 before the common era.
pub const FIRST_MILLIS: i64 = -8_334_601_228_800_000;

/// The last millisecond that the calendar names: the end of the year
/// 262142 of the common era.
pub const LAST_MILLIS: i64 = 8_210_266_876_799_999;

/// Whether the calendar can turn this count of milliseconds since the
/// Unix epoch into a date and time.
pub open spec fn calendar_accepts(millis: i64) -> bool {
    FIRST_MILLIS <= millis <= LAST_MILLIS
}

/// Wraps `chrono::DateTime::from_timestamp_millis`: says whether it returns
/// a date for `millis`, which it does from the first day of the first
/// year of `chrono::NaiveDate` to the last day of its last year.
#[verifier::external_body]
pub(crate) fn timestamp_in_range(millis: i64) -> (r: bool)
    ensures
        r == calendar_accepts(millis),
{
    chrono::DateTime::from_timestamp_millis(millis).is_some()
}

} // verus!
