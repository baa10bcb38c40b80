//! Calendar texts for timestamps, written by chrono.

use vstd::prelude::*;

use crate::model::Timestamp;

verus! {

/// Whether chrono can hold the timestamp as a UTC date and time: the nanoseconds are below
/// one second and the date lies within some 250 000 years of the epoch (chrono's own range
/// reaches past 262 000 years either way).
pub open spec fn representable(ts: Timestamp) -> bool {
    &&& ts.nanos < 1_000_000_000
    &&& -8_000_000_000_000 <= ts.seconds <= 8_000_000_000_000
}

/// Whether chrono can hold the timestamp.
pub fn is_representable(ts: Timestamp) -> (r: bool)
    ensures
        r == representable(ts),
{
    ts.nanos < 1_000_000_000 && -8_000_000_000_000 <= ts.seconds && ts.seconds
        <= 8_000_000_000_000
}

/// The RFC 3339 text that chrono writes for a UTC timestamp.
pub uninterp spec fn rfc3339_text(seconds: i64, nanos: u32) -> Seq<char>;

/// Writes a timestamp as RFC 3339, through `chrono::DateTime::<Utc>::from_timestamp` and
/// `DateTime::to_rfc3339`. Claimed: the text is the one named `rfc3339_text` for the two
/// fields, and a representable timestamp gives a text (chrono refuses only nanoseconds of a
/// second or more outside a leap second, and dates beyond its year range).
#[verifier::external_body]
pub(crate) fn to_rfc3339(ts: Timestamp) -> (r: Option<String>)
    ensures
        r matches Some(text) ==> text@ == rfc3339_text(ts.seconds, ts.nanos),
        representable(ts) ==> r is Some,
{
    match chrono::DateTime::from_timestamp(ts.seconds, ts.nanos) {
        Some(time) => Some(time.to_rfc3339()),
        None => None,
    }
}

/// The compact UTC text `YYYYMMDD-HHMMSS` that chrono writes for whole seconds since the epoch.
pub uninterp spec fn compact_utc_text(seconds: i64) -> Seq<char>;

/// Writes whole seconds since the epoch as `YYYYMMDD-HHMMSS` in UTC, through
/// `chrono::DateTime::<Utc>::from_timestamp` and `format("%Y%m%d-%H%M%S")`. Claimed: the text
/// is the one named `compact_utc_text`, and a time within the representable range gives one.
#[verifier::external_body]
pub(crate) fn compact_utc(seconds: i64) -> (r: Option<String>)
    ensures
        r matches Some(text) ==> text@ == compact_utc_text(seconds),
        -8_000_000_000_000 <= seconds <= 8_000_000_000_000 ==> r is Some,
{
    match chrono::DateTime::from_timestamp(seconds, 0) {
        Some(time) => Some(time.format("%Y%m%d-%H%M%S").to_string()),
        None => None,
    }
}

/// The RFC 3339 text of a representable timestamp.
pub fn rfc3339(ts: Timestamp) -> (r: String)
    requires
        representable(ts),
    ensures
        r@ == rfc3339_text(ts.seconds, ts.nanos),
{
    match to_rfc3339(ts) {
        Some(text) => text,
        None => String::new(),
    }
}

} // verus!
