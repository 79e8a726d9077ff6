//! The publication date of a manifest, written through chrono.

use vstd::prelude::*;

use crate::error::GenerateError;

verus! {

/// The RFC 3339 text, in UTC with a `Z` marker and whole seconds, of the
/// instant `secs` seconds after the Unix epoch.
pub uninterp spec fn rfc3339_utc_seconds(secs: int) -> Seq<char>;

/// `t` has the form `YYYY-MM-DDTHH:MM:SSZ`: RFC 3339 in UTC, to the second.
pub open spec fn is_rfc3339_seconds_utc(t: Seq<char>) -> bool {
    &&& t.len() == 20
    &&& t[4] == '-' && t[7] == '-' && t[10] == 'T' && t[13] == ':' && t[16] == ':' && t[19] == 'Z'
    &&& forall|i: int|
        0 <= i < 19 && i != 4 && i != 7 && i != 10 && i != 13 && i != 16 ==> '0' <= #[trigger] t[i]
            <= '9'
}

/// The last second of the year 9999, 9999-12-31T23:59:59Z.
pub const LAST_FOUR_DIGIT_SECOND: i64 = 253_402_300_799;

/// Relies on `chrono::DateTime::from_timestamp`, which gives `None` only outside
/// the calendar chrono can represent (far beyond the years 0 to 9999), and on
/// `DateTime::to_rfc3339_opts` with `SecondsFormat::Secs` and `use_z`, which writes the instant in RFC 3339:
/// for the years 0 to 9999, two digits per field, four for the year, and `Z`.
#[verifier::external_body]
fn rfc3339_utc(secs: i64) -> (r: Option<String>)
    ensures
        0 <= secs <= LAST_FOUR_DIGIT_SECOND ==> r is Some,
        r matches Some(s) ==> s@ == rfc3339_utc_seconds(secs as int),
        r matches Some(s) ==> (0 <= secs <= LAST_FOUR_DIGIT_SECOND ==> is_rfc3339_seconds_utc(s@)),
{
    chrono::DateTime::from_timestamp(secs, 0).map(
        |t| t.to_rfc3339_opts(chrono::SecondsFormat::Secs, true),
    )
}

/// The publication date for a manifest made `secs` seconds after the Unix epoch.
/// Every instant from the epoch to the end of the year 9999 has one.
pub fn publication_date(secs: i64) -> (r: Result<String, GenerateError>)
    ensures
        0 <= secs <= LAST_FOUR_DIGIT_SECOND ==> (r matches Ok(s) && is_rfc3339_seconds_utc(s@)),
        r matches Ok(s) ==> s@ == rfc3339_utc_seconds(secs as int),
        r matches Err(e) ==> e == GenerateError::InvalidTimestamp,
{
    match rfc3339_utc(secs) {
        Some(s) => Ok(s),
        None => Err(GenerateError::InvalidTimestamp),
    }
}

} // verus!
