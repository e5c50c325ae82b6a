//! Calendar time as RFC 3339 text, through the `time` crate.

use vstd::prelude::*;
use time::OffsetDateTime;

verus! {

#[verifier::external_type_specification]
#[verifier::external_body]
pub struct ExOffsetDateTime(OffsetDateTime);

/// Earliest second `time::OffsetDateTime` represents (`-9999-01-01T00:00:00Z`).
pub open spec fn min_unix_timestamp() -> int {
    -377705116800
}

/// Latest second `time::OffsetDateTime` represents (`9999-12-31T23:59:59Z`).
pub open spec fn max_unix_timestamp() -> int {
    253402300799
}

/// What `OffsetDateTime::format` with the RFC 3339 description gives for
/// the UTC time of Unix second `ts`, or the empty text where formatting
/// fails.
pub uninterp spec fn rfc3339_text(ts: i64) -> Seq<char>;

/// A calendar time at UTC, with the Unix second it was made from.
pub struct UtcTime {
    unix: i64,
    time: OffsetDateTime,
}

impl View for UtcTime {
    type V = i64;

    /// The Unix second the time was made from.
    closed spec fn view(&self) -> i64 {
        self.unix
    }
}

/// Calls `time::OffsetDateTime::from_unix_timestamp`. Trusted to succeed
/// exactly for timestamps between `Date::MIN` and `Date::MAX` at UTC, which
/// is how the crate's source bounds its input, and to keep the second it
/// was made from.
#[verifier::external_body]
pub(crate) fn offset_datetime_from_unix(ts: i64) -> (r: Option<UtcTime>)
    ensures
        r is Some <==> min_unix_timestamp() <= ts <= max_unix_timestamp(),
        r matches Some(t) ==> t@ == ts,
{
    match OffsetDateTime::from_unix_timestamp(ts) {
        Ok(time) => Some(UtcTime { unix: ts, time }),
        Err(_) => None,
    }
}

/// Calls `OffsetDateTime::format` with the RFC 3339 description, giving
/// the empty text when formatting fails. Trusted to give the text named
/// `rfc3339_text` for the time's Unix second.
#[verifier::external_body]
pub(crate) fn format_rfc3339(t: &UtcTime) -> (s: String)
    ensures
        s@ == rfc3339_text(t@),
{
    match t.time.format(&time::format_description::well_known::Rfc3339) {
        Ok(s) => s,
        Err(_) => String::new(),
    }
}

} // verus!
