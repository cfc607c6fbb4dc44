//! Points in time as text.

use vstd::prelude::*;
use vstd::string::*;

verus! {

/// Number of nanoseconds in a millisecond.
pub const NANOS_PER_MILLI: i128 = 1_000_000;

/// The RFC 3339 text, in UTC, of the instant that lies `unix_nanos`
/// nanoseconds after the Unix epoch; `None` for an instant that has no such
/// text.
pub uninterp spec fn rfc3339_utc(unix_nanos: i128) -> Option<Seq<char>>;

/// Calls `time::OffsetDateTime::from_unix_timestamp_nanos` and then
/// `format` with `time::format_description::well_known::Rfc3339` on what it
/// gives. The contract only names the outcome, text or none, as a function
/// of the instant: that the text is the right one is the `time` crate's
/// word, not proved here.
#[verifier::external_body]
fn format_rfc3339(unix_nanos: i128) -> (text: Option<String>)
    ensures
        match text {
            Some(t) => rfc3339_utc(unix_nanos) == Some(t@),
            None => rfc3339_utc(unix_nanos).is_none(),
        },
{
    match time::OffsetDateTime::from_unix_timestamp_nanos(unix_nanos) {
        Ok(instant) => instant.format(&time::format_description::well_known::Rfc3339).ok(),
        Err(_) => None,
    }
}

/// The instant `unix_millis` milliseconds after the Unix epoch, in
/// nanoseconds.
pub open spec fn nanos_of(unix_millis: u64) -> i128 {
    (unix_millis * NANOS_PER_MILLI) as i128
}

/// The RFC 3339 text, in UTC, of the instant `unix_millis` milliseconds
/// after the Unix epoch, where it has one.
pub fn rfc3339_timestamp(unix_millis: u64) -> (text: Option<String>)
    ensures
        match text {
            Some(t) => rfc3339_utc(nanos_of(unix_millis)) == Some(t@),
            None => rfc3339_utc(nanos_of(unix_millis)).is_none(),
        },
{
    let nanos: i128 = (unix_millis as i128) * NANOS_PER_MILLI;
    format_rfc3339(nanos)
}

} // verus!
