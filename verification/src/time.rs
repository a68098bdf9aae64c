//! Points in time as text.

use vstd::prelude::*;
use vstd::string::*;

verus! {

/// The text of a point in time, seconds since 1970 and nanoseconds, as a date and time in UTC with
/// microseconds; nothing where no date can be given.
pub uninterp spec fn utc_text(seconds: i64, nanos: u32) -> Option<Seq<char>>;

/// `chrono::DateTime::<Utc>::from_timestamp` and `to_rfc3339_opts`, with microseconds and `Z`. The result is
/// named `utc_text`.
#[verifier::external_body]
pub(crate) fn utc_timestamp(seconds: i64, nanos: u32) -> (r: Option<String>)
    ensures
        match r {
            Some(s) => utc_text(seconds, nanos) == Some(s@),
            None => utc_text(seconds, nanos) is None,
        },
{
    chrono::DateTime::<chrono::Utc>::from_timestamp(seconds, nanos)
        .map(|time| time.to_rfc3339_opts(chrono::SecondsFormat::Micros, true))
}

} // verus!
