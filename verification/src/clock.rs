//! The calls into chrono: reading a kickoff time and reading the clock.

use crate::types::Moment;
use chrono::{DateTime, NaiveDateTime, Utc};
use vstd::prelude::*;

verus! {

#[verifier::external_type_specification]
#[verifier::external_body]
pub struct ExParseError(chrono::format::ParseError);

/// The Unix timestamp (whole seconds, UTC) of the date and time that chrono
/// reads from `text` in the strftime-like `format`, or `None` where chrono
/// refuses the text.
pub uninterp spec fn naive_utc_timestamp(text: Seq<char>, format: Seq<char>) -> Option<i64>;

/// Calls chrono's `NaiveDateTime::parse_from_str(text, format)` and takes the
/// date and time it reads as UTC (`DateTime::<Utc>::from_naive_utc_and_offset`,
/// then `timestamp`). Claimed: the result is `naive_utc_timestamp` of the two
/// arguments, and chrono's error comes back exactly where that name is `None`.
#[verifier::external_body]
pub(crate) fn parse_utc_timestamp(text: &str, format: &str) -> (r: Result<i64, chrono::format::ParseError>)
    ensures
        match r {
            Ok(t) => naive_utc_timestamp(text@, format@) == Some(t),
            Err(_) => naive_utc_timestamp(text@, format@) is None,
        },
{
    match NaiveDateTime::parse_from_str(text, format) {
        Ok(naive) => Ok(DateTime::<Utc>::from_naive_utc_and_offset(naive, Utc).timestamp()),
        Err(e) => Err(e),
    }
}

/// Reads the system clock (`std::time::SystemTime::now()`) and converts it
/// with chrono's `From<SystemTime> for DateTime<Utc>`, handing back its
/// `timestamp()` and `timestamp_subsec_nanos()`. That conversion also accepts
/// instants before 1970. Nothing is claimed of the instant: it is the system
/// clock's. The conversion unwraps chrono's range check, which fails only for
/// a clock hundreds of thousands of years away from today; that case is not
/// ruled out here.
#[verifier::external_body]
pub(crate) fn utc_now() -> (r: Moment) {
    let now = DateTime::<Utc>::from(std::time::SystemTime::now());
    Moment { secs: now.timestamp(), nanos: now.timestamp_subsec_nanos() }
}

} // verus!
