//! The clock: the local time for file names, and the time that a request has
//! been under way.

use crate::filename::TIMESTAMP_PATTERN;
use crate::text::is_ascii_digit;
use std::time::{Duration, Instant};
use vstd::prelude::*;

verus! {

/// A point in time of `std::time`. Nothing of its inside is known here.
#[verifier::external_type_specification]
#[verifier::external_body]
pub struct ExInstant(Instant);

/// The shape of a time written by the pattern of the file names: at least
/// seventeen characters, each a digit, a hyphen or a plus sign.
pub open spec fn is_time_text(text: Seq<char>) -> bool {
    &&& text.len() >= 17
    &&& forall|i: int|
        0 <= i < text.len() ==> is_ascii_digit(#[trigger] text[i]) || text[i] == '-' || text[i]
            == '+'
}

/// Calls `chrono::Local::now` and formats the time with `DateTime::format`.
/// The pattern is the one of the file names, which holds no item that the
/// formatter would refuse. Which time comes out depends on the clock and on
/// the time zone of the machine; the contract states its shape only. For
/// this pattern chrono writes the year with four digits at least, and with a
/// sign before it outside the years 0 to 9999, then a hyphen and two digits
/// twice, a hyphen and six digits. chrono gives up where the clock stands
/// before 1970 or the machine knows no offset for its time zone.
#[verifier::external_body]
pub(crate) fn local_time_text(pattern: &str) -> (text: String)
    requires
        pattern@ == TIMESTAMP_PATTERN@,
    ensures
        is_time_text(text@),
{
    chrono::Local::now().format(pattern).to_string()
}

/// Calls `Instant::now`. Nothing is stated of the result: it is the time.
#[verifier::external_body]
pub(crate) fn now() -> (instant: Instant) {
    Instant::now()
}

/// Calls `Instant::elapsed`. Nothing is stated of the result: it depends on
/// the time of the call.
#[verifier::external_body]
pub(crate) fn elapsed_since(start: &Instant) -> (elapsed: Duration) {
    start.elapsed()
}

/// Calls `Duration::as_secs`, which returns the whole seconds of the
/// duration. A duration is opaque here, so nothing is stated of the result.
#[verifier::external_body]
pub(crate) fn whole_seconds(duration: &Duration) -> (seconds: u64) {
    duration.as_secs()
}

} // verus!
