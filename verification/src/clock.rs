//! The server clock.

use vstd::prelude::*;

verus! {

/// The shape of a UTC time as RFC 3339 text: a date, `T`, a time of day with
/// an optional fraction of a second, and the offset `+00:00`.
pub open spec fn utc_rfc3339_shape(s: Seq<char>) -> bool {
    &&& s.len() >= 25
    &&& s.subrange(s.len() - 6, s.len() as int) == seq!['+', '0', '0', ':', '0', '0']
    &&& exists|t: int|
        6 <= t && t + 15 <= s.len() && #[trigger] s[t] == 'T' && s[t - 3] == '-' && s[t - 6]
            == '-' && s[t + 3] == ':' && s[t + 6] == ':'
}

/// The current UTC time as an RFC 3339 string, from `chrono::Utc::now` and
/// `chrono::DateTime::to_rfc3339`.
///
/// Trusted: the text has the shape that chrono writes for a UTC time: the
/// year in four digits or more, `-MM-DDTHH:MM:SS`, at most a fraction, and the
/// offset written as `+00:00`. Which time it tells depends on the clock, and
/// nothing is claimed of that.
#[verifier::external_body]
pub(crate) fn now_rfc3339() -> (text: String)
    ensures
        utc_rfc3339_shape(text@),
{
    chrono::Utc::now().to_rfc3339()
}

/// The current UTC time in microseconds since the Unix epoch, from
/// `chrono::Utc::now` and `chrono::DateTime::timestamp_micros`.
///
/// Trusted, and nothing is claimed of the number: it depends on the clock.
#[verifier::external_body]
pub(crate) fn now_micros() -> (micros: i64) {
    chrono::Utc::now().timestamp_micros()
}

} // verus!
