//! Clock readings: the millisecond instant used for duration arithmetic —
//! duration arithmetic clamps a regressing reading at zero elapsed — and the
//! wall-clock timestamp strings shown in each entry.

use vstd::prelude::*;

verus! {

/// The zero offset with which UTC timestamps end.
pub open spec fn spec_utc_suffix() -> Seq<char> {
    seq!['+', '0', '0', ':', '0', '0']
}

/// Whether a timestamp ends with the explicit zero offset `+00:00`.
pub open spec fn spec_has_utc_suffix(s: Seq<char>) -> bool {
    s.len() >= 6 && s.subrange(s.len() - 6, s.len() as int) == spec_utc_suffix()
}

/// A decimal digit character.
pub open spec fn spec_is_ascii_digit(c: char) -> bool {
    '0' <= c && c <= '9'
}

/// Whether a timestamp ends with a six-character numeric offset: a sign,
/// two hour digits, a colon, and two minute digits.
pub open spec fn spec_has_numeric_offset(s: Seq<char>) -> bool {
    &&& s.len() >= 6
    &&& (s[s.len() - 6] == '+' || s[s.len() - 6] == '-')
    &&& spec_is_ascii_digit(s[s.len() - 5])
    &&& spec_is_ascii_digit(s[s.len() - 4])
    &&& s[s.len() - 3] == ':'
    &&& spec_is_ascii_digit(s[s.len() - 2])
    &&& spec_is_ascii_digit(s[s.len() - 1])
}

/// Relies on chrono's `Utc::now` and `DateTime::timestamp_millis`: the
/// current time in whole milliseconds since the Unix epoch, clamped at zero.
/// Nothing can be promised of a clock reading.
#[verifier::external_body]
pub(crate) fn now_ms() -> u64 {
    let ms: i64 = chrono::Utc::now().timestamp_millis();
    if ms < 0 {
        0
    } else {
        ms as u64
    }
}

/// Relies on chrono's `Utc::now` and `DateTime::to_rfc3339_opts` with second
/// precision and a numeric offset: an RFC 3339 timestamp whose offset part is
/// the explicit `+00:00`, since the UTC offset is zero.
#[verifier::external_body]
pub(crate) fn utc_timestamp() -> (r: String)
    ensures
        spec_has_utc_suffix(r@),
{
    chrono::Utc::now().to_rfc3339_opts(chrono::SecondsFormat::Secs, false)
}

/// Relies on chrono's `Local::now` and `DateTime::to_rfc3339_opts` with
/// second precision and a numeric offset: an RFC 3339 timestamp carrying the
/// machine's local offset. Which offset that is cannot be promised, but its
/// shape can: with the zulu shorthand disabled, chrono always ends the
/// string with a sign, zero-padded two-digit hours, a colon and two-digit
/// minutes.
#[verifier::external_body]
pub(crate) fn local_timestamp() -> (r: String)
    ensures
        spec_has_numeric_offset(r@),
{
    chrono::Local::now().to_rfc3339_opts(chrono::SecondsFormat::Secs, false)
}

} // verus!
