//! Decimal rendering of unsigned integers, used for duration displays.

use vstd::prelude::*;

verus! {

/// The character for a single decimal digit value.
pub open spec fn spec_digit_char(d: int) -> char {
    ((d + 48) as u8) as char
}

/// The decimal representation of a non-negative integer, most significant
/// digit first, with no leading zeros (except for the number zero itself).
pub open spec fn spec_u64_digits(n: int) -> Seq<char>
    decreases n,
{
    if n < 10 {
        seq![spec_digit_char(n)]
    } else {
        spec_u64_digits(n / 10).push(spec_digit_char(n % 10))
    }
}

/// Relies on String::push (std): appends one character to the string.
#[verifier::external_body]
pub(crate) fn push_char(s: &mut String, c: char)
    ensures
        final(s)@ == old(s)@.push(c),
{
    s.push(c)
}

/// Renders a number in decimal.
pub fn u64_to_string(n: u64) -> (s: String)
    ensures
        s@ == spec_u64_digits(n as int),
    decreases n,
{
    let d: u8 = (n % 10) as u8;
    let c: char = (48u8 + d) as char;
    if n < 10 {
        let mut s = String::new();
        push_char(&mut s, c);
        proof {
            assert(s@ =~= seq![spec_digit_char(n as int)]);
        }
        s
    } else {
        let mut s = u64_to_string(n / 10);
        push_char(&mut s, c);
        s
    }
}

} // verus!
