//! Building strings character by character: decimal numerals.

use vstd::prelude::*;

verus! {

/// The digit character of `d`, for `d` in `0..=9`.
pub open spec fn digit_char(d: nat) -> char {
    (48 + d) as char
}

/// Decimal numeral of `x`, most significant digit first, with no leading zero.
pub open spec fn decimal(x: nat) -> Seq<char>
    decreases x,
{
    if x < 10 {
        seq![digit_char(x)]
    } else {
        decimal(x / 10).push(digit_char(x % 10))
    }
}

/// The numeral that `{:+}` writes for `m`: a sign, always present, then `|m|`.
pub open spec fn signed_decimal(m: int) -> Seq<char> {
    if m >= 0 {
        seq!['+'] + decimal(m as nat)
    } else {
        seq!['-'] + decimal((-m) as nat)
    }
}

/// `String::push`: appends the character `c` at the end of `s`.
#[verifier::external_body]
pub(crate) fn push_char(s: &mut String, c: char)
    ensures
        final(s)@ == old(s)@.push(c),
{
    s.push(c);
}

/// Appends the decimal numeral of `x` to `s`.
pub fn push_decimal(s: &mut String, x: u32)
    ensures
        final(s)@ == old(s)@ + decimal(x as nat),
    decreases x,
{
    if x >= 10 {
        push_decimal(s, x / 10);
    }
    let d: u8 = (x % 10) as u8;
    let c: char = (48u8 + d) as char;
    push_char(s, c);
}

/// Appends `m` as `{:+}` writes it: `+` or `-`, then the digits of `|m|`.
pub fn push_signed(s: &mut String, m: i32)
    ensures
        final(s)@ == old(s)@ + signed_decimal(m as int),
{
    let magnitude: u32 = if m >= 0 {
        push_char(s, '+');
        m as u32
    } else {
        push_char(s, '-');
        (-(m as i64)) as u32
    };
    push_decimal(s, magnitude);
}

} // verus!
