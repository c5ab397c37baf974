//! Decimal rendering of integers, used to build the textual form of a
//! [`crate::Blob`] shape.
//!
//! The spec functions here say, character by character, what the decimal
//! form of a number is; the executable functions append exactly that form to
//! a string.

use vstd::prelude::*;

verus! {

/// The decimal digit character for a value below ten.
pub open spec fn spec_digit_char(d: nat) -> char {
    if d == 0 {
        '0'
    } else if d == 1 {
        '1'
    } else if d == 2 {
        '2'
    } else if d == 3 {
        '3'
    } else if d == 4 {
        '4'
    } else if d == 5 {
        '5'
    } else if d == 6 {
        '6'
    } else if d == 7 {
        '7'
    } else if d == 8 {
        '8'
    } else {
        '9'
    }
}

/// The decimal rendering of a natural number, most significant digit first,
/// with no sign and no leading zeros (zero itself renders as "0").
pub open spec fn spec_dec_nat(n: nat) -> Seq<char>
    decreases n,
{
    if n < 10 {
        seq![spec_digit_char(n)]
    } else {
        spec_dec_nat(n / 10) + seq![spec_digit_char(n % 10)]
    }
}

/// The decimal rendering of a signed integer: a leading '-' for negative
/// values, followed by the rendering of the magnitude.
pub open spec fn spec_dec_int(v: int) -> Seq<char> {
    if v < 0 {
        seq!['-'] + spec_dec_nat((-v) as nat)
    } else {
        spec_dec_nat(v as nat)
    }
}

/// Relies on `String::push`: appends the given character to the end of the
/// string, so the new view is the old view with that character pushed.
#[verifier::external_body]
pub(crate) fn push_char(s: &mut String, c: char)
    ensures
        final(s)@ == old(s)@.push(c),
{
    s.push(c)
}

/// The digit character for a value below ten.
fn digit_char(d: usize) -> (c: char)
    requires
        d < 10,
    ensures
        c == spec_digit_char(d as nat),
{
    if d == 0 {
        '0'
    } else if d == 1 {
        '1'
    } else if d == 2 {
        '2'
    } else if d == 3 {
        '3'
    } else if d == 4 {
        '4'
    } else if d == 5 {
        '5'
    } else if d == 6 {
        '6'
    } else if d == 7 {
        '7'
    } else if d == 8 {
        '8'
    } else {
        '9'
    }
}

/// Appends the decimal rendering of `n` to `s`.
pub fn push_dec_usize(s: &mut String, n: usize)
    ensures
        final(s)@ == old(s)@ + spec_dec_nat(n as nat),
    decreases n,
{
    let ghost pre = s@;
    if n >= 10 {
        push_dec_usize(s, n / 10);
    }
    let c = digit_char(n % 10);
    push_char(s, c);
    proof {
        assert(s@ =~= pre + spec_dec_nat(n as nat));
    }
}

/// Appends the decimal rendering of `v` to `s`, with a leading '-' for
/// negative values.
pub fn push_dec_isize(s: &mut String, v: isize)
    ensures
        final(s)@ == old(s)@ + spec_dec_int(v as int),
{
    let ghost pre = s@;
    if v < 0 {
        push_char(s, '-');
        let wide: i128 = v as i128;
        let magnitude: usize = (-wide) as usize;
        assert(magnitude as int == -(v as int));
        push_dec_usize(s, magnitude);
        assert(s@ =~= pre + spec_dec_int(v as int));
    } else {
        push_dec_usize(s, v as usize);
        assert(s@ =~= pre + spec_dec_int(v as int));
    }
}

} // verus!
