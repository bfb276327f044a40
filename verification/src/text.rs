//! Building the short ASCII texts that the user interface shows: decimal and
//! hexadecimal numbers, and string comparison.

use vstd::prelude::*;

verus! {

/// The character of a digit below sixteen: `0`-`9`, then `A`-`F`.
pub open spec fn digit_char(d: nat) -> char {
    if d < 10 {
        (('0' as nat) + d) as char
    } else {
        (('A' as nat) + d - 10) as char
    }
}

/// `n` written in decimal, without leading zeros.
pub open spec fn decimal_text(n: nat) -> Seq<char>
    decreases n,
{
    if n < 10 {
        seq![digit_char(n)]
    } else {
        decimal_text(n / 10).push(digit_char(n % 10))
    }
}

/// `n` written in upper-case hexadecimal, without leading zeros.
pub open spec fn hex_text(n: nat) -> Seq<char>
    decreases n,
{
    if n < 16 {
        seq![digit_char(n)]
    } else {
        hex_text(n / 16).push(digit_char(n % 16))
    }
}

/// `n` in upper-case hexadecimal, padded with zeros to at least two digits.
pub open spec fn hex_text_two(n: nat) -> Seq<char> {
    if n < 16 {
        seq!['0', digit_char(n)]
    } else {
        hex_text(n)
    }
}

/// Calls `String::push`. The contract claims what its documentation says:
/// the string afterwards holds its old characters followed by `c`.
#[verifier::external_body]
pub(crate) fn push_char(s: &mut String, c: char)
    ensures
        final(s)@ == old(s)@.push(c),
{
    s.push(c);
}

fn digit(d: u32) -> (c: char)
    requires
        d < 16,
    ensures
        c == digit_char(d as nat),
{
    if d < 10 {
        (('0' as u8) + (d as u8)) as char
    } else {
        (('A' as u8) + (d as u8) - 10) as char
    }
}

/// Appends `n` in decimal.
pub fn push_decimal(s: &mut String, n: u32)
    ensures
        final(s)@ == old(s)@ + decimal_text(n as nat),
    decreases n,
{
    if n >= 10 {
        push_decimal(s, n / 10);
    }
    push_char(s, digit(n % 10));
    proof {
        assert(old(s)@ + decimal_text(n as nat) =~= s@);
    }
}

/// Appends `n` in upper-case hexadecimal.
pub fn push_hex(s: &mut String, n: u32)
    ensures
        final(s)@ == old(s)@ + hex_text(n as nat),
    decreases n,
{
    if n >= 16 {
        push_hex(s, n / 16);
    }
    push_char(s, digit(n % 16));
    proof {
        assert(old(s)@ + hex_text(n as nat) =~= s@);
    }
}

/// Appends `n` in upper-case hexadecimal, padded to at least two digits.
pub fn push_hex_two(s: &mut String, n: u32)
    ensures
        final(s)@ == old(s)@ + hex_text_two(n as nat),
{
    if n < 16 {
        push_char(s, '0');
    }
    push_hex(s, n);
    proof {
        assert(old(s)@ + hex_text_two(n as nat) =~= s@);
    }
}

/// Whether two strings hold the same characters.
pub fn same_text(a: &str, b: &str) -> (res: bool)
    ensures
        res == (a@ == b@),
{
    let a_owned = String::from_str(a);
    let b_owned = String::from_str(b);
    a_owned == b_owned
}

} // verus!
