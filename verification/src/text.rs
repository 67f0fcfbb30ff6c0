//! Canonical text forms of numbers: four lower-case hexadecimal digits for
//! 16-bit identifiers and plain decimal for version numbers.

use vstd::prelude::*;
use vstd::string::StringExecFns;

verus! {

/// The text of one digit in base 16, lower case. Values above 15 have no digit
/// and are given the text of 15.
pub open spec fn digit_text(d: int) -> Seq<char> {
    if d <= 0 {
        "0"@
    } else if d == 1 {
        "1"@
    } else if d == 2 {
        "2"@
    } else if d == 3 {
        "3"@
    } else if d == 4 {
        "4"@
    } else if d == 5 {
        "5"@
    } else if d == 6 {
        "6"@
    } else if d == 7 {
        "7"@
    } else if d == 8 {
        "8"@
    } else if d == 9 {
        "9"@
    } else if d == 10 {
        "a"@
    } else if d == 11 {
        "b"@
    } else if d == 12 {
        "c"@
    } else if d == 13 {
        "d"@
    } else if d == 14 {
        "e"@
    } else {
        "f"@
    }
}

/// A 16-bit value as exactly four hexadecimal digits, most significant first.
pub open spec fn hex4(v: u16) -> Seq<char> {
    digit_text(v as int / 4096) + digit_text((v as int / 256) % 16) + digit_text(
        (v as int / 16) % 16,
    ) + digit_text(v as int % 16)
}

/// A natural number in decimal, without leading zeros.
pub open spec fn decimal(n: nat) -> Seq<char>
    decreases n,
{
    if n < 10 {
        digit_text(n as int)
    } else {
        decimal(n / 10) + digit_text((n % 10) as int)
    }
}

/// Every digit is one character long.
pub proof fn lemma_digit_text_len(d: int)
    ensures
        digit_text(d).len() == 1,
{
    reveal_strlit("0");
    reveal_strlit("1");
    reveal_strlit("2");
    reveal_strlit("3");
    reveal_strlit("4");
    reveal_strlit("5");
    reveal_strlit("6");
    reveal_strlit("7");
    reveal_strlit("8");
    reveal_strlit("9");
    reveal_strlit("a");
    reveal_strlit("b");
    reveal_strlit("c");
    reveal_strlit("d");
    reveal_strlit("e");
    reveal_strlit("f");
}

/// The hexadecimal form of a 16-bit value always has four characters.
pub proof fn lemma_hex4_len(v: u16)
    ensures
        hex4(v).len() == 4,
{
    lemma_digit_text_len(v as int / 4096);
    lemma_digit_text_len((v as int / 256) % 16);
    lemma_digit_text_len((v as int / 16) % 16);
    lemma_digit_text_len(v as int % 16);
}

/// The text of a digit.
pub fn digit_str(d: u8) -> (r: &'static str)
    ensures
        r@ == digit_text(d as int),
{
    if d == 0 {
        "0"
    } else if d == 1 {
        "1"
    } else if d == 2 {
        "2"
    } else if d == 3 {
        "3"
    } else if d == 4 {
        "4"
    } else if d == 5 {
        "5"
    } else if d == 6 {
        "6"
    } else if d == 7 {
        "7"
    } else if d == 8 {
        "8"
    } else if d == 9 {
        "9"
    } else if d == 10 {
        "a"
    } else if d == 11 {
        "b"
    } else if d == 12 {
        "c"
    } else if d == 13 {
        "d"
    } else if d == 14 {
        "e"
    } else {
        "f"
    }
}

/// Appends the four hexadecimal digits of `v` to `out`.
pub fn push_hex4(out: &mut String, v: u16)
    ensures
        final(out)@ == old(out)@ + hex4(v),
{
    let d3: u8 = (v / 4096) as u8;
    let d2: u8 = ((v / 256) % 16) as u8;
    let d1: u8 = ((v / 16) % 16) as u8;
    let d0: u8 = (v % 16) as u8;
    out.append(digit_str(d3));
    out.append(digit_str(d2));
    out.append(digit_str(d1));
    out.append(digit_str(d0));
    assert(out@ =~= old(out)@ + hex4(v));
}

/// Appends the decimal form of `v` to `out`.
pub fn push_decimal(out: &mut String, v: u32)
    ensures
        final(out)@ == old(out)@ + decimal(v as nat),
    decreases v,
{
    if v >= 10 {
        push_decimal(out, v / 10);
    }
    out.append(digit_str((v % 10) as u8));
    assert(out@ =~= old(out)@ + decimal(v as nat));
}

} // verus!
