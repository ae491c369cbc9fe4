//! Byte counts written in mebibytes with two decimal places.

use vstd::prelude::*;
use vstd::string::StringExecFns;

verus! {

/// The number of bytes in one mebibyte.
pub const MEBIBYTE: u64 = 1048576;

/// `size` in hundredths of a mebibyte, rounded to the nearest; a value that
/// lies exactly between two hundredths goes to the even one.
pub open spec fn spec_hundredths(size: u64) -> nat {
    let scaled = size as nat * 100;
    let quotient = scaled / (MEBIBYTE as nat);
    let rest = scaled % (MEBIBYTE as nat);
    if 2 * rest > MEBIBYTE || (2 * rest == MEBIBYTE && quotient % 2 == 1) {
        quotient + 1
    } else {
        quotient
    }
}

/// The character that writes the digit `d`.
pub open spec fn spec_digit_char(d: nat) -> char
    recommends
        d < 10,
{
    (('0' as u8) + (d as u8)) as char
}

/// `n` written in base ten, without leading zeros.
pub open spec fn spec_decimal_text(n: nat) -> Seq<char>
    decreases n,
{
    if n < 10 {
        seq![spec_digit_char(n)]
    } else {
        spec_decimal_text(n / 10).push(spec_digit_char(n % 10))
    }
}

/// `size` written in mebibytes: the whole part, a point, and two decimals.
pub open spec fn spec_mebibytes_text(size: u64) -> Seq<char> {
    let h = spec_hundredths(size);
    spec_decimal_text(h / 100) + seq!['.', spec_digit_char(h / 10 % 10), spec_digit_char(h % 10)]
}

/// Computes `size` in hundredths of a mebibyte, rounding half to even.
pub fn hundredths(size: u64) -> (r: u64)
    ensures
        r == spec_hundredths(size),
{
    let scaled: u128 = (size as u128) * 100;
    let quotient: u128 = scaled / 1048576;
    let rest: u128 = scaled % 1048576;
    let rounded: u128 = if 2 * rest > 1048576 || (2 * rest == 1048576 && quotient % 2 == 1) {
        quotient + 1
    } else {
        quotient
    };
    rounded as u64
}

/// The text of one decimal digit.
fn digit_text(d: u64) -> (r: &'static str)
    requires
        d < 10,
    ensures
        r@ == seq![spec_digit_char(d as nat)],
{
    proof {
        reveal_strlit("0");
        reveal_strlit("1");
        reveal_strlit("2");
        reveal_strlit("3");
        reveal_strlit("4");
        reveal_strlit("5");
        reveal_strlit("6");
        reveal_strlit("7");
        reveal_strlit("8");
        reveal_strlit("9");
    }
    let r = if d == 0 {
        "0"
    } else if d == 1 {
        "1"
    } else if d == 2 {
        "2"
    } else if d == 3 {
        "3"
    } else if d == 4 {
        "4"
    } else if d == 5 {
        "5"
    } else if d == 6 {
        "6"
    } else if d == 7 {
        "7"
    } else if d == 8 {
        "8"
    } else {
        "9"
    };
    assert(r@ =~= seq![spec_digit_char(d as nat)]);
    r
}

/// Appends `n`, written in base ten, to `out`.
pub fn push_decimal(out: &mut String, n: u64)
    ensures
        final(out)@ == old(out)@ + spec_decimal_text(n as nat),
    decreases n,
{
    if n >= 10 {
        push_decimal(out, n / 10);
    }
    out.append(digit_text(n % 10));
    assert(out@ =~= old(out)@ + spec_decimal_text(n as nat));
}

/// Writes `size` in mebibytes with two decimal places.
pub fn mebibytes_text(size: u64) -> (r: String)
    ensures
        r@ == spec_mebibytes_text(size),
{
    let h: u64 = hundredths(size);
    let mut out = String::new();
    push_decimal(&mut out, h / 100);
    out.append(".");
    out.append(digit_text(h / 10 % 10));
    out.append(digit_text(h % 10));
    proof {
        reveal_strlit(".");
        assert(out@ =~= spec_mebibytes_text(size));
    }
    out
}

} // verus!
