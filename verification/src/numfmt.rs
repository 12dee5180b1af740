//! Decimal rendering of the integers that appear in rendered lines.

use vstd::prelude::*;

verus! {

/// The decimal digit character for a value below ten.
pub open spec fn digit_char(d: int) -> char {
    if d == 0 {
        '0'
    } else if d == 1 {
        '1'
    } else if d == 2 {
        '2'
    } else if d == 3 {
        '3'
    } else if d == 4 {
        '4'
    } else if d == 5 {
        '5'
    } else if d == 6 {
        '6'
    } else if d == 7 {
        '7'
    } else if d == 8 {
        '8'
    } else {
        '9'
    }
}

/// Whether `c` is a decimal digit character.
pub open spec fn is_dec_digit(c: char) -> bool {
    '0' <= c && c <= '9'
}

/// The usual decimal representation of `n >= 0`: most significant digit
/// first, no leading zeros except for zero itself.
pub open spec fn dec_spec(n: int) -> Seq<char>
    decreases n,
{
    if n < 10 {
        seq![digit_char(n)]
    } else {
        dec_spec(n / 10).push(digit_char(n % 10))
    }
}

/// Ten to the power `d`, for bounding decimal lengths.
pub open spec fn spec_pow10(d: int) -> int
    decreases d,
{
    if d <= 0 {
        1
    } else {
        10 * spec_pow10(d - 1)
    }
}

/// A value below `10^d` needs at most `d` decimal digits.
pub proof fn lemma_dec_spec_len(n: int, d: int)
    requires
        0 <= n,
        1 <= d,
        n < spec_pow10(d),
    ensures
        dec_spec(n).len() <= d,
    decreases d,
{
    if n >= 10 {
        assert(spec_pow10(0) == 1);
        assert(spec_pow10(1) == 10);
        vstd::arithmetic::div_mod::lemma_fundamental_div_mod(n, 10);
        vstd::arithmetic::div_mod::lemma_mod_division_less_than_divisor(n, 10);
        lemma_dec_spec_len(n / 10, d - 1);
    }
}

/// The one-character string for a decimal digit value.
pub fn digit_str(d: u8) -> (s: &'static str)
    requires
        d < 10,
    ensures
        s@ == seq![digit_char(d as int)],
{
    proof {
        reveal_strlit("0");
        reveal_strlit("1");
        reveal_strlit("2");
        reveal_strlit("3");
        reveal_strlit("4");
        reveal_strlit("5");
        reveal_strlit("6");
        reveal_strlit("7");
        reveal_strlit("8");
        reveal_strlit("9");
    }
    let s: &'static str = match d {
        0 => "0",
        1 => "1",
        2 => "2",
        3 => "3",
        4 => "4",
        5 => "5",
        6 => "6",
        7 => "7",
        8 => "8",
        _ => "9",
    };
    proof {
        assert(s@ =~= seq![digit_char(d as int)]);
    }
    s
}

/// Renders `n` in decimal, most significant digit first.
pub fn u64_to_string(n: u64) -> (s: String)
    ensures
        s@ == dec_spec(n as int),
    decreases n,
{
    if n < 10 {
        let s = digit_str(n as u8).to_owned();
        proof {
            assert(s@ =~= dec_spec(n as int));
        }
        s
    } else {
        let mut s = u64_to_string(n / 10);
        s.append(digit_str((n % 10) as u8));
        proof {
            assert(s@ =~= dec_spec(n as int));
        }
        s
    }
}

/// Renders `n` in decimal, most significant digit first.
pub fn u16_to_string(n: u16) -> (s: String)
    ensures
        s@ == dec_spec(n as int),
{
    u64_to_string(n as u64)
}

} // verus!
