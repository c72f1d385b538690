//! Writing a byte count as the most precise and nearest ISO size that fits
//! in four characters, from plain digits through " kB" up to " PB".

use vstd::prelude::*;

verus! {

pub open spec fn digit_char(d: int) -> char {
    if d == 0 {
        '0'
    } else if d == 1 {
        '1'
    } else if d == 2 {
        '2'
    } else if d == 3 {
        '3'
    } else if d == 4 {
        '4'
    } else if d == 5 {
        '5'
    } else if d == 6 {
        '6'
    } else if d == 7 {
        '7'
    } else if d == 8 {
        '8'
    } else {
        '9'
    }
}

/// The decimal digits of `n`, most significant first.
pub open spec fn dec_digits(n: nat) -> Seq<char>
    decreases n,
{
    if n < 10 {
        seq![digit_char(n as int)]
    } else {
        dec_digits(n / 10) + seq![digit_char((n % 10) as int)]
    }
}

/// `n / unit` rounded to the nearest whole number, ties to even.
pub open spec fn round_half_even_s(n: nat, unit: nat) -> nat {
    let q = n / unit;
    let r = n % unit;
    if 2 * r > unit {
        q + 1
    } else if 2 * r < unit {
        q
    } else {
        q + q % 2
    }
}

/// A value in tenths written with one decimal place.
pub open spec fn with_tenths(t: nat) -> Seq<char> {
    dec_digits(t / 10) + "."@ + seq![digit_char((t % 10) as int)]
}

/// What `format_size` prints: the ranges pick the unit and whether one
/// decimal place still fits in four characters.
pub open spec fn format_size_s(size: nat) -> Seq<char> {
    if size <= 9999 {
        dec_digits(size)
    } else if size <= 999_499 {
        dec_digits(round_half_even_s(size, 1000)) + " kB"@
    } else if size <= 9_950_000 {
        with_tenths(round_half_even_s(size, 100_000)) + " MB"@
    } else if size <= 999_499_999 {
        dec_digits(round_half_even_s(size, 1_000_000)) + " MB"@
    } else if size <= 9_950_000_000 {
        with_tenths(round_half_even_s(size, 100_000_000)) + " GB"@
    } else if size <= 999_499_999_999 {
        dec_digits(round_half_even_s(size, 1_000_000_000)) + " GB"@
    } else if size <= 9_950_000_000_000 {
        with_tenths(round_half_even_s(size, 100_000_000_000)) + " TB"@
    } else if size <= 999_499_999_999_999 {
        dec_digits(round_half_even_s(size, 1_000_000_000_000)) + " TB"@
    } else if size <= 9_950_000_000_000_000 {
        with_tenths(round_half_even_s(size, 100_000_000_000_000)) + " PB"@
    } else if size <= 999_499_999_999_999_935 {
        dec_digits(round_half_even_s(size, 1_000_000_000_000_000)) + " PB"@
    } else {
        "huge"@
    }
}

fn digit_str(d: u64) -> (r: &'static str)
    requires
        d < 10,
    ensures
        r@ == seq![digit_char(d as int)],
{
    let r: &'static str = if d == 0 {
        proof {
            reveal_strlit("0");
        }
        "0"
    } else if d == 1 {
        proof {
            reveal_strlit("1");
        }
        "1"
    } else if d == 2 {
        proof {
            reveal_strlit("2");
        }
        "2"
    } else if d == 3 {
        proof {
            reveal_strlit("3");
        }
        "3"
    } else if d == 4 {
        proof {
            reveal_strlit("4");
        }
        "4"
    } else if d == 5 {
        proof {
            reveal_strlit("5");
        }
        "5"
    } else if d == 6 {
        proof {
            reveal_strlit("6");
        }
        "6"
    } else if d == 7 {
        proof {
            reveal_strlit("7");
        }
        "7"
    } else if d == 8 {
        proof {
            reveal_strlit("8");
        }
        "8"
    } else {
        proof {
            reveal_strlit("9");
        }
        "9"
    };
    proof {
        assert(r@ =~= seq![digit_char(d as int)]);
    }
    r
}

/// The decimal digits of `n`, most significant first.
pub fn u64_to_string(n: u64) -> (r: String)
    ensures
        r@ == dec_digits(n as nat),
    decreases n,
{
    if n < 10 {
        String::from_str(digit_str(n))
    } else {
        let mut s = u64_to_string(n / 10);
        s.append(digit_str(n % 10));
        s
    }
}

fn round_half_even(n: u64, unit: u64) -> (r: u64)
    requires
        2 <= unit <= 0x1000_0000_0000_0000,
    ensures
        r as nat == round_half_even_s(n as nat, unit as nat),
{
    let q = n / unit;
    let rem = n % unit;
    proof {
        vstd::arithmetic::div_mod::lemma_div_is_ordered_by_denominator(n as int, 2, unit as int);
    }
    if 2 * rem > unit {
        q + 1
    } else if 2 * rem < unit {
        q
    } else {
        q + q % 2
    }
}

fn append_tenths(t: u64) -> (r: String)
    ensures
        r@ == with_tenths(t as nat),
{
    let mut s = u64_to_string(t / 10);
    s.append(".");
    s.append(digit_str(t % 10));
    s
}

/// Produces the most precise and nearest ISO size writing that fits in
/// four characters.
pub fn format_size(size: u64) -> (r: String)
    ensures
        r@ == format_size_s(size as nat),
{
    if size <= 9999 {
        u64_to_string(size)
    } else if size <= 999_499 {
        let mut s = u64_to_string(round_half_even(size, 1000));
        s.append(" kB");
        s
    } else if size <= 9_950_000 {
        let mut s = append_tenths(round_half_even(size, 100_000));
        s.append(" MB");
        s
    } else if size <= 999_499_999 {
        let mut s = u64_to_string(round_half_even(size, 1_000_000));
        s.append(" MB");
        s
    } else if size <= 9_950_000_000 {
        let mut s = append_tenths(round_half_even(size, 100_000_000));
        s.append(" GB");
        s
    } else if size <= 999_499_999_999 {
        let mut s = u64_to_string(round_half_even(size, 1_000_000_000));
        s.append(" GB");
        s
    } else if size <= 9_950_000_000_000 {
        let mut s = append_tenths(round_half_even(size, 100_000_000_000));
        s.append(" TB");
        s
    } else if size <= 999_499_999_999_999 {
        let mut s = u64_to_string(round_half_even(size, 1_000_000_000_000));
        s.append(" TB");
        s
    } else if size <= 9_950_000_000_000_000 {
        let mut s = append_tenths(round_half_even(size, 100_000_000_000_000));
        s.append(" PB");
        s
    } else if size <= 999_499_999_999_999_935 {
        let mut s = u64_to_string(round_half_even(size, 1_000_000_000_000_000));
        s.append(" PB");
        s
    } else {
        String::from_str("huge")
    }
}

} // verus!
