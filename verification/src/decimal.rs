//! Verified rendering of unsigned integers as decimal strings.

use vstd::prelude::*;

verus! {

/// The character for one decimal digit.
pub open spec fn digit_char(d: nat) -> char {
    if d == 0 {
        '0'
    } else if d == 1 {
        '1'
    } else if d == 2 {
        '2'
    } else if d == 3 {
        '3'
    } else if d == 4 {
        '4'
    } else if d == 5 {
        '5'
    } else if d == 6 {
        '6'
    } else if d == 7 {
        '7'
    } else if d == 8 {
        '8'
    } else {
        '9'
    }
}

/// Decimal digits of `n`, most significant first, with no leading zeros
/// (a single zero for `n == 0`).
pub open spec fn dec_digits(n: nat) -> Seq<char>
    decreases n,
{
    if n < 10 {
        seq![digit_char(n)]
    } else {
        dec_digits(n / 10).push(digit_char(n % 10))
    }
}

/// Decimal digits of `n`, zero-padded on the left to at least four places,
/// as the `{:04}` format specifier renders it.
pub open spec fn dec_digits_pad4(n: nat) -> Seq<char> {
    if n < 10 {
        seq!['0', '0', '0'] + dec_digits(n)
    } else if n < 100 {
        seq!['0', '0'] + dec_digits(n)
    } else if n < 1000 {
        seq!['0'] + dec_digits(n)
    } else {
        dec_digits(n)
    }
}

/// Decimal digits of `n`, zero-padded on the left to at least two places,
/// as the `{:02}` format specifier renders it.
pub open spec fn dec_digits_pad2(n: nat) -> Seq<char> {
    if n < 10 {
        seq!['0'] + dec_digits(n)
    } else {
        dec_digits(n)
    }
}

/// One decimal digit as a string slice.
fn digit_str(d: u64) -> (r: &'static str)
    requires
        d < 10,
    ensures
        r@ =~= seq![digit_char(d as nat)],
{
    proof {
        reveal_strlit("0");
        reveal_strlit("1");
        reveal_strlit("2");
        reveal_strlit("3");
        reveal_strlit("4");
        reveal_strlit("5");
        reveal_strlit("6");
        reveal_strlit("7");
        reveal_strlit("8");
        reveal_strlit("9");
    }
    match d {
        0 => "0",
        1 => "1",
        2 => "2",
        3 => "3",
        4 => "4",
        5 => "5",
        6 => "6",
        7 => "7",
        8 => "8",
        _ => "9",
    }
}

/// Renders `n` in decimal.
pub fn u64_to_dec(n: u64) -> (r: String)
    ensures
        r@ == dec_digits(n as nat),
    decreases n,
{
    if n < 10 {
        let mut s = String::new();
        s.append(digit_str(n));
        proof {
            assert(s@ =~= dec_digits(n as nat));
        }
        s
    } else {
        let mut s = u64_to_dec(n / 10);
        s.append(digit_str(n % 10));
        proof {
            assert(s@ =~= dec_digits(n as nat));
        }
        s
    }
}

/// Renders `n` in decimal, zero-padded on the left to at least two places.
pub fn u64_to_dec_pad2(n: u64) -> (r: String)
    ensures
        r@ == dec_digits_pad2(n as nat),
{
    let mut s = String::new();
    proof {
        reveal_strlit("0");
    }
    if n < 10 {
        s.append("0");
        proof {
            assert(s@ =~= seq!['0']);
        }
    }
    let digits = u64_to_dec(n);
    s.append(digits.as_str());
    s
}

/// Renders `n` in decimal, zero-padded on the left to at least four places.
pub fn u64_to_dec_pad4(n: u64) -> (r: String)
    ensures
        r@ == dec_digits_pad4(n as nat),
{
    let mut s = String::new();
    proof {
        reveal_strlit("000");
        reveal_strlit("00");
        reveal_strlit("0");
    }
    if n < 10 {
        s.append("000");
        proof {
            assert(s@ =~= seq!['0', '0', '0']);
        }
    } else if n < 100 {
        s.append("00");
        proof {
            assert(s@ =~= seq!['0', '0']);
        }
    } else if n < 1000 {
        s.append("0");
        proof {
            assert(s@ =~= seq!['0']);
        }
    }
    let digits = u64_to_dec(n);
    s.append(digits.as_str());
    s
}

} // verus!
