//! Verified decimal formatting of integers and fixed-point coordinates,
//! used when writing markup attributes.

use vstd::prelude::*;
use vstd::arithmetic::div_mod::lemma_fundamental_div_mod;

verus! {

/// The ASCII digit for a value below ten.
pub open spec fn digit_char(d: int) -> char {
    if d == 0 {
        '0'
    } else if d == 1 {
        '1'
    } else if d == 2 {
        '2'
    } else if d == 3 {
        '3'
    } else if d == 4 {
        '4'
    } else if d == 5 {
        '5'
    } else if d == 6 {
        '6'
    } else if d == 7 {
        '7'
    } else if d == 8 {
        '8'
    } else {
        '9'
    }
}

/// The decimal digits of `n`, most significant first, without a sign and
/// without leading zeros (a single `'0'` for zero).
pub open spec fn dec_digits(n: nat) -> Seq<char>
    decreases n,
{
    if n < 10 {
        seq![digit_char(n as int)]
    } else {
        dec_digits(n / 10) + seq![digit_char((n % 10) as int)]
    }
}

/// The rendering of a subunit count as a decimal document-space number:
/// optional minus sign, whole units, a dot, and exactly three fractional
/// digits.
pub open spec fn fixed_chars(sub: int) -> Seq<char> {
    let a = if sub < 0 {
        -sub
    } else {
        sub
    };
    let sign: Seq<char> = if sub < 0 {
        seq!['-']
    } else {
        Seq::empty()
    };
    let units = a / 1000;
    let frac = a % 1000;
    sign + dec_digits(units as nat) + seq!['.'] + seq![
        digit_char(frac / 100),
        digit_char((frac / 10) % 10),
        digit_char(frac % 10),
    ]
}

/// Appends the digit `d` (below ten) to `out`.
fn append_digit(out: &mut String, d: u64)
    requires
        d < 10,
    ensures
        final(out)@ == old(out)@ + seq![digit_char(d as int)],
{
    proof {
        reveal_strlit("0");
        reveal_strlit("1");
        reveal_strlit("2");
        reveal_strlit("3");
        reveal_strlit("4");
        reveal_strlit("5");
        reveal_strlit("6");
        reveal_strlit("7");
        reveal_strlit("8");
        reveal_strlit("9");
    }
    if d == 0 {
        out.append("0");
    } else if d == 1 {
        out.append("1");
    } else if d == 2 {
        out.append("2");
    } else if d == 3 {
        out.append("3");
    } else if d == 4 {
        out.append("4");
    } else if d == 5 {
        out.append("5");
    } else if d == 6 {
        out.append("6");
    } else if d == 7 {
        out.append("7");
    } else if d == 8 {
        out.append("8");
    } else {
        out.append("9");
    }
    proof {
        assert(final(out)@ =~= old(out)@ + seq![digit_char(d as int)]);
    }
}

/// Appends the decimal digits of `n` to `out`.
pub fn append_u64(out: &mut String, n: u64)
    ensures
        final(out)@ == old(out)@ + dec_digits(n as nat),
    decreases n,
{
    if n >= 10 {
        append_u64(out, n / 10);
    }
    append_digit(out, n % 10);
    proof {
        if n < 10 {
            assert(n % 10 == n) by (nonlinear_arith)
                requires
                    n < 10,
            {
            }
        } else {
            assert(final(out)@ =~= old(out)@ + dec_digits(n as nat));
        }
    }
}

/// Appends the decimal rendering of `sub` subunits (three fractional
/// digits) to `out`.
pub fn append_fixed(out: &mut String, sub: i64)
    requires
        -i64::MAX <= sub,
    ensures
        final(out)@ == old(out)@ + fixed_chars(sub as int),
{
    let a: u64 = if sub < 0 {
        proof {
            reveal_strlit("-");
        }
        out.append("-");
        (-sub) as u64
    } else {
        sub as u64
    };
    let units: u64 = a / 1000;
    let frac: u64 = a % 1000;
    append_u64(out, units);
    proof {
        reveal_strlit(".");
        lemma_fundamental_div_mod(frac as int, 100);
        lemma_fundamental_div_mod(frac as int, 10);
    }
    out.append(".");
    append_digit(out, frac / 100);
    append_digit(out, (frac / 10) % 10);
    append_digit(out, frac % 10);
    proof {
        assert(final(out)@ =~= old(out)@ + fixed_chars(sub as int));
    }
}

} // verus!
