//! Decimal rendering shared by the formatting helpers.
//!
//! Everything the formatting functions print is built from two pieces: the
//! plain decimal expansion of an unsigned integer, and a quotient shown with
//! exactly two decimal places.  The two-decimal form of `v / d` is defined
//! arithmetically: the value is scaled to hundredths and rounded half up,
//! `(200*v + d) / (2*d)`, then printed as `<whole>.<two digits>`.

use vstd::prelude::*;
use vstd::arithmetic::div_mod::lemma_div_is_ordered_by_denominator;
use vstd::string::StringExecFns;

verus! {

/// The character for a single decimal digit.
pub open spec fn digit_char(d: int) -> char {
    if d == 0 {
        '0'
    } else if d == 1 {
        '1'
    } else if d == 2 {
        '2'
    } else if d == 3 {
        '3'
    } else if d == 4 {
        '4'
    } else if d == 5 {
        '5'
    } else if d == 6 {
        '6'
    } else if d == 7 {
        '7'
    } else if d == 8 {
        '8'
    } else {
        '9'
    }
}

/// The decimal expansion of `n`, most significant digit first.
pub open spec fn spec_decimal(n: nat) -> Seq<char>
    decreases n,
{
    if n < 10 {
        seq![digit_char(n as int)]
    } else {
        spec_decimal(n / 10).push(digit_char((n % 10) as int))
    }
}

/// `v / d` scaled to hundredths and rounded half up.
pub open spec fn spec_centis(v: nat, d: nat) -> nat
    recommends
        d > 0,
{
    (200 * v + d) / (2 * d)
}

/// `v / d` printed with exactly two decimal places.
pub open spec fn spec_two_decimals(v: nat, d: nat) -> Seq<char>
    recommends
        d > 0,
{
    let c = spec_centis(v, d);
    spec_decimal(c / 100) + seq![
        '.',
        digit_char(((c % 100) / 10) as int),
        digit_char(((c % 100) % 10) as int),
    ]
}

/// The single-character string for a decimal digit.
fn digit_str(d: u64) -> (r: &'static str)
    requires
        d < 10,
    ensures
        r@ == seq![digit_char(d as int)],
{
    proof {
        reveal_strlit("0");
        reveal_strlit("1");
        reveal_strlit("2");
        reveal_strlit("3");
        reveal_strlit("4");
        reveal_strlit("5");
        reveal_strlit("6");
        reveal_strlit("7");
        reveal_strlit("8");
        reveal_strlit("9");
    }
    let r = match d {
        0 => "0",
        1 => "1",
        2 => "2",
        3 => "3",
        4 => "4",
        5 => "5",
        6 => "6",
        7 => "7",
        8 => "8",
        _ => "9",
    };
    proof {
        assert(r@ =~= seq![digit_char(d as int)]);
    }
    r
}

/// Appends the decimal expansion of `n` to `s`.
pub fn push_decimal(s: &mut String, n: u64)
    ensures
        final(s)@ == old(s)@ + spec_decimal(n as nat),
    decreases n,
{
    if n < 10 {
        s.append(digit_str(n));
    } else {
        push_decimal(s, n / 10);
        s.append(digit_str(n % 10));
        proof {
            assert(old(s)@ + spec_decimal((n / 10) as nat) + seq![
                digit_char((n % 10) as int),
            ] =~= old(s)@ + spec_decimal(n as nat));
        }
    }
}

/// Appends `v / d` with exactly two decimal places to `s`.
pub fn push_two_decimals(s: &mut String, v: u64, d: u64)
    requires
        1000 <= d <= 2_000_000_000,
    ensures
        final(s)@ == old(s)@ + spec_two_decimals(v as nat, d as nat),
{
    let num: u128 = 200 * (v as u128) + (d as u128);
    let den: u128 = 2 * (d as u128);
    let wide: u128 = num / den;
    proof {
        lemma_div_is_ordered_by_denominator(num as int, 2000, den as int);
        assert(num as int / 2000 < 0x1_0000_0000_0000_0000);
    }
    let c: u64 = wide as u64;
    assert(c as nat == spec_centis(v as nat, d as nat));
    push_decimal(s, c / 100);
    proof {
        reveal_strlit(".");
    }
    s.append(".");
    let cents = c % 100;
    s.append(digit_str(cents / 10));
    s.append(digit_str(cents % 10));
    proof {
        assert(old(s)@ + spec_decimal((c / 100) as nat) + "."@ + seq![
            digit_char((cents / 10) as int),
        ] + seq![digit_char((cents % 10) as int)] =~= old(s)@ + spec_two_decimals(
            v as nat,
            d as nat,
        ));
    }
}

} // verus!
