//! Fixed-point arithmetic for canvas coordinates.
//!
//! Canvas coordinates are held as `i64` counts of one thousandth of a canvas
//! unit, so geometric constants such as a 1.5-unit arrow head, a 2-unit line
//! inset or a 0.001-unit degeneracy threshold stay exact in integer
//! arithmetic.  This module provides the two arithmetic primitives the
//! geometry needs beyond `+`, `-` and `*`: division that rounds toward zero
//! (the rounding rule used throughout the canvas), and the integer square
//! root used to normalize direction vectors.

use vstd::prelude::*;
use vstd::arithmetic::div_mod::{
    lemma_div_by_multiple,
    lemma_div_is_ordered,
    lemma_div_nonincreasing,
    lemma_div_pos_is_pos,
};
use vstd::arithmetic::mul::lemma_mul_strict_upper_bound;

verus! {

/// Number of fixed-point steps in one canvas unit.
pub const UNIT: i64 = 1000;

/// Division rounded toward zero, as a mathematical function.
///
/// For a non-negative dividend this is plain Euclidean division; for a
/// negative dividend the magnitude is divided and the sign restored.
pub open spec fn div_trunc(a: int, b: int) -> int
    recommends
        b > 0,
{
    if a >= 0 {
        a / b
    } else {
        -((-a) / b)
    }
}

/// Quotient of `a` and `b` rounded toward zero.
pub fn div_q(a: i64, b: i64) -> (r: i64)
    requires
        b > 0,
    ensures
        r == div_trunc(a as int, b as int),
{
    proof {
        if a >= 0 {
            lemma_div_is_ordered_wrt_divisor(a as int, b as int);
        } else {
            lemma_div_is_ordered_wrt_divisor(-(a as int), b as int);
        }
    }
    match a.checked_div(b) {
        Some(q) => q,
        None => 0,
    }
}

/// A non-negative dividend never grows under division by a positive divisor.
proof fn lemma_div_is_ordered_wrt_divisor(a: int, b: int)
    requires
        a >= 0,
        b >= 1,
    ensures
        0 <= a / b <= a,
{
    lemma_div_pos_is_pos(a, b);
    lemma_div_nonincreasing(a, b);
}

/// A bound on the operands of a product bounds the product.
pub proof fn lemma_square_bound(x: int, b: int)
    by (nonlinear_arith)
    requires
        -b <= x <= b,
        0 <= b,
    ensures
        0 <= x * x <= b * b,
{
}

/// A quotient rounded toward zero is bounded by the quotient of a bound.
pub proof fn lemma_div_trunc_bound(a: int, b: int, m: int)
    requires
        b >= 1,
        m >= 0,
        -(b * m) <= a <= b * m,
    ensures
        -m <= div_trunc(a, b) <= m,
{
    vstd::arithmetic::mul::lemma_mul_is_commutative(b, m);
    lemma_div_by_multiple(m, b);
    if a >= 0 {
        lemma_div_pos_is_pos(a, b);
        lemma_div_is_ordered(a, b * m, b);
    } else {
        lemma_div_pos_is_pos(-a, b);
        lemma_div_is_ordered(-a, b * m, b);
    }
}

/// Halving by truncation loses at most one from the doubled value.
pub proof fn lemma_div_trunc_half(s: int)
    ensures
        s - 1 <= 2 * div_trunc(s, 2) <= s + 1,
{
    if s >= 0 {
        vstd::arithmetic::div_mod::lemma_fundamental_div_mod(s, 2);
    } else {
        vstd::arithmetic::div_mod::lemma_fundamental_div_mod(-s, 2);
    }
}

/// A component of a vector is no longer than the rounded length of the
/// vector.
pub proof fn lemma_component_bound(x: int, n: int, r: int)
    by (nonlinear_arith)
    requires
        x * x <= n,
        n < (r + 1) * (r + 1),
        0 <= r,
    ensures
        -r <= x <= r,
{
}

/// A nonzero integer has a square of at least one.
pub proof fn lemma_square_pos(x: int)
    by (nonlinear_arith)
    requires
        x != 0,
    ensures
        x * x >= 1,
{
}

/// Bounds on both operands bound their product, whatever the signs.
pub proof fn lemma_mul_bound_signed(x: int, bx: int, y: int, by: int)
    by (nonlinear_arith)
    requires
        -bx <= x <= bx,
        -by <= y <= by,
        0 <= bx,
        0 <= by,
    ensures
        -(bx * by) <= x * y <= bx * by,
{
}

/// `r` is the floor of the square root of `n`.
pub open spec fn is_sqrt_floor(n: int, r: int) -> bool {
    &&& 0 <= r
    &&& r * r <= n
    &&& n < (r + 1) * (r + 1)
}

/// The floor of the square root of a non-negative `n`.
pub open spec fn sqrt_floor(n: int) -> int {
    choose|r: int| is_sqrt_floor(n, r)
}

/// The floor of the square root is unique.
pub proof fn lemma_sqrt_floor_unique(n: int, r1: int, r2: int)
    by (nonlinear_arith)
    requires
        is_sqrt_floor(n, r1),
        is_sqrt_floor(n, r2),
    ensures
        r1 == r2,
{
}

/// Relates a witness to the `sqrt_floor` function.
pub proof fn lemma_sqrt_floor_is(n: int, r: int)
    requires
        is_sqrt_floor(n, r),
    ensures
        sqrt_floor(n) == r,
{
    assert(is_sqrt_floor(n, sqrt_floor(n)));
    lemma_sqrt_floor_unique(n, r, sqrt_floor(n));
}

/// Integer square root, rounded down.
pub fn isqrt(n: u64) -> (r: u64)
    requires
        n < 9_000_000_000_000_000_000,  // (3_000_000_000)^2, the search cap
    ensures
        r as int == sqrt_floor(n as int),
        is_sqrt_floor(n as int, r as int),
        r <= 3_000_000_000,
{
    let mut lo: u64 = 0;
    let mut hi: u64 = 3_000_000_000;
    assert((3_000_000_000int) * (3_000_000_000int) == 9_000_000_000_000_000_000int);
    while lo + 1 < hi
        invariant
            0 <= lo < hi <= 3_000_000_000,
            (lo as int) * (lo as int) <= n as int,
            (n as int) < (hi as int) * (hi as int),
        decreases hi - lo,
    {
        let mid = lo + (hi - lo) / 2;
        assert(lo < mid < hi);
        proof {
            lemma_mul_strict_upper_bound(
                mid as int,
                3_000_000_001,
                mid as int,
                3_000_000_001,
            );
        }
        if mid * mid <= n {
            lo = mid;
        } else {
            hi = mid;
        }
    }
    proof {
        lemma_sqrt_floor_is(n as int, lo as int);
    }
    lo
}

} // verus!
