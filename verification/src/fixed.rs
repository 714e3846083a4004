//! Fixed-point scalars.
//!
//! A scalar is an `i64` counting millionths: the raw value `r` stands for the
//! number `r / UNIT`. Products and quotients are rounded toward zero to a whole
//! raw step, except that a result that is not zero never becomes zero: it
//! keeps one raw step and its sign. All results are clamped into the range of
//! `i64`.

use vstd::prelude::*;

verus! {

/// Raw value of the number one.
pub const UNIT: i64 = 1_000_000;

/// The nearest value to `v` that an `i64` can hold.
pub open spec fn clamp(v: int) -> int {
    if v < i64::MIN {
        i64::MIN as int
    } else if v > i64::MAX {
        i64::MAX as int
    } else {
        v
    }
}

/// The quotient of `a` by a positive `b`, rounded toward zero, but never to
/// zero: a quotient between zero and one in magnitude is one in magnitude.
pub open spec fn quot(a: int, b: int) -> int
    recommends
        b > 0,
{
    if a > 0 {
        if a < b {
            1
        } else {
            a / b
        }
    } else if a < 0 {
        if -a < b {
            -1
        } else {
            -((-a) / b)
        }
    } else {
        0
    }
}

/// `r` is the square root of `n`, rounded down.
pub open spec fn is_root(n: int, r: int) -> bool {
    0 <= r && r * r <= n < (r + 1) * (r + 1)
}

/// The square root of a non-negative `n`, rounded down.
pub open spec fn root(n: int) -> int {
    choose|r: int| is_root(n, r)
}

/// Saturating sum.
pub open spec fn spec_plus(a: i64, b: i64) -> i64 {
    clamp(a + b) as i64
}

/// Saturating difference.
pub open spec fn spec_minus(a: i64, b: i64) -> i64 {
    clamp(a - b) as i64
}

/// Saturating negation.
pub open spec fn spec_negate(a: i64) -> i64 {
    clamp(-a) as i64
}

/// Fixed-point product: the numbers `a / UNIT` and `b / UNIT` multiplied.
pub open spec fn spec_times(a: i64, b: i64) -> i64 {
    clamp(quot(a * b, UNIT as int)) as i64
}

/// Fixed-point quotient: the number `a / UNIT` divided by the positive number `b / UNIT`.
pub open spec fn spec_over(a: i64, b: i64) -> i64
    recommends
        b > 0,
{
    clamp(quot(a * UNIT, b as int)) as i64
}

/// The `n`-th part of `a`, for a positive whole number `n`.
pub open spec fn spec_nth_part(a: i64, n: i64) -> i64
    recommends
        n > 0,
{
    clamp(quot(a as int, n as int)) as i64
}

/// Length of the vector with components `a` and `b`.
pub open spec fn spec_hypot(a: i64, b: i64) -> i64 {
    clamp(root(a * a + b * b)) as i64
}

/// Squares grow with their non-negative argument.
pub proof fn lemma_square_grows(a: int, b: int)
    by (nonlinear_arith)
    requires
        0 <= a <= b,
    ensures
        a * a <= b * b,
{
}

/// At most one number is the rounded-down square root of `n`.
pub proof fn lemma_root_unique(n: int, r: int)
    requires
        is_root(n, r),
    ensures
        root(n) == r,
{
    let s = root(n);
    assert(is_root(n, s));
    if s < r {
        lemma_square_grows(s + 1, r);
    } else if r < s {
        lemma_square_grows(r + 1, s);
    }
}

/// Every non-negative number has a rounded-down square root.
pub proof fn lemma_root_exists(n: int)
    requires
        n >= 0,
    ensures
        is_root(n, root(n)),
    decreases n,
{
    if n == 0 {
        assert(is_root(0, 0));
    } else {
        lemma_root_exists(n - 1);
        let r = root(n - 1);
        assert((r + 2) * (r + 2) == (r + 1) * (r + 1) + 2 * r + 3) by (nonlinear_arith);
        if (r + 1) * (r + 1) <= n {
            assert(is_root(n, r + 1));
        } else {
            assert(is_root(n, r));
        }
    }
}

/// The length of a vector is the rounded-down root of the sum of its squared
/// components, as far as an `i64` reaches, and never negative.
pub proof fn lemma_hypot(a: i64, b: i64)
    ensures
        a * a + b * b >= 0,
        is_root(a * a + b * b, root(a * a + b * b)),
        spec_hypot(a, b) == clamp(root(a * a + b * b)),
        spec_hypot(a, b) >= 0,
        spec_hypot(a, b) == 0 <==> a == 0 && b == 0,
{
    assert(a * a >= 0 && (a != 0 ==> a * a > 0)) by (nonlinear_arith);
    assert(b * b >= 0 && (b != 0 ==> b * b > 0)) by (nonlinear_arith);
    lemma_root_exists(a * a + b * b);
    let r = root(a * a + b * b);
    if r == 0 {
        assert((r + 1) * (r + 1) == 1) by (nonlinear_arith)
            requires
                r == 0,
        ;
    } else {
        lemma_square_grows(1, r);
    }
}

/// Rounding: the quotient by a positive number lies less than one away from
/// the exact quotient, has the sign of what is divided, is zero only for zero,
/// and is no larger in magnitude than what is divided.
pub proof fn law_quot_is_close(a: int, b: int)
    by (nonlinear_arith)
    requires
        b > 0,
    ensures
        b * (quot(a, b) - 1) < a < b * (quot(a, b) + 1),
        a > 0 ==> 0 < quot(a, b) <= a,
        a < 0 ==> a <= quot(a, b) < 0,
        a == 0 ==> quot(a, b) == 0,
        quot(-a, b) == -quot(a, b),
{
}

/// A product that an `i64` can hold lies less than one raw step away from the
/// exact product of the two numbers and is zero only if a factor is zero; the
/// product with one is the number itself.
pub proof fn law_times_is_the_rounded_product(a: i64, b: i64)
    ensures
        i64::MIN <= quot(a * b, UNIT as int) <= i64::MAX ==> UNIT * (spec_times(a, b) - 1) < a
            * b < UNIT * (spec_times(a, b) + 1),
        spec_times(a, b) == 0 <==> a == 0 || b == 0,
        spec_times(a, UNIT) == a,
        spec_times(a, b) == spec_times(b, a),
{
    law_quot_is_close(a * b, UNIT as int);
    assert(a * b == b * a) by (nonlinear_arith);
    assert(a * b == 0 <==> a == 0 || b == 0) by (nonlinear_arith);
}

/// A quotient that an `i64` can hold lies less than one raw step away from the
/// exact quotient of the two numbers and is zero only for zero; the quotient
/// by one is the number itself.
pub proof fn law_over_is_the_rounded_quotient(a: i64, b: i64)
    requires
        b > 0,
    ensures
        i64::MIN <= quot(a * UNIT, b as int) <= i64::MAX ==> b * (spec_over(a, b) - 1) < a
            * UNIT < b * (spec_over(a, b) + 1),
        spec_over(a, b) == 0 <==> a == 0,
        spec_over(a, UNIT) == a,
{
    law_quot_is_close(a * UNIT, b as int);
}

/// The `n`-th part lies less than one raw step away from the exact `n`-th
/// part, is zero only for zero and is never clamped.
pub proof fn law_nth_part_is_the_rounded_part(a: i64, n: i64)
    requires
        n > 0,
    ensures
        n * (spec_nth_part(a, n) - 1) < a < n * (spec_nth_part(a, n) + 1),
        spec_nth_part(a, n) == quot(a as int, n as int),
        spec_nth_part(a, n) == 0 <==> a == 0,
{
    law_quot_is_close(a as int, n as int);
}

/// A product of two `i64` values stays well inside `i128`.
pub proof fn lemma_product_bounds(a: int, b: int)
    by (nonlinear_arith)
    requires
        -0x8000_0000_0000_0000 <= a <= 0x8000_0000_0000_0000,
        -0x8000_0000_0000_0000 <= b <= 0x8000_0000_0000_0000,
    ensures
        -0x4000_0000_0000_0000_0000_0000_0000_0000 <= a * b
            <= 0x4000_0000_0000_0000_0000_0000_0000_0000,
{
}

/// Clamps a wide intermediate result into `i64`.
pub fn saturate(v: i128) -> (r: i64)
    ensures
        r == clamp(v as int),
{
    if v < i64::MIN as i128 {
        i64::MIN
    } else if v > i64::MAX as i128 {
        i64::MAX
    } else {
        v as i64
    }
}

/// Quotient of a wide intermediate result by a positive number, rounded toward
/// zero but never to zero.
pub fn wide_quot(a: i128, b: i128) -> (r: i128)
    requires
        b > 0,
        a > i128::MIN,
    ensures
        r == quot(a as int, b as int),
{
    if a > 0 {
        if a < b {
            1
        } else {
            a / b
        }
    } else if a < 0 {
        if -a < b {
            -1
        } else {
            a / b
        }
    } else {
        0
    }
}

/// Saturating sum of two scalars.
#[verifier::when_used_as_spec(spec_plus)]
pub fn plus(a: i64, b: i64) -> (r: i64)
    ensures
        r == spec_plus(a, b),
{
    saturate(a as i128 + b as i128)
}

/// Saturating difference of two scalars.
#[verifier::when_used_as_spec(spec_minus)]
pub fn minus(a: i64, b: i64) -> (r: i64)
    ensures
        r == spec_minus(a, b),
{
    saturate(a as i128 - b as i128)
}

/// Saturating negation of a scalar.
#[verifier::when_used_as_spec(spec_negate)]
pub fn negate(a: i64) -> (r: i64)
    ensures
        r == spec_negate(a),
{
    saturate(-(a as i128))
}

/// Fixed-point product of two scalars, rounded toward zero but never to zero,
/// and saturated.
#[verifier::when_used_as_spec(spec_times)]
pub fn times(a: i64, b: i64) -> (r: i64)
    ensures
        r == spec_times(a, b),
{
    proof {
        lemma_product_bounds(a as int, b as int);
    }
    let wide: i128 = (a as i128) * (b as i128);
    saturate(wide_quot(wide, UNIT as i128))
}

/// Fixed-point quotient of a scalar by a positive scalar, rounded toward zero
/// but never to zero, and saturated.
#[verifier::when_used_as_spec(spec_over)]
pub fn over(a: i64, b: i64) -> (r: i64)
    requires
        b > 0,
    ensures
        r == spec_over(a, b),
{
    proof {
        lemma_product_bounds(a as int, UNIT as int);
    }
    let wide: i128 = (a as i128) * (UNIT as i128);
    saturate(wide_quot(wide, b as i128))
}

/// The `n`-th part of a scalar, for a positive whole number `n`, rounded toward
/// zero but never to zero.
#[verifier::when_used_as_spec(spec_nth_part)]
pub fn nth_part(a: i64, n: i64) -> (r: i64)
    requires
        n > 0,
    ensures
        r == spec_nth_part(a, n),
{
    saturate(wide_quot(a as i128, n as i128))
}

/// Square root of `n`, rounded down.
pub fn int_root(n: u128) -> (r: u64)
    ensures
        r == root(n as int),
{
    let mut low: u64 = 0;
    let mut high: u64 = u64::MAX;
    while low < high
        invariant
            low <= high,
            low * low <= n,
            n < (high + 1) * (high + 1),
        decreases high - low,
    {
        let gap: u64 = high - low;
        let mid: u64 = low + (gap / 2 + gap % 2);
        proof {
            lemma_square_grows(mid as int, u64::MAX as int);
        }
        let square: u128 = (mid as u128) * (mid as u128);
        if square <= n {
            low = mid;
        } else {
            high = mid - 1;
        }
    }
    proof {
        lemma_root_unique(n as int, low as int);
    }
    low
}

/// Length of the vector with components `a` and `b`, rounded down and
/// saturated.
#[verifier::when_used_as_spec(spec_hypot)]
pub fn hypot(a: i64, b: i64) -> (r: i64)
    ensures
        r == spec_hypot(a, b),
        r >= 0,
{
    proof {
        lemma_product_bounds(a as int, a as int);
        lemma_product_bounds(b as int, b as int);
        assert(a * a >= 0) by (nonlinear_arith);
        assert(b * b >= 0) by (nonlinear_arith);
    }
    let aa: i128 = (a as i128) * (a as i128);
    let bb: i128 = (b as i128) * (b as i128);
    let n: u128 = (aa as u128) + (bb as u128);
    let r: u64 = int_root(n);
    if r > i64::MAX as u64 {
        i64::MAX
    } else {
        r as i64
    }
}

} // verus!
