//! Fixed-point scalars: milli-units.
//!
//! Every physical quantity in this crate (meters, hertz, seconds, window
//! gains, noise values) is an integer count of thousandths. Products of two
//! milli-scaled values are rescaled by [`mul_milli`], whose division truncates
//! toward zero exactly as Rust's `/` does.

use vstd::prelude::*;

verus! {

/// One whole unit, in milli-units.
pub const MILLI: i64 = 1000;

/// Integer division truncating toward zero (the semantics of Rust's `/`),
/// defined for positive divisors.
pub open spec fn div_trunc(a: int, d: int) -> int {
    if a >= 0 {
        a / d
    } else {
        -((-a) / d)
    }
}

/// Rescale the product of two milli-scaled values back to milli scale.
pub open spec fn spec_mul_milli(a: int, b: int) -> int {
    div_trunc(a * b, MILLI as int)
}

/// Truncating division shrinks magnitudes: |a / d| <= |a| for d >= 1.
pub proof fn lemma_div_trunc_bound(a: int, d: int, bound: int)
    requires
        d >= 1,
        -bound <= a <= bound,
        0 <= bound,
    ensures
        -bound <= div_trunc(a, d) <= bound,
{
    if a >= 0 {
        vstd::arithmetic::div_mod::lemma_div_is_ordered(a, bound, d);
        vstd::arithmetic::div_mod::lemma_div_nonincreasing(a, d);
        vstd::arithmetic::div_mod::lemma_div_pos_is_pos(a, d);
    } else {
        vstd::arithmetic::div_mod::lemma_div_is_ordered(-a, bound, d);
        vstd::arithmetic::div_mod::lemma_div_nonincreasing(-a, d);
        vstd::arithmetic::div_mod::lemma_div_pos_is_pos(-a, d);
    }
}

/// The product of two milli-scaled values, rescaled, stays within the product
/// of their bounds (itself rescaled up by one MILLI factor).
pub proof fn lemma_mul_milli_bound(a: int, b: int, ab: int, bb: int)
    requires
        -ab <= a <= ab,
        -bb <= b <= bb,
        0 <= ab,
        0 <= bb,
    ensures
        -(ab * bb) <= spec_mul_milli(a, b) * (MILLI as int) <= ab * bb,
        -(ab * bb) <= spec_mul_milli(a, b) <= ab * bb,
{
    assert(-(ab * bb) <= a * b <= ab * bb) by (nonlinear_arith)
        requires
            -ab <= a <= ab,
            -bb <= b <= bb,
            0 <= ab,
            0 <= bb,
    ;
    lemma_div_trunc_bound(a * b, MILLI as int, ab * bb);
    assert(-(ab * bb) <= div_trunc(a * b, MILLI as int) <= ab * bb);
    if ab * bb >= 1 {
        lemma_div_trunc_mul_upper(a * b, MILLI as int, ab * bb);
    } else {
        assert(a * b == 0);
    }
}

/// Scaling a truncated quotient back up by the divisor stays within the
/// dividend's bound.
proof fn lemma_div_trunc_mul_upper(a: int, d: int, bound: int)
    requires
        d >= 1,
        -bound <= a <= bound,
        1 <= bound,
    ensures
        -bound <= div_trunc(a, d) * d <= bound,
{
    if a >= 0 {
        vstd::arithmetic::div_mod::lemma_fundamental_div_mod(a, d);
        vstd::arithmetic::div_mod::lemma_mod_bound(a, d);
        vstd::arithmetic::div_mod::lemma_div_pos_is_pos(a, d);
        vstd::arithmetic::mul::lemma_mul_is_commutative(d, a / d);
        assert(div_trunc(a, d) * d == a - a % d);
    } else {
        vstd::arithmetic::div_mod::lemma_fundamental_div_mod(-a, d);
        vstd::arithmetic::div_mod::lemma_mod_bound(-a, d);
        vstd::arithmetic::div_mod::lemma_div_pos_is_pos(-a, d);
        vstd::arithmetic::mul::lemma_mul_is_commutative(d, (-a) / d);
        assert(((-a) / d) * d == -a - (-a) % d);
        assert(div_trunc(a, d) * d == -(((-a) / d) * d)) by {
            vstd::arithmetic::mul::lemma_mul_unary_negation((-a) / d, d);
        }
    }
}

/// Rescale the product of two milli-scaled values back to milli scale.
///
/// The factors must each fit well inside `i64`, so that the intermediate
/// product cannot overflow.
pub fn mul_milli(a: i64, b: i64) -> (r: i64)
    requires
        a * b <= i64::MAX,
        i64::MIN <= a * b,
    ensures
        r == spec_mul_milli(a as int, b as int),
{
    (a * b) / MILLI
}

/// Euclidean remainder: the representative of `x` modulo `m` in `[0, m)`.
pub fn rem_euclid_i64(x: i64, m: i64) -> (r: i64)
    requires
        m >= 1,
        i64::MIN < x,
    ensures
        r == (x as int) % (m as int),
        0 <= r < m,
{
    let t = x % m;
    if t < 0 {
        proof {
            lemma_rem_negative(x as int, m as int);
        }
        t + m
    } else {
        proof {
            if x < 0 {
                lemma_rem_negative(x as int, m as int);
            }
        }
        t
    }
}

/// Relates Rust's truncating remainder of a negative value to the Euclidean
/// remainder.
proof fn lemma_rem_negative(x: int, m: int)
    requires
        m >= 1,
        x < 0,
    ensures
        x % m == 0 ==> -((-x) % m) == 0,
        x % m != 0 ==> -((-x) % m) + m == x % m,
{
    vstd::arithmetic::div_mod::lemma_fundamental_div_mod(-x, m);
    vstd::arithmetic::div_mod::lemma_mod_bound(-x, m);
    let q = (-x) / m;
    let r = (-x) % m;
    assert(x == -(m * q) - r);
    if r == 0 {
        assert(x == m * (-q)) by (nonlinear_arith)
            requires
                x == -(m * q),
        ;
        vstd::arithmetic::div_mod::lemma_mod_multiples_basic(-q, m);
    } else {
        assert(x == m * (-q - 1) + (m - r)) by (nonlinear_arith)
            requires
                x == -(m * q) - r,
        ;
        vstd::arithmetic::div_mod::lemma_fundamental_div_mod_converse_mod(x, m, -q - 1, m - r);
    }
}

} // verus!
