//! Fixed-point cosine and the Hann window.
//!
//! Angles are fractions of a full turn, in millionths (so a half turn is
//! 500000). The cosine comes from the classic rational approximation
//! `cos x = (pi^2 - 4 x^2) / (pi^2 + x^2)` on the first quarter turn,
//! rewritten in turn units, and is extended to a full turn by symmetry. Its
//! worst error is below two milli-units, well inside the tolerance the
//! analysis window needs.

use vstd::prelude::*;

verus! {

/// A full turn, in millionths of a turn.
pub const TURN: i64 = 1_000_000;

/// Half a turn, in millionths of a turn.
pub const HALF_TURN: i64 = 500_000;

/// A quarter turn, in millionths of a turn.
pub const QUARTER_TURN: i64 = 250_000;

/// Cosine on the first quarter turn (`0 <= s <= QUARTER_TURN`), in
/// milli-units.
pub open spec fn spec_cos_quarter(s: int) -> int {
    (1000 * (1_000_000_000_000 - 16 * (s * s))) / (1_000_000_000_000 + 4 * (s * s))
}

/// Cosine on the first half turn, by the quarter-turn symmetry
/// `cos(pi - x) = -cos(x)`.
pub open spec fn spec_cos_half(x: int) -> int {
    if x <= QUARTER_TURN {
        spec_cos_quarter(x)
    } else {
        -spec_cos_quarter(HALF_TURN - x)
    }
}

/// Cosine of a phase within one turn, by the symmetry
/// `cos(2 pi - x) = cos(x)`.
pub open spec fn spec_cos_turn(p: int) -> int {
    if p <= HALF_TURN {
        spec_cos_half(p)
    } else {
        spec_cos_half(TURN - p)
    }
}

/// The Hann window gain at sample `i` of an `n`-sample window, in
/// milli-units: `0.5 * (1 - cos(2 pi i / (n - 1)))`.
pub open spec fn spec_hann_window(i: int, n: int) -> int {
    (1000 - spec_cos_turn((i * (TURN as int)) / (n - 1))) / 2
}

/// The quarter-turn cosine stays within `[0, 1000]`.
proof fn lemma_cos_quarter_range(s: int)
    requires
        0 <= s <= QUARTER_TURN,
    ensures
        0 <= spec_cos_quarter(s) <= 1000,
{
    assert(0 <= s * s <= 62_500_000_000) by (nonlinear_arith)
        requires
            0 <= s <= 250_000,
    ;
    let ss = s * s;
    let num = 1000 * (1_000_000_000_000 - 16 * ss);
    let den = 1_000_000_000_000 + 4 * ss;
    assert(num == 1000 * (1_000_000_000_000 - 16 * (s * s)));
    assert(den == 1_000_000_000_000 + 4 * (s * s));
    vstd::arithmetic::div_mod::lemma_div_pos_is_pos(num, den);
    assert(num <= 1000 * den);
    vstd::arithmetic::div_mod::lemma_div_is_ordered(num, 1000 * den, den);
    vstd::arithmetic::div_mod::lemma_div_multiples_vanish(1000, den);
}

/// The full-turn cosine stays within `[-1000, 1000]`.
pub proof fn lemma_cos_turn_range(p: int)
    requires
        0 <= p <= TURN,
    ensures
        -1000 <= spec_cos_turn(p) <= 1000,
{
    if p <= HALF_TURN {
        if p <= QUARTER_TURN {
            lemma_cos_quarter_range(p);
        } else {
            lemma_cos_quarter_range(HALF_TURN - p);
        }
    } else {
        let x = TURN - p;
        if x <= QUARTER_TURN {
            lemma_cos_quarter_range(x);
        } else {
            lemma_cos_quarter_range(HALF_TURN - x);
        }
    }
}

/// Cosine on the first quarter turn.
fn cos_quarter(s: i64) -> (r: i64)
    requires
        0 <= s <= QUARTER_TURN,
    ensures
        r == spec_cos_quarter(s as int),
        0 <= r <= 1000,
{
    proof {
        lemma_cos_quarter_range(s as int);
        assert(0 <= s * s <= 62_500_000_000) by (nonlinear_arith)
            requires
                0 <= s <= 250_000,
        ;
    }
    let ss = s * s;
    (1000 * (1_000_000_000_000 - 16 * ss)) / (1_000_000_000_000 + 4 * ss)
}

/// Cosine of a phase within one turn, in milli-units.
pub fn cos_turn(p: i64) -> (r: i64)
    requires
        0 <= p <= TURN,
    ensures
        r == spec_cos_turn(p as int),
        -1000 <= r <= 1000,
{
    let x = if p <= HALF_TURN {
        p
    } else {
        TURN - p
    };
    if x <= QUARTER_TURN {
        cos_quarter(x)
    } else {
        -cos_quarter(HALF_TURN - x)
    }
}

/// The Hann window gain at sample `i` of an `n`-sample window, in
/// milli-units. Tapers to zero at both edges and rises to one whole unit at
/// the center.
pub fn hann_window(i: usize, n: usize) -> (w: i64)
    requires
        2 <= n <= crate::params::MAX_FFT_SIZE,
        i < n,
    ensures
        w == spec_hann_window(i as int, n as int),
        0 <= w <= 1000,
{
    let phase = ((i as i64) * TURN) / ((n as i64) - 1);
    proof {
        lemma_phase_in_turn(i as int, n as int);
        lemma_cos_turn_range(phase as int);
    }
    (1000 - cos_turn(phase)) / 2
}

/// A sample index within the window maps to a phase within one turn.
proof fn lemma_phase_in_turn(i: int, n: int)
    requires
        2 <= n,
        0 <= i < n,
    ensures
        0 <= (i * (TURN as int)) / (n - 1) <= TURN,
{
    let t = TURN as int;
    vstd::arithmetic::div_mod::lemma_div_pos_is_pos(i * t, n - 1);
    assert(i * t <= (n - 1) * t) by (nonlinear_arith)
        requires
            0 <= i <= n - 1,
            t == 1_000_000,
    ;
    vstd::arithmetic::div_mod::lemma_div_is_ordered(i * t, (n - 1) * t, n - 1);
    vstd::arithmetic::div_mod::lemma_div_multiples_vanish(t, n - 1);
    assert((n - 1) * t == t * (n - 1)) by (nonlinear_arith);
}

/// The Hann window is exactly zero at both edges of the window, for every
/// window length.
pub proof fn lemma_hann_window_zero_at_edges(n: int)
    requires
        2 <= n,
    ensures
        spec_hann_window(0, n) == 0,
        spec_hann_window(n - 1, n) == 0,
{
    let t = TURN as int;
    assert(0 * t == 0) by (nonlinear_arith);
    vstd::arithmetic::div_mod::lemma_div_of0(n - 1);
    assert(spec_cos_quarter(0) == 1000) by {
        vstd::arithmetic::div_mod::lemma_div_multiples_vanish(1000, 1_000_000_000_000);
        assert(1000 * (1_000_000_000_000 - 16 * (0 * 0)) == 1_000_000_000_000 * 1000)
            by (nonlinear_arith);
    }
    assert(spec_cos_turn(0) == 1000);
    assert((n - 1) * t == t * (n - 1)) by (nonlinear_arith);
    vstd::arithmetic::div_mod::lemma_div_multiples_vanish(t, n - 1);
    assert(((n - 1) * t) / (n - 1) == t);
    assert(spec_cos_turn(t as int) == spec_cos_half(0));
    assert(spec_cos_half(0) == 1000);
}

} // verus!
