//! Deterministic noise for the ocean terrain.
//!
//! A seeded lattice value noise over milli-unit coordinates: each integer
//! lattice point (one whole unit apart) gets a pseudo-random value in
//! `[-1000, 1000]` from a bit-mixing hash of its cell and the seed, and the
//! sample point interpolates the eight surrounding corners. The same seed and
//! coordinates give the same value on every machine, which is what keeps the
//! base terrain layer stable.

use vstd::prelude::*;

use crate::units::div_trunc;

verus! {

/// Lattice cell size: one whole unit, in milli-units.
pub const NOISE_CELL: i64 = 1000;

/// Largest coordinate magnitude a noise sample accepts, in milli-units.
pub const MAX_NOISE_COORD: i64 = 3_000_000_000_000_000;

/// Shift that makes every in-range lattice cell index non-negative before
/// hashing.
pub const CELL_OFFSET: i64 = 4_000_000_000_000;

/// Bit-mix three shifted lattice cell indices with the seed.
pub open spec fn spec_cell_hash(seed: u32, hx: u64, hy: u64, hz: u64) -> u64 {
    let h0 = (seed as u64) ^ 0x9e37_79b9_7f4a_7c15u64;
    let h1 = (h0 ^ hx).wrapping_mul(0xbf58_476d_1ce4_e5b9u64);
    let h2 = h1 ^ (h1 >> 31u64);
    let h3 = (h2 ^ hy).wrapping_mul(0x94d0_49bb_1331_11ebu64);
    let h4 = h3 ^ (h3 >> 29u64);
    let h5 = (h4 ^ hz).wrapping_mul(0xff51_afd7_ed55_8ccdu64);
    h5 ^ (h5 >> 33u64)
}

/// The pseudo-random corner value of one lattice cell, in `[-1000, 1000]`.
pub open spec fn spec_corner(seed: u32, cx: int, cy: int, cz: int) -> int {
    let hx = (cx + CELL_OFFSET) as u64;
    let hy = (cy + CELL_OFFSET) as u64;
    let hz = (cz + CELL_OFFSET) as u64;
    spec_cell_hash(seed, hx, hy, hz) % 2001 - 1000
}

/// Linear interpolation between two milli-scaled values, with
/// `t` in `[0, 1000]` milli-units of the way from `a` to `b`.
pub open spec fn spec_lerp(a: int, b: int, t: int) -> int {
    a + div_trunc((b - a) * t, 1000)
}

/// A noise sample at milli-unit coordinates: the trilinear blend of the
/// eight corner values around the point.
#[verifier::opaque]
pub open spec fn spec_noise(seed: u32, x: int, y: int, z: int) -> int {
    let cx = x / (NOISE_CELL as int);
    let cy = y / (NOISE_CELL as int);
    let cz = z / (NOISE_CELL as int);
    let fx = x % (NOISE_CELL as int);
    let fy = y % (NOISE_CELL as int);
    let fz = z % (NOISE_CELL as int);
    let x00 = spec_lerp(spec_corner(seed, cx, cy, cz), spec_corner(seed, cx + 1, cy, cz), fx);
    let x10 = spec_lerp(
        spec_corner(seed, cx, cy + 1, cz),
        spec_corner(seed, cx + 1, cy + 1, cz),
        fx,
    );
    let x01 = spec_lerp(
        spec_corner(seed, cx, cy, cz + 1),
        spec_corner(seed, cx + 1, cy, cz + 1),
        fx,
    );
    let x11 = spec_lerp(
        spec_corner(seed, cx, cy + 1, cz + 1),
        spec_corner(seed, cx + 1, cy + 1, cz + 1),
        fx,
    );
    let y0 = spec_lerp(x00, x10, fy);
    let y1 = spec_lerp(x01, x11, fy);
    spec_lerp(y0, y1, fz)
}

/// Interpolation between bounded values stays bounded.
pub proof fn lemma_lerp_bounded(a: int, b: int, t: int, bound: int)
    requires
        0 <= bound,
        -bound <= a <= bound,
        -bound <= b <= bound,
        0 <= t <= 1000,
    ensures
        -bound <= spec_lerp(a, b, t) <= bound,
{
    let d = b - a;
    if d >= 0 {
        vstd::arithmetic::div_mod::lemma_div_pos_is_pos(d * t, 1000);
        assert(d * t <= d * 1000) by (nonlinear_arith)
            requires
                0 <= d,
                0 <= t <= 1000,
        ;
        vstd::arithmetic::div_mod::lemma_div_is_ordered(d * t, d * 1000, 1000);
        vstd::arithmetic::div_mod::lemma_div_multiples_vanish(d, 1000);
        assert(d * 1000 == 1000 * d) by (nonlinear_arith);
        assert(0 <= div_trunc(d * t, 1000) <= d);
    } else {
        let e = -d;
        assert(e * t == -(d * t)) by (nonlinear_arith)
            requires
                e == -d,
        ;
        vstd::arithmetic::div_mod::lemma_div_pos_is_pos(e * t, 1000);
        assert(e * t <= e * 1000) by (nonlinear_arith)
            requires
                0 <= e,
                0 <= t <= 1000,
        ;
        vstd::arithmetic::div_mod::lemma_div_is_ordered(e * t, e * 1000, 1000);
        vstd::arithmetic::div_mod::lemma_div_multiples_vanish(e, 1000);
        assert(e * 1000 == 1000 * e) by (nonlinear_arith);
        assert(-e <= div_trunc(d * t, 1000) <= 0);
    }
}

/// A noise sample stays within one milli-scaled unit either way.
pub proof fn lemma_noise_bounded(seed: u32, x: int, y: int, z: int)
    ensures
        -1000 <= spec_noise(seed, x, y, z) <= 1000,
{
    reveal(spec_noise);
    let cx = x / (NOISE_CELL as int);
    let cy = y / (NOISE_CELL as int);
    let cz = z / (NOISE_CELL as int);
    let fx = x % (NOISE_CELL as int);
    let fy = y % (NOISE_CELL as int);
    let fz = z % (NOISE_CELL as int);
    vstd::arithmetic::div_mod::lemma_mod_bound(x, NOISE_CELL as int);
    vstd::arithmetic::div_mod::lemma_mod_bound(y, NOISE_CELL as int);
    vstd::arithmetic::div_mod::lemma_mod_bound(z, NOISE_CELL as int);
    let x00 = spec_lerp(spec_corner(seed, cx, cy, cz), spec_corner(seed, cx + 1, cy, cz), fx);
    let x10 = spec_lerp(
        spec_corner(seed, cx, cy + 1, cz),
        spec_corner(seed, cx + 1, cy + 1, cz),
        fx,
    );
    let x01 = spec_lerp(
        spec_corner(seed, cx, cy, cz + 1),
        spec_corner(seed, cx + 1, cy, cz + 1),
        fx,
    );
    let x11 = spec_lerp(
        spec_corner(seed, cx, cy + 1, cz + 1),
        spec_corner(seed, cx + 1, cy + 1, cz + 1),
        fx,
    );
    lemma_lerp_bounded(spec_corner(seed, cx, cy, cz), spec_corner(seed, cx + 1, cy, cz), fx, 1000);
    lemma_lerp_bounded(
        spec_corner(seed, cx, cy + 1, cz),
        spec_corner(seed, cx + 1, cy + 1, cz),
        fx,
        1000,
    );
    lemma_lerp_bounded(
        spec_corner(seed, cx, cy, cz + 1),
        spec_corner(seed, cx + 1, cy, cz + 1),
        fx,
        1000,
    );
    lemma_lerp_bounded(
        spec_corner(seed, cx, cy + 1, cz + 1),
        spec_corner(seed, cx + 1, cy + 1, cz + 1),
        fx,
        1000,
    );
    lemma_lerp_bounded(x00, x10, fy, 1000);
    lemma_lerp_bounded(x01, x11, fy, 1000);
    lemma_lerp_bounded(spec_lerp(x00, x10, fy), spec_lerp(x01, x11, fy), fz, 1000);
}

/// Noise generator for the ocean terrain.
pub struct NoiseGenerator {
    seed: u32,
}

impl NoiseGenerator {
    /// The seed this generator was built with.
    pub closed spec fn spec_seed(self) -> u32 {
        self.seed
    }

    /// Create a new noise generator with the given seed.
    pub fn new(seed: u32) -> (r: Self)
        ensures
            r.spec_seed() == seed,
    {
        NoiseGenerator { seed }
    }

    /// Sample the noise field at a 3D position in milli-units.
    ///
    /// Returns a value in `[-1000, 1000]` milli-units; the same seed and
    /// position always give the same value.
    pub fn sample_3d(&self, x: i64, y: i64, z: i64) -> (r: i64)
        requires
            -MAX_NOISE_COORD <= x <= MAX_NOISE_COORD,
            -MAX_NOISE_COORD <= y <= MAX_NOISE_COORD,
            -MAX_NOISE_COORD <= z <= MAX_NOISE_COORD,
        ensures
            r == spec_noise(self.spec_seed(), x as int, y as int, z as int),
            -1000 <= r <= 1000,
    {
        proof {
            reveal(spec_noise);
            lemma_noise_bounded(self.seed, x as int, y as int, z as int);
        }
        let cx = floor_div_cell(x);
        let cy = floor_div_cell(y);
        let cz = floor_div_cell(z);
        let fx = crate::units::rem_euclid_i64(x, NOISE_CELL);
        let fy = crate::units::rem_euclid_i64(y, NOISE_CELL);
        let fz = crate::units::rem_euclid_i64(z, NOISE_CELL);
        let x00 = lerp(self.corner(cx, cy, cz), self.corner(cx + 1, cy, cz), fx);
        let x10 = lerp(self.corner(cx, cy + 1, cz), self.corner(cx + 1, cy + 1, cz), fx);
        let x01 = lerp(self.corner(cx, cy, cz + 1), self.corner(cx + 1, cy, cz + 1), fx);
        let x11 = lerp(self.corner(cx, cy + 1, cz + 1), self.corner(cx + 1, cy + 1, cz + 1), fx);
        let y0 = lerp(x00, x10, fy);
        let y1 = lerp(x01, x11, fy);
        lerp(y0, y1, fz)
    }

    /// The pseudo-random value of one lattice corner.
    fn corner(&self, cx: i64, cy: i64, cz: i64) -> (r: i64)
        requires
            -CELL_OFFSET < cx < CELL_OFFSET,
            -CELL_OFFSET < cy < CELL_OFFSET,
            -CELL_OFFSET < cz < CELL_OFFSET,
        ensures
            r == spec_corner(self.spec_seed(), cx as int, cy as int, cz as int),
            -1000 <= r <= 1000,
    {
        let hx = (cx + CELL_OFFSET) as u64;
        let hy = (cy + CELL_OFFSET) as u64;
        let hz = (cz + CELL_OFFSET) as u64;
        let h0 = (self.seed as u64) ^ 0x9e37_79b9_7f4a_7c15u64;
        let h1 = (h0 ^ hx).wrapping_mul(0xbf58_476d_1ce4_e5b9u64);
        let h2 = h1 ^ (h1 >> 31u64);
        let h3 = (h2 ^ hy).wrapping_mul(0x94d0_49bb_1331_11ebu64);
        let h4 = h3 ^ (h3 >> 29u64);
        let h5 = (h4 ^ hz).wrapping_mul(0xff51_afd7_ed55_8ccdu64);
        let h = h5 ^ (h5 >> 33u64);
        ((h % 2001) as i64) - 1000
    }
}

/// Linear interpolation between two milli-scaled values.
fn lerp(a: i64, b: i64, t: i64) -> (r: i64)
    requires
        -1000 <= a <= 1000,
        -1000 <= b <= 1000,
        0 <= t <= 1000,
    ensures
        r == spec_lerp(a as int, b as int, t as int),
        -1000 <= r <= 1000,
{
    proof {
        lemma_lerp_bounded(a as int, b as int, t as int, 1000);
    }
    a + ((b - a) * t) / 1000
}

/// The lattice cell (floor of the coordinate in whole units) of a milli-unit
/// coordinate.
fn floor_div_cell(c: i64) -> (q: i64)
    requires
        -MAX_NOISE_COORD <= c <= MAX_NOISE_COORD,
    ensures
        q == (c as int) / (NOISE_CELL as int),
{
    let r = crate::units::rem_euclid_i64(c, NOISE_CELL);
    let d = c - r;
    proof {
        vstd::arithmetic::div_mod::lemma_fundamental_div_mod(c as int, NOISE_CELL as int);
        let q0 = (c as int) / (NOISE_CELL as int);
        assert(d == 1000 * q0);
        vstd::arithmetic::div_mod::lemma_div_multiples_vanish(q0, 1000);
        if d < 0 {
            assert(-(1000 * q0) == 1000 * (-q0)) by (nonlinear_arith);
            vstd::arithmetic::div_mod::lemma_div_multiples_vanish(-q0, 1000);
        }
    }
    d / NOISE_CELL
}

} // verus!
