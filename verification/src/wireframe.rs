//! Wireframe line indices for a square vertex grid.
//!
//! For a `grid_size x grid_size` vertex grid (row-major), the index list
//! holds one line segment per horizontal neighbor pair and one per vertical
//! neighbor pair: first all horizontal segments row by row, then all
//! vertical segments row by row.

use vstd::prelude::*;

verus! {

/// Largest accepted wireframe grid side.
pub const MAX_WIREFRAME_GRID: u32 = 16384;

/// Entry `k` of the wireframe index list for a `g`-vertex grid side.
///
/// The first `2 * g * (g - 1)` entries are the horizontal segments: pair
/// `p` joins vertex `z * g + x` to its right neighbor, with `z = p / (g-1)`
/// and `x = p % (g-1)`. The remaining `2 * (g - 1) * g` entries are the
/// vertical segments: pair `p` joins vertex `z * g + x` to the vertex one
/// row below, with `z = p / g` and `x = p % g`.
pub open spec fn spec_wireframe_index(g: int, k: int) -> int {
    if k < 2 * (g * (g - 1)) {
        let p = k / 2;
        let z = p / (g - 1);
        let x = p % (g - 1);
        z * g + x + (if k % 2 == 0 {
            0int
        } else {
            1int
        })
    } else {
        let p = (k - 2 * (g * (g - 1))) / 2;
        let z = p / g;
        let x = p % g;
        z * g + x + (if k % 2 == 0 {
            0int
        } else {
            g
        })
    }
}

/// Generate the line-segment indices of a wireframe grid with `grid_size`
/// vertices per side: every horizontal neighbor pair, then every vertical
/// neighbor pair.
pub fn generate_grid_indices(grid_size: u32) -> (indices: Vec<u32>)
    requires
        2 <= grid_size <= MAX_WIREFRAME_GRID,
    ensures
        indices@.len() == 4 * (grid_size * (grid_size - 1)),
        forall|k: int|
            0 <= k < indices@.len() ==> #[trigger] indices@[k] == spec_wireframe_index(
                grid_size as int,
                k,
            ),
{
    let g = grid_size;
    let ghost gi = g as int;
    proof {
        assert(0 < gi * (gi - 1) <= 268_419_072) by (nonlinear_arith)
            requires
                2 <= gi <= MAX_WIREFRAME_GRID,
        ;
    }
    let mut indices: Vec<u32> = Vec::new();
    let mut z: u32 = 0;
    while z < g
        invariant
            2 <= g <= MAX_WIREFRAME_GRID,
            gi == g as int,
            z <= g,
            0 < gi * (gi - 1) <= 268_419_072,
            indices@.len() == 2 * (z * (gi - 1)),
            forall|k: int|
                0 <= k < indices@.len() ==> #[trigger] indices@[k] == spec_wireframe_index(gi, k),
        decreases g - z,
    {
        let mut x: u32 = 0;
        while x < g - 1
            invariant
                2 <= g <= MAX_WIREFRAME_GRID,
                gi == g as int,
                z < g,
                x <= g - 1,
                0 < gi * (gi - 1) <= 268_419_072,
                indices@.len() == 2 * (z * (gi - 1) + x),
                forall|k: int|
                    0 <= k < indices@.len() ==> #[trigger] indices@[k] == spec_wireframe_index(
                        gi,
                        k,
                    ),
            decreases g - 1 - x,
        {
            proof {
                lemma_horizontal_entry(gi, z as int, x as int);
            }
            let i = z * g + x;
            indices.push(i);
            indices.push(i + 1);
            x = x + 1;
        }
        z = z + 1;
        proof {
            assert((z - 1) * (gi - 1) + (gi - 1) == z * (gi - 1)) by (nonlinear_arith);
        }
    }
    let mut vz: u32 = 0;
    while vz < g - 1
        invariant
            2 <= g <= MAX_WIREFRAME_GRID,
            gi == g as int,
            vz <= g - 1,
            0 < gi * (gi - 1) <= 268_419_072,
            indices@.len() == 2 * (gi * (gi - 1)) + 2 * (vz * gi),
            forall|k: int|
                0 <= k < indices@.len() ==> #[trigger] indices@[k] == spec_wireframe_index(gi, k),
        decreases g - 1 - vz,
    {
        let mut x: u32 = 0;
        while x < g
            invariant
                2 <= g <= MAX_WIREFRAME_GRID,
                gi == g as int,
                vz < g - 1,
                x <= g,
                0 < gi * (gi - 1) <= 268_419_072,
                indices@.len() == 2 * (gi * (gi - 1)) + 2 * (vz * gi + x),
                forall|k: int|
                    0 <= k < indices@.len() ==> #[trigger] indices@[k] == spec_wireframe_index(
                        gi,
                        k,
                    ),
            decreases g - x,
        {
            proof {
                lemma_vertical_entry(gi, vz as int, x as int);
            }
            let i = vz * g + x;
            indices.push(i);
            indices.push(i + g);
            x = x + 1;
        }
        vz = vz + 1;
        proof {
            assert((vz - 1) * gi + gi == vz * gi) by (nonlinear_arith);
        }
    }
    proof {
        assert(2 * (gi * (gi - 1)) + 2 * ((gi - 1) * gi) == 4 * (gi * (gi - 1)))
            by (nonlinear_arith);
    }
    indices
}

/// The two entries pushed for horizontal pair `(z, x)` match the spec.
proof fn lemma_horizontal_entry(g: int, z: int, x: int)
    requires
        2 <= g <= MAX_WIREFRAME_GRID,
        0 <= z < g,
        0 <= x < g - 1,
    ensures
        0 <= z * (g - 1) + x < g * (g - 1),
        0 <= z * g + x + 1 < g * g,
        g * g <= 268_435_456,
        spec_wireframe_index(g, 2 * (z * (g - 1) + x)) == z * g + x,
        spec_wireframe_index(g, 2 * (z * (g - 1) + x) + 1) == z * g + x + 1,
{
    assert(0 <= z * (g - 1) + x < g * (g - 1) && 0 <= z * g + x + 1 < g * g && g * g
        <= 268_435_456) by (nonlinear_arith)
        requires
            2 <= g <= MAX_WIREFRAME_GRID,
            0 <= z < g,
            0 <= x < g - 1,
    ;
    let p = z * (g - 1) + x;
    let k0 = 2 * p;
    assert(k0 < 2 * (g * (g - 1)) && k0 + 1 < 2 * (g * (g - 1))) by (nonlinear_arith)
        requires
            p < g * (g - 1),
            k0 == 2 * p,
    ;
    vstd::arithmetic::div_mod::lemma_fundamental_div_mod_converse(k0, 2, p, 0);
    vstd::arithmetic::div_mod::lemma_fundamental_div_mod_converse(k0 + 1, 2, p, 1);
    vstd::arithmetic::div_mod::lemma_fundamental_div_mod_converse(p, g - 1, z, x);
}

/// The two entries pushed for vertical pair `(z, x)` match the spec.
proof fn lemma_vertical_entry(g: int, z: int, x: int)
    requires
        2 <= g <= MAX_WIREFRAME_GRID,
        0 <= z < g - 1,
        0 <= x < g,
    ensures
        0 <= z * g + x < (g - 1) * g,
        0 <= z * g + x + g < g * g,
        g * g <= 268_435_456,
        spec_wireframe_index(g, 2 * (g * (g - 1)) + 2 * (z * g + x)) == z * g + x,
        spec_wireframe_index(g, 2 * (g * (g - 1)) + 2 * (z * g + x) + 1) == z * g + x + g,
{
    assert(0 <= z * g + x < (g - 1) * g && 0 <= z * g + x + g < g * g && g * g <= 268_435_456)
        by (nonlinear_arith)
        requires
            2 <= g <= MAX_WIREFRAME_GRID,
            0 <= z < g - 1,
            0 <= x < g,
    ;
    let p = z * g + x;
    let base = 2 * (g * (g - 1));
    let k0 = base + 2 * p;
    assert(k0 % 2 == 0 && (k0 + 1) % 2 == 1 && (k0 - base) / 2 == p && (k0 + 1 - base) / 2 == p
        && k0 >= base && k0 + 1 >= base) by {
        vstd::arithmetic::div_mod::lemma_fundamental_div_mod_converse(k0, 2, g * (g - 1) + p, 0);
        vstd::arithmetic::div_mod::lemma_fundamental_div_mod_converse(
            k0 + 1,
            2,
            g * (g - 1) + p,
            1,
        );
        assert(k0 == 2 * (g * (g - 1) + p) && k0 - base == 2 * p) by (nonlinear_arith)
            requires
                k0 == 2 * (g * (g - 1)) + 2 * p,
                base == 2 * (g * (g - 1)),
        ;
        vstd::arithmetic::div_mod::lemma_fundamental_div_mod_converse(k0 - base, 2, p, 0);
        vstd::arithmetic::div_mod::lemma_fundamental_div_mod_converse(k0 + 1 - base, 2, p, 1);
        assert(p >= 0) by (nonlinear_arith)
            requires
                0 <= z,
                0 <= x,
                p == z * g + x,
                g >= 2,
        ;
    }
    vstd::arithmetic::div_mod::lemma_fundamental_div_mod_converse(p, g, z, x);
}

} // verus!
