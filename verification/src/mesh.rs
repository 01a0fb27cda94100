//! Ocean grid mesh: a fixed-size vertex grid that appears unbounded.
//!
//! Each tick the grid is advected opposite to camera motion, vertices that
//! leave the visible window wrap toroidally to the far side, a cached
//! time-stable base-terrain height is recomputed only for relocated vertices,
//! an audio-modulated detail height is added everywhere, and triangles whose
//! edges were stretched by a wrap are dropped from the filtered index list
//! for that tick.

use vstd::prelude::*;

use crate::noise::{spec_noise, NoiseGenerator};
use crate::params::{OceanPhysics, MAX_AMPLITUDE, MAX_GRID_SIZE, MAX_GRID_SPACING};
use crate::units::{mul_milli, rem_euclid_i64, spec_mul_milli};

verus! {

/// Largest camera coordinate magnitude the grid accepts, in milli-meters.
pub const MAX_CAMERA_COORD: i64 = 100_000_000_000;

/// Largest elapsed time the grid accepts, in milli-seconds.
pub const MAX_TIME: i64 = 100_000_000_000;

/// Largest audio-modulated detail amplitude, in milli-meters.
pub const MAX_DETAIL_AMPLITUDE: i64 = 2_000_000_000;

/// Largest audio-modulated detail frequency, in milli-cycles per meter.
pub const MAX_DETAIL_FREQUENCY: i64 = 20_000_000;

/// How far a wrapped coordinate must move before the vertex counts as
/// relocated (0.01 m, in milli-meters).
pub const WRAP_EPSILON: i64 = 10;

/// A point or direction in milli-meters.
#[derive(Clone, Copy, Debug, PartialEq, Eq, Structural)]
pub struct Vec3Milli {
    pub x: i64,
    pub y: i64,
    pub z: i64,
}

/// A texture coordinate in milli-units of `[0, 1]`.
#[derive(Clone, Copy, Debug, PartialEq, Eq, Structural)]
pub struct TexCoord {
    pub u: i64,
    pub v: i64,
}

/// One grid vertex: camera-relative position and texture coordinates.
#[derive(Clone, Copy, Debug, PartialEq, Eq, Structural)]
pub struct Vertex {
    pub position: Vec3Milli,
    pub uv: TexCoord,
}

/// Toroidal wrap of a camera-relative coordinate into
/// `[-extent/2, extent/2)`.
pub open spec fn spec_wrap(local: int, extent: int) -> int {
    (local + extent / 2) % extent - extent / 2
}

/// Magnitude of an integer.
pub open spec fn spec_abs(a: int) -> int {
    if a >= 0 {
        a
    } else {
        -a
    }
}

/// Whether a vertex at this pre-wrap position counts as relocated: wrapping
/// moved it by more than [`WRAP_EPSILON`] on either axis.
pub open spec fn spec_wrapped_this_tick(ax: int, az: int, extent: int) -> bool {
    ||| spec_abs(spec_wrap(ax, extent) - ax) > WRAP_EPSILON
    ||| spec_abs(spec_wrap(az, extent) - az) > WRAP_EPSILON
}

/// The stable base-terrain height at a world position: base-frequency noise
/// sampled with no time component, scaled by the base amplitude.
pub open spec fn spec_base_height(seed: u32, world_x: int, world_z: int, physics: OceanPhysics) -> int {
    spec_mul_milli(
        spec_noise(
            seed,
            spec_mul_milli(world_x, physics.base_terrain_frequency as int),
            spec_mul_milli(world_z, physics.base_terrain_frequency as int),
            0,
        ),
        physics.base_terrain_amplitude_m as int,
    )
}

/// The animated detail height at a world position: detail-frequency noise
/// sampled at the scaled time, scaled by the (audio-modulated) detail
/// amplitude.
pub open spec fn spec_detail_height(
    seed: u32,
    world_x: int,
    world_z: int,
    t: int,
    amplitude: int,
    frequency: int,
) -> int {
    spec_mul_milli(
        spec_noise(seed, spec_mul_milli(world_x, frequency), spec_mul_milli(world_z, frequency), t),
        amplitude,
    )
}

/// The vertex of a freshly built grid at flat index `i`: a flat XZ plane
/// centered on the origin, with texture coordinates spanning `[0, 1]`.
pub open spec fn spec_initial_vertex(g: int, spacing: int, i: int, v: Vertex) -> bool {
    let row = i / (g + 1);
    let col = i % (g + 1);
    let half = (g * spacing) / 2;
    &&& v.position.x == col * spacing - half
    &&& v.position.y == 0
    &&& v.position.z == row * spacing - half
    &&& v.uv.u == (col * 1000) / g
    &&& v.uv.v == (row * 1000) / g
}

/// Entry `j` of the full triangle index list: each grid cell gets two
/// counter-clockwise triangles.
pub open spec fn spec_grid_index(g: int, j: int) -> int {
    let q = j / 6;
    let k = j % 6;
    let cz = q / g;
    let cx = q % g;
    let tl = cz * (g + 1) + cx;
    let bl = (cz + 1) * (g + 1) + cx;
    if k == 0 {
        tl
    } else if k == 1 {
        bl
    } else if k == 2 {
        tl + 1
    } else if k == 3 {
        tl + 1
    } else if k == 4 {
        bl
    } else {
        bl + 1
    }
}

/// The squared distance between two vertex positions.
pub open spec fn spec_edge_sq(a: Vertex, b: Vertex) -> int {
    let dx = a.position.x - b.position.x;
    let dy = a.position.y - b.position.y;
    let dz = a.position.z - b.position.z;
    dx * dx + dy * dy + dz * dz
}

/// Whether triangle `q` of the index list keeps all three squared edge
/// lengths within the squared threshold `(10 * grid_spacing)^2`.
pub open spec fn spec_triangle_ok(vs: Seq<Vertex>, indices: Seq<u32>, q: int, spacing: int) -> bool {
    let a = vs[indices[3 * q] as int];
    let b = vs[indices[3 * q + 1] as int];
    let c = vs[indices[3 * q + 2] as int];
    let thr = (10 * spacing) * (10 * spacing);
    spec_edge_sq(a, b) <= thr && spec_edge_sq(b, c) <= thr && spec_edge_sq(c, a) <= thr
}

/// The filtered index list over the first `n` triangles: every triangle
/// whose edges all stay within the threshold, in order, and nothing else.
pub open spec fn spec_filter_triangles(
    vs: Seq<Vertex>,
    indices: Seq<u32>,
    spacing: int,
    n: int,
) -> Seq<u32>
    decreases n,
{
    if n <= 0 {
        Seq::empty()
    } else {
        let rest = spec_filter_triangles(vs, indices, spacing, n - 1);
        if spec_triangle_ok(vs, indices, n - 1, spacing) {
            rest + seq![indices[3 * (n - 1)], indices[3 * (n - 1) + 1], indices[3 * (n - 1) + 2]]
        } else {
            rest
        }
    }
}

/// Ocean grid mesh with two-layer procedural terrain and toroidal wrapping.
pub struct OceanGrid {
    /// The vertex array, one per grid cell corner.
    pub vertices: Vec<Vertex>,
    /// The full triangle index list (fixed after construction).
    pub indices: Vec<u32>,
    /// The filtered index list: full list minus stretched triangles.
    pub filtered_indices: Vec<u32>,
    /// The noise generator driving both terrain layers.
    pub noise: NoiseGenerator,
    /// Cells per grid side.
    pub grid_size: usize,
    /// Vertex spacing in milli-meters.
    pub grid_spacing: i64,
    /// The camera position of the last tick.
    pub last_camera_pos: Vec3Milli,
    /// Cached base-terrain heights, one per vertex.
    pub base_terrain_heights: Vec<i64>,
    /// Per-vertex flags: set when the cached base height does not yet
    /// describe the vertex's current location.
    pub dirty_base_terrain: Vec<bool>,
}

impl OceanGrid {
    /// Cells per grid side, as a mathematical integer.
    pub open spec fn spec_grid_size(self) -> int {
        self.grid_size as int
    }

    /// Vertex spacing, as a mathematical integer.
    pub open spec fn spec_grid_spacing(self) -> int {
        self.grid_spacing as int
    }

    /// The grid extent in milli-meters.
    pub open spec fn spec_extent(self) -> int {
        self.spec_grid_size() * self.spec_grid_spacing()
    }

    /// Half the grid extent.
    pub open spec fn spec_half(self) -> int {
        self.spec_extent() / 2
    }

    /// The camera position of the last tick.
    pub open spec fn spec_last_camera_pos(self) -> Vec3Milli {
        self.last_camera_pos
    }

    /// The noise seed driving both terrain layers.
    pub open spec fn spec_seed(self) -> u32 {
        self.noise.spec_seed()
    }

    /// The cached base-terrain heights, one per vertex.
    pub open spec fn spec_base_heights(self) -> Seq<i64> {
        self.base_terrain_heights@
    }

    /// The per-vertex dirty flags: set when the cached base height does not
    /// yet describe the vertex's current location.
    pub open spec fn spec_dirty(self) -> Seq<bool> {
        self.dirty_base_terrain@
    }

    /// Structural invariant of a grid: array lengths agree, indices are in
    /// bounds, coordinates and heights are bounded, and a clean dirty flag
    /// means the vertex sits strictly inside the wrap window.
    pub open spec fn well_formed(self) -> bool {
        &&& 0 < self.spec_grid_size() <= MAX_GRID_SIZE
        &&& 0 < self.spec_grid_spacing() <= MAX_GRID_SPACING
        &&& self.spec_extent() % 2 == 0
        &&& self.vertices@.len() == (self.spec_grid_size() + 1) * (self.spec_grid_size() + 1)
        &&& self.indices@.len() == 6 * self.spec_grid_size() * self.spec_grid_size()
        &&& self.spec_base_heights().len() == self.vertices@.len()
        &&& self.spec_dirty().len() == self.vertices@.len()
        &&& (forall|j: int|
            0 <= j < self.indices@.len() ==> self.indices@[j] < self.vertices@.len())
        &&& (forall|i: int|
            0 <= i < self.vertices@.len() ==> {
                let p = (#[trigger] self.vertices@[i]).position;
                -self.spec_half() <= p.x <= self.spec_half() && -self.spec_half() <= p.z
                    <= self.spec_half() && -(MAX_AMPLITUDE + MAX_DETAIL_AMPLITUDE) <= p.y
                    <= MAX_AMPLITUDE + MAX_DETAIL_AMPLITUDE
            })
        &&& (forall|i: int|
            0 <= i < self.vertices@.len() ==> -MAX_AMPLITUDE <= #[trigger] self.spec_base_heights()[i]
                <= MAX_AMPLITUDE)
        &&& (forall|i: int|
            0 <= i < self.vertices@.len() && !(#[trigger] self.spec_dirty()[i]) ==> {
                let p = self.vertices@[i].position;
                -self.spec_half() <= p.x < self.spec_half() && -self.spec_half() <= p.z
                    < self.spec_half()
            })
        &&& -MAX_CAMERA_COORD <= self.spec_last_camera_pos().x <= MAX_CAMERA_COORD
        &&& -MAX_CAMERA_COORD <= self.spec_last_camera_pos().z <= MAX_CAMERA_COORD
    }

    /// The grid was built from these physics parameters.
    pub open spec fn matches_physics(self, physics: OceanPhysics) -> bool {
        &&& self.spec_grid_size() == physics.grid_size
        &&& self.spec_grid_spacing() == physics.grid_spacing_m
        &&& self.spec_seed() == physics.noise_seed
    }

    /// Create a new ocean grid: a flat XZ plane of `(grid_size + 1)^2`
    /// vertices centered on the origin, `grid_size^2 * 6` triangle indices,
    /// an initially unfiltered index list, and every base-terrain cache
    /// entry marked dirty.
    pub fn new(physics: &OceanPhysics) -> (grid: Self)
        requires
            physics.well_formed(),
        ensures
            grid.well_formed(),
            grid.matches_physics(*physics),
            grid.vertices@.len() == (physics.grid_size + 1) * (physics.grid_size + 1),
            grid.indices@.len() == 6 * physics.grid_size * physics.grid_size,
            grid.filtered_indices@ == grid.indices@,
            grid.spec_last_camera_pos() == (Vec3Milli { x: 0, y: 0, z: 0 }),
            forall|i: int|
                0 <= i < grid.vertices@.len() ==> spec_initial_vertex(
                    physics.grid_size as int,
                    physics.grid_spacing_m as int,
                    i,
                    #[trigger] grid.vertices@[i],
                ),
            forall|j: int|
                0 <= j < grid.indices@.len() ==> #[trigger] grid.indices@[j] == spec_grid_index(
                    physics.grid_size as int,
                    j,
                ),
            forall|i: int| 0 <= i < grid.vertices@.len() ==> #[trigger] grid.spec_dirty()[i],
            forall|i: int|
                0 <= i < grid.vertices@.len() ==> #[trigger] grid.spec_base_heights()[i] == 0,
    {
        let g = physics.grid_size;
        let spacing = physics.grid_spacing_m;
        proof {
            assert(0 <= (g as int) * (spacing as int) <= 409_600_000) by (nonlinear_arith)
                requires
                    0 < g <= MAX_GRID_SIZE,
                    0 < spacing <= MAX_GRID_SPACING,
            ;
        }
        let extent = (g as i64) * spacing;
        let half = extent / 2;
        let ghost gi = g as int;
        let ghost si = spacing as int;

        let mut vertices: Vec<Vertex> = Vec::new();
        let mut z: usize = 0;
        while z <= g
            invariant
                0 < g <= MAX_GRID_SIZE,
                0 < spacing <= MAX_GRID_SPACING,
                gi == g as int,
                si == spacing as int,
                extent == gi * si,
                half == extent / 2,
                z <= g + 1,
                vertices@.len() == z * (gi + 1),
                forall|i: int|
                    0 <= i < vertices@.len() ==> spec_initial_vertex(
                        gi,
                        si,
                        i,
                        #[trigger] vertices@[i],
                    ),
            decreases g + 1 - z,
        {
            let mut x: usize = 0;
            while x <= g
                invariant
                    0 < g <= MAX_GRID_SIZE,
                    0 < spacing <= MAX_GRID_SPACING,
                    gi == g as int,
                    si == spacing as int,
                    extent == gi * si,
                    half == extent / 2,
                    z <= g,
                    x <= g + 1,
                    vertices@.len() == z * (gi + 1) + x,
                    forall|i: int|
                        0 <= i < vertices@.len() ==> spec_initial_vertex(
                            gi,
                            si,
                            i,
                            #[trigger] vertices@[i],
                        ),
                decreases g + 1 - x,
            {
                proof {
                    lemma_row_col_bounds(gi, si, z as int, x as int);
                }
                let x_pos = (x as i64) * spacing - half;
                let z_pos = (z as i64) * spacing - half;
                let u = ((x as i64) * 1000) / (g as i64);
                let v = ((z as i64) * 1000) / (g as i64);
                let vert = Vertex {
                    position: Vec3Milli { x: x_pos, y: 0, z: z_pos },
                    uv: TexCoord { u, v },
                };
                proof {
                    vstd::arithmetic::div_mod::lemma_fundamental_div_mod_converse(
                        vertices@.len() as int,
                        gi + 1,
                        z as int,
                        x as int,
                    );
                }
                vertices.push(vert);
                x = x + 1;
            }
            z = z + 1;
            proof {
                assert((z - 1) * (gi + 1) + (gi + 1) == z * (gi + 1)) by (nonlinear_arith);
            }
        }
        proof {
            assert(6 * (gi * gi) == 6 * gi * gi) by (nonlinear_arith);
        }

        let mut indices: Vec<u32> = Vec::new();
        let mut cz: usize = 0;
        while cz < g
            invariant
                0 < g <= MAX_GRID_SIZE,
                gi == g as int,
                cz <= g,
                indices@.len() == 6 * (cz * gi),
                forall|j: int|
                    0 <= j < indices@.len() ==> #[trigger] indices@[j] == spec_grid_index(gi, j),
                forall|j: int|
                    0 <= j < indices@.len() ==> indices@[j] < (gi + 1) * (gi + 1),
            decreases g - cz,
        {
            let mut cx: usize = 0;
            while cx < g
                invariant
                    0 < g <= MAX_GRID_SIZE,
                    gi == g as int,
                    cz < g,
                    cx <= g,
                    indices@.len() == 6 * (cz * gi + cx),
                    forall|j: int|
                        0 <= j < indices@.len() ==> #[trigger] indices@[j] == spec_grid_index(gi, j),
                    forall|j: int|
                        0 <= j < indices@.len() ==> indices@[j] < (gi + 1) * (gi + 1),
                decreases g - cx,
            {
                proof {
                    lemma_cell_corner_bounds(gi, cz as int, cx as int);
                    lemma_pushed_indices(gi, cz as int, cx as int, indices@.len() as int);
                }
                let ghost len0 = indices@.len() as int;
                let tl = (cz * (g + 1) + cx) as u32;
                let tr = tl + 1;
                let bl = ((cz + 1) * (g + 1) + cx) as u32;
                let br = bl + 1;
                indices.push(tl);
                indices.push(bl);
                indices.push(tr);
                indices.push(tr);
                indices.push(bl);
                indices.push(br);
                proof {
                    assert forall|j: int|
                        0 <= j < indices@.len() implies #[trigger] indices@[j] == spec_grid_index(
                        gi,
                        j,
                    ) by {
                        if j >= len0 {
                            let k = j - len0;
                            assert(spec_grid_index(gi, len0 + k) == spec_grid_index(gi, j));
                        }
                    }
                }
                cx = cx + 1;
            }
            cz = cz + 1;
            proof {
                assert((cz - 1) * gi + gi == cz * gi) by (nonlinear_arith);
            }
        }

        proof {
            assert(6 * (gi * gi) == 6 * gi * gi) by (nonlinear_arith);
        }
        let filtered_indices = indices.clone();
        let vertex_count = vertices.len();
        let grid = OceanGrid {
            vertices,
            indices,
            filtered_indices,
            noise: NoiseGenerator::new(physics.noise_seed),
            grid_size: g,
            grid_spacing: spacing,
            last_camera_pos: Vec3Milli { x: 0, y: 0, z: 0 },
            base_terrain_heights: vec![0i64; vertex_count],
            dirty_base_terrain: vec![true; vertex_count],
        };
        proof {
            lemma_initial_grid_well_formed(grid, *physics);
        }
        grid
    }

    /// Recompute the stable base-terrain height at an arbitrary world
    /// position, bypassing the cache, for physics queries not tied to the
    /// live mesh.
    pub fn query_base_terrain(&self, world_x: i64, world_z: i64, physics: &OceanPhysics) -> (h: i64)
        requires
            physics.well_formed(),
            self.matches_physics(*physics),
            -2 * MAX_CAMERA_COORD <= world_x <= 2 * MAX_CAMERA_COORD,
            -2 * MAX_CAMERA_COORD <= world_z <= 2 * MAX_CAMERA_COORD,
        ensures
            h == spec_base_height(self.spec_seed(), world_x as int, world_z as int, *physics),
            -MAX_AMPLITUDE <= h <= MAX_AMPLITUDE,
    {
        proof {
            crate::units::lemma_mul_milli_bound(
                world_x as int,
                physics.base_terrain_frequency as int,
                2 * MAX_CAMERA_COORD,
                crate::params::MAX_FREQUENCY as int,
            );
            crate::units::lemma_mul_milli_bound(
                world_z as int,
                physics.base_terrain_frequency as int,
                2 * MAX_CAMERA_COORD,
                crate::params::MAX_FREQUENCY as int,
            );
        }
        let nx = mul_milli(world_x, physics.base_terrain_frequency);
        let nz = mul_milli(world_z, physics.base_terrain_frequency);
        let n = self.noise.sample_3d(nx, nz, 0);
        proof {
            crate::units::lemma_mul_milli_bound(
                n as int,
                physics.base_terrain_amplitude_m as int,
                1000,
                MAX_AMPLITUDE as int,
            );
        }
        mul_milli(n, physics.base_terrain_amplitude_m)
    }
}

/// How one tick transforms vertex `i`: advected by the camera delta,
/// wrapped toroidally, base height recomputed exactly when the vertex
/// relocated or its cache was dirty, detail height always recomputed.
pub open spec fn spec_updated_vertex(
    pre: OceanGrid,
    post: OceanGrid,
    i: int,
    time: int,
    amp: int,
    freq: int,
    camera: Vec3Milli,
    physics: OceanPhysics,
) -> bool {
    let extent = pre.spec_extent();
    let dx = camera.x - pre.last_camera_pos.x;
    let dz = camera.z - pre.last_camera_pos.z;
    let ax = pre.vertices@[i].position.x - dx;
    let az = pre.vertices@[i].position.z - dz;
    let wx = spec_wrap(ax, extent);
    let wz = spec_wrap(az, extent);
    let wrapped = spec_wrapped_this_tick(ax, az, extent);
    let world_x = camera.x + wx;
    let world_z = camera.z + wz;
    let t = spec_mul_milli(time, physics.wave_speed as int);
    let base = if wrapped || pre.spec_dirty()[i] {
        spec_base_height(pre.spec_seed(), world_x, world_z, physics)
    } else {
        pre.spec_base_heights()[i] as int
    };
    &&& post.vertices@[i].position.x == wx
    &&& post.vertices@[i].position.z == wz
    &&& -pre.spec_half() <= wx < pre.spec_half()
    &&& -pre.spec_half() <= wz < pre.spec_half()
    &&& post.spec_base_heights()[i] == base
    &&& post.vertices@[i].position.y == base + spec_detail_height(
        pre.spec_seed(),
        world_x,
        world_z,
        t,
        amp,
        freq,
    )
    &&& post.vertices@[i].uv == pre.vertices@[i].uv
}

impl OceanGrid {
    /// One simulation tick.
    ///
    /// Advects every vertex opposite to the camera delta, wraps vertices
    /// that left the window back to the far side, recomputes the cached
    /// base-terrain height exactly for relocated or dirty vertices, adds the
    /// audio-modulated detail height everywhere, and rebuilds the filtered
    /// index list without stretched triangles. With an unmoved camera, every
    /// clean cache entry is reused untouched.
    #[verifier::rlimit(100)]
    pub fn update(
        &mut self,
        time_s: i64,
        detail_amplitude_m: i64,
        detail_frequency: i64,
        camera_pos: Vec3Milli,
        physics: &OceanPhysics,
    )
        requires
            old(self).well_formed(),
            physics.well_formed(),
            old(self).matches_physics(*physics),
            0 <= time_s <= MAX_TIME,
            0 <= detail_amplitude_m <= MAX_DETAIL_AMPLITUDE,
            0 <= detail_frequency <= MAX_DETAIL_FREQUENCY,
            -MAX_CAMERA_COORD <= camera_pos.x <= MAX_CAMERA_COORD,
            -MAX_CAMERA_COORD <= camera_pos.z <= MAX_CAMERA_COORD,
        ensures
            final(self).well_formed(),
            final(self).matches_physics(*physics),
            final(self).indices@ == old(self).indices@,
            final(self).vertices@.len() == old(self).vertices@.len(),
            final(self).spec_last_camera_pos() == camera_pos,
            forall|i: int|
                0 <= i < final(self).vertices@.len() ==> spec_updated_vertex(
                    *old(self),
                    *final(self),
                    i,
                    time_s as int,
                    detail_amplitude_m as int,
                    detail_frequency as int,
                    camera_pos,
                    *physics,
                ),
            forall|i: int|
                0 <= i < final(self).vertices@.len() ==> !(#[trigger] final(self).spec_dirty()[i]),
            final(self).filtered_indices@ == spec_filter_triangles(
                final(self).vertices@,
                final(self).indices@,
                physics.grid_spacing_m as int,
                final(self).indices@.len() as int / 3,
            ),
            camera_pos == old(self).spec_last_camera_pos() ==> forall|i: int|
                0 <= i < final(self).vertices@.len() && !(#[trigger] old(self).spec_dirty()[i])
                    ==> final(self).spec_base_heights()[i] == old(self).spec_base_heights()[i]
                    && final(self).vertices@[i].position.x == old(self).vertices@[i].position.x
                    && final(self).vertices@[i].position.z == old(self).vertices@[i].position.z,
    {
        let ghost pre = *old(self);
        let dx = camera_pos.x - self.last_camera_pos.x;
        let dz = camera_pos.z - self.last_camera_pos.z;
        self.last_camera_pos = camera_pos;
        proof {
            assert(0 < (self.grid_size as int) * (self.grid_spacing as int) <= 409_600_000)
                by (nonlinear_arith)
                requires
                    0 < self.grid_size <= MAX_GRID_SIZE,
                    0 < self.grid_spacing <= MAX_GRID_SPACING,
            ;
        }
        let extent = (self.grid_size as i64) * self.grid_spacing;
        let half = extent / 2;
        proof {
            crate::units::lemma_mul_milli_bound(
                time_s as int,
                physics.wave_speed as int,
                MAX_TIME as int,
                crate::params::MAX_WAVE_SPEED as int,
            );
        }
        let t = mul_milli(time_s, physics.wave_speed);
        let n = self.vertices.len();
        let mut i: usize = 0;
        while i < n
            invariant
                pre == *old(self),
                pre.well_formed(),
                physics.well_formed(),
                pre.matches_physics(*physics),
                0 <= time_s <= MAX_TIME,
                0 <= detail_amplitude_m <= MAX_DETAIL_AMPLITUDE,
                0 <= detail_frequency <= MAX_DETAIL_FREQUENCY,
                -MAX_CAMERA_COORD <= camera_pos.x <= MAX_CAMERA_COORD,
                -MAX_CAMERA_COORD <= camera_pos.z <= MAX_CAMERA_COORD,
                dx == camera_pos.x - pre.spec_last_camera_pos().x,
                dz == camera_pos.z - pre.spec_last_camera_pos().z,
                extent == pre.spec_extent(),
                2 <= extent <= 409_600_000,
                extent % 2 == 0,
                half == extent / 2,
                t == spec_mul_milli(time_s as int, physics.wave_speed as int),
                -100_000_000_000_000 <= t <= 100_000_000_000_000,
                self.grid_size == pre.grid_size,
                self.grid_spacing == pre.grid_spacing,
                self.noise == pre.noise,
                self.last_camera_pos == camera_pos,
                self.indices@ == pre.indices@,
                self.filtered_indices@ == pre.filtered_indices@,
                n == self.vertices@.len(),
                self.vertices@.len() == pre.vertices@.len(),
                self.base_terrain_heights@.len() == n,
                self.dirty_base_terrain@.len() == n,
                i <= n,
                forall|k: int|
                    i <= k < n ==> #[trigger] self.vertices@[k] == pre.vertices@[k],
                forall|k: int|
                    i <= k < n ==> #[trigger] self.base_terrain_heights@[k]
                        == pre.spec_base_heights()[k],
                forall|k: int|
                    i <= k < n ==> #[trigger] self.dirty_base_terrain@[k] == pre.spec_dirty()[k],
                forall|k: int|
                    0 <= k < i ==> spec_updated_vertex(
                        pre,
                        *self,
                        k,
                        time_s as int,
                        detail_amplitude_m as int,
                        detail_frequency as int,
                        camera_pos,
                        *physics,
                    ),
                forall|k: int| 0 <= k < i ==> !(#[trigger] self.dirty_base_terrain@[k]),
                forall|k: int|
                    0 <= k < i ==> -MAX_AMPLITUDE <= #[trigger] self.base_terrain_heights@[k]
                        <= MAX_AMPLITUDE,
                forall|k: int|
                    0 <= k < i ==> {
                        let p = (#[trigger] self.vertices@[k]).position;
                        -500_000_000 <= p.x <= 500_000_000 && -500_000_000 <= p.z <= 500_000_000
                            && -(MAX_AMPLITUDE + MAX_DETAIL_AMPLITUDE) <= p.y <= MAX_AMPLITUDE
                            + MAX_DETAIL_AMPLITUDE
                    },
            decreases n - i,
        {
            let ghost at_entry = *self;
            let v = self.vertices[i];
            proof {
                assert(-half <= v.position.x <= half && -half <= v.position.z <= half);
            }
            let ax = v.position.x - dx;
            let az = v.position.z - dz;
            let wx = wrap_coord(ax, extent);
            let wz = wrap_coord(az, extent);
            let wrapped = abs_i64(wx - ax) > WRAP_EPSILON || abs_i64(wz - az) > WRAP_EPSILON;
            let world_x = camera_pos.x + wx;
            let world_z = camera_pos.z + wz;
            let dirty = self.dirty_base_terrain[i];
            proof {
                crate::units::lemma_mul_milli_bound(
                    world_x as int,
                    physics.base_terrain_frequency as int,
                    101_000_000_000,
                    crate::params::MAX_FREQUENCY as int,
                );
                crate::units::lemma_mul_milli_bound(
                    world_z as int,
                    physics.base_terrain_frequency as int,
                    101_000_000_000,
                    crate::params::MAX_FREQUENCY as int,
                );
                crate::units::lemma_mul_milli_bound(
                    world_x as int,
                    detail_frequency as int,
                    101_000_000_000,
                    MAX_DETAIL_FREQUENCY as int,
                );
                crate::units::lemma_mul_milli_bound(
                    world_z as int,
                    detail_frequency as int,
                    101_000_000_000,
                    MAX_DETAIL_FREQUENCY as int,
                );
            }
            let base_h: i64;
            if wrapped || dirty {
                let nx = mul_milli(world_x, physics.base_terrain_frequency);
                let nz = mul_milli(world_z, physics.base_terrain_frequency);
                let nv = self.noise.sample_3d(nx, nz, 0);
                proof {
                    crate::units::lemma_mul_milli_bound(
                        nv as int,
                        physics.base_terrain_amplitude_m as int,
                        1000,
                        MAX_AMPLITUDE as int,
                    );
                }
                base_h = mul_milli(nv, physics.base_terrain_amplitude_m);
                self.base_terrain_heights[i] = base_h;
            } else {
                base_h = self.base_terrain_heights[i];
            }
            self.dirty_base_terrain[i] = false;
            let ndx = mul_milli(world_x, detail_frequency);
            let ndz = mul_milli(world_z, detail_frequency);
            let dv = self.noise.sample_3d(ndx, ndz, t);
            proof {
                crate::units::lemma_mul_milli_bound(
                    dv as int,
                    detail_amplitude_m as int,
                    1000,
                    MAX_DETAIL_AMPLITUDE as int,
                );
            }
            let detail_h = mul_milli(dv, detail_amplitude_m);
            let y = base_h + detail_h;
            self.vertices[i] = Vertex { position: Vec3Milli { x: wx, y, z: wz }, uv: v.uv };
            proof {
                assert forall|k: int| 0 <= k < i + 1 implies spec_updated_vertex(
                    pre,
                    *self,
                    k,
                    time_s as int,
                    detail_amplitude_m as int,
                    detail_frequency as int,
                    camera_pos,
                    *physics,
                ) by {
                    if k < i {
                        assert(spec_updated_vertex(
                            pre,
                            at_entry,
                            k,
                            time_s as int,
                            detail_amplitude_m as int,
                            detail_frequency as int,
                            camera_pos,
                            *physics,
                        ));
                    }
                }
            }
            i = i + 1;
        }
        proof {
            if camera_pos == pre.spec_last_camera_pos() {
                assert forall|i: int|
                    0 <= i < self.vertices@.len() && !(#[trigger] pre.spec_dirty()[i]) implies
                    self.spec_base_heights()[i] == pre.spec_base_heights()[i]
                        && self.vertices@[i].position.x == pre.vertices@[i].position.x
                        && self.vertices@[i].position.z == pre.vertices@[i].position.z by {
                    let p = pre.vertices@[i].position;
                    lemma_wrap_identity(p.x as int, pre.spec_extent());
                    lemma_wrap_identity(p.z as int, pre.spec_extent());
                    assert(spec_updated_vertex(
                        pre,
                        *self,
                        i,
                        time_s as int,
                        detail_amplitude_m as int,
                        detail_frequency as int,
                        camera_pos,
                        *physics,
                    ));
                }
            }
        }
        let ghost mid = *self;
        self.filter_stretched_triangles();
        proof {
            assert forall|i: int| 0 <= i < self.vertices@.len() implies spec_updated_vertex(
                pre,
                *self,
                i,
                time_s as int,
                detail_amplitude_m as int,
                detail_frequency as int,
                camera_pos,
                *physics,
            ) by {
                assert(spec_updated_vertex(
                    pre,
                    mid,
                    i,
                    time_s as int,
                    detail_amplitude_m as int,
                    detail_frequency as int,
                    camera_pos,
                    *physics,
                ));
            }
            assert forall|i: int|
                0 <= i < self.vertices@.len() implies !(#[trigger] self.dirty_base_terrain@[i])
                    && -MAX_AMPLITUDE <= self.base_terrain_heights@[i] <= MAX_AMPLITUDE by {
                assert(!mid.dirty_base_terrain@[i]);
                assert(-MAX_AMPLITUDE <= mid.base_terrain_heights@[i] <= MAX_AMPLITUDE);
            }
            assert forall|i: int| 0 <= i < self.vertices@.len() implies {
                let p = (#[trigger] self.vertices@[i]).position;
                -pre.spec_half() <= p.x < pre.spec_half() && -pre.spec_half() <= p.z
                    < pre.spec_half() && -(MAX_AMPLITUDE + MAX_DETAIL_AMPLITUDE) <= p.y
                    <= MAX_AMPLITUDE + MAX_DETAIL_AMPLITUDE
            } by {
                assert(spec_updated_vertex(
                    pre,
                    mid,
                    i,
                    time_s as int,
                    detail_amplitude_m as int,
                    detail_frequency as int,
                    camera_pos,
                    *physics,
                ));
                let p = mid.vertices@[i].position;
                assert(-(MAX_AMPLITUDE + MAX_DETAIL_AMPLITUDE) <= p.y <= MAX_AMPLITUDE
                    + MAX_DETAIL_AMPLITUDE);
            }
            if camera_pos == pre.spec_last_camera_pos() {
                assert forall|i: int|
                    0 <= i < self.vertices@.len() && !(#[trigger] pre.spec_dirty()[i]) implies
                    self.spec_base_heights()[i] == pre.spec_base_heights()[i]
                        && self.vertices@[i].position.x == pre.vertices@[i].position.x
                        && self.vertices@[i].position.z == pre.vertices@[i].position.z by {
                    assert(mid.spec_base_heights()[i] == pre.spec_base_heights()[i]
                        && mid.vertices@[i].position.x == pre.vertices@[i].position.x
                        && mid.vertices@[i].position.z == pre.vertices@[i].position.z);
                }
            }
        }
    }

    /// Rebuild the filtered index list: keep, in order, exactly the
    /// triangles of the full list whose three squared edge lengths all stay
    /// within `(10 * grid_spacing)^2`.
    fn filter_stretched_triangles(&mut self)
        requires
            0 < old(self).grid_size <= MAX_GRID_SIZE,
            0 < old(self).grid_spacing <= MAX_GRID_SPACING,
            old(self).indices@.len() == 6 * old(self).spec_grid_size() * old(self).spec_grid_size(),
            forall|j: int|
                0 <= j < old(self).indices@.len() ==> old(self).indices@[j]
                    < old(self).vertices@.len(),
            forall|i: int|
                0 <= i < old(self).vertices@.len() ==> {
                    let p = (#[trigger] old(self).vertices@[i]).position;
                    -500_000_000 <= p.x <= 500_000_000 && -500_000_000 <= p.z <= 500_000_000 && -(
                    MAX_AMPLITUDE + MAX_DETAIL_AMPLITUDE) <= p.y <= MAX_AMPLITUDE
                        + MAX_DETAIL_AMPLITUDE
                },
        ensures
            final(self).vertices@ == old(self).vertices@,
            final(self).indices@ == old(self).indices@,
            final(self).noise == old(self).noise,
            final(self).grid_size == old(self).grid_size,
            final(self).grid_spacing == old(self).grid_spacing,
            final(self).last_camera_pos == old(self).last_camera_pos,
            final(self).base_terrain_heights@ == old(self).base_terrain_heights@,
            final(self).dirty_base_terrain@ == old(self).dirty_base_terrain@,
            final(self).filtered_indices@ == spec_filter_triangles(
                old(self).vertices@,
                old(self).indices@,
                old(self).grid_spacing as int,
                old(self).indices@.len() as int / 3,
            ),
    {
        let ghost pre = *old(self);
        let ntri = self.indices.len() / 3;
        let edge_max = 10 * self.grid_spacing;
        proof {
            assert(0 <= (edge_max as int) * (edge_max as int) <= 1_000_000_000_000)
                by (nonlinear_arith)
                requires
                    0 < edge_max <= 1_000_000,
            ;
            let gs = self.spec_grid_size();
            let len = self.indices@.len() as int;
            assert(len == 3 * (2 * gs * gs)) by (nonlinear_arith)
                requires
                    len == 6 * gs * gs,
            ;
            vstd::arithmetic::div_mod::lemma_div_multiples_vanish(2 * gs * gs, 3);
            assert(len / 3 == 2 * gs * gs);
            assert(2 * gs * gs <= 33_554_432) by (nonlinear_arith)
                requires
                    0 < gs <= MAX_GRID_SIZE,
            ;
        }
        let thr = (edge_max as i128) * (edge_max as i128);
        self.filtered_indices = Vec::new();
        let mut q: usize = 0;
        while q < ntri
            invariant
                pre == *old(self),
                0 < self.grid_spacing <= MAX_GRID_SPACING,
                self.vertices@ == pre.vertices@,
                self.indices@ == pre.indices@,
                self.noise == pre.noise,
                self.grid_size == pre.grid_size,
                self.grid_spacing == pre.grid_spacing,
                self.last_camera_pos == pre.last_camera_pos,
                self.base_terrain_heights@ == pre.base_terrain_heights@,
                self.dirty_base_terrain@ == pre.dirty_base_terrain@,
                ntri == self.indices@.len() as int / 3,
                3 * ntri == self.indices@.len(),
                ntri <= 33_554_432,
                forall|j: int|
                    0 <= j < self.indices@.len() ==> self.indices@[j] < self.vertices@.len(),
                forall|i: int|
                    0 <= i < self.vertices@.len() ==> {
                        let p = (#[trigger] self.vertices@[i]).position;
                        -500_000_000 <= p.x <= 500_000_000 && -500_000_000 <= p.z <= 500_000_000
                            && -(MAX_AMPLITUDE + MAX_DETAIL_AMPLITUDE) <= p.y <= MAX_AMPLITUDE
                            + MAX_DETAIL_AMPLITUDE
                    },
                edge_max == 10 * self.grid_spacing,
                thr == (edge_max as int) * (edge_max as int),
                q <= ntri,
                self.filtered_indices@ == spec_filter_triangles(
                    self.vertices@,
                    self.indices@,
                    self.grid_spacing as int,
                    q as int,
                ),
            decreases ntri - q,
        {
            let i0 = self.indices[3 * q] as usize;
            let i1 = self.indices[3 * q + 1] as usize;
            let i2 = self.indices[3 * q + 2] as usize;
            let v0 = self.vertices[i0];
            let v1 = self.vertices[i1];
            let v2 = self.vertices[i2];
            let e01 = edge_len_sq(&v0, &v1);
            let e12 = edge_len_sq(&v1, &v2);
            let e20 = edge_len_sq(&v2, &v0);
            let ghost before = self.filtered_indices@;
            if e01 <= thr && e12 <= thr && e20 <= thr {
                let a = self.indices[3 * q];
                let b = self.indices[3 * q + 1];
                let c = self.indices[3 * q + 2];
                self.filtered_indices.push(a);
                self.filtered_indices.push(b);
                self.filtered_indices.push(c);
                proof {
                    assert(spec_triangle_ok(
                        self.vertices@,
                        self.indices@,
                        q as int,
                        self.grid_spacing as int,
                    ));
                    assert(self.filtered_indices@ =~= spec_filter_triangles(
                        self.vertices@,
                        self.indices@,
                        self.grid_spacing as int,
                        q as int + 1,
                    ));
                }
            } else {
                proof {
                    assert(!spec_triangle_ok(
                        self.vertices@,
                        self.indices@,
                        q as int,
                        self.grid_spacing as int,
                    ));
                    assert(self.filtered_indices@ =~= spec_filter_triangles(
                        self.vertices@,
                        self.indices@,
                        self.grid_spacing as int,
                        q as int + 1,
                    ));
                }
            }
            q = q + 1;
        }
    }
}

/// Toroidal wrap of an advected coordinate into `[-extent/2, extent/2)`.
fn wrap_coord(local: i64, extent: i64) -> (r: i64)
    requires
        2 <= extent <= 409_600_000,
        extent % 2 == 0,
        -500_000_000_000 <= local <= 500_000_000_000,
    ensures
        r == spec_wrap(local as int, extent as int),
        -extent / 2 <= r < extent / 2,
{
    let half = extent / 2;
    proof {
        vstd::arithmetic::div_mod::lemma_fundamental_div_mod(extent as int, 2);
    }
    rem_euclid_i64(local + half, extent) - half
}

/// A coordinate already strictly inside the wrap window wraps to itself.
proof fn lemma_wrap_identity(local: int, extent: int)
    requires
        2 <= extent,
        extent % 2 == 0,
        -extent / 2 <= local < extent / 2,
    ensures
        spec_wrap(local, extent) == local,
{
    let half = extent / 2;
    vstd::arithmetic::div_mod::lemma_fundamental_div_mod(extent, 2);
    assert(0 <= local + half < extent);
    vstd::arithmetic::div_mod::lemma_small_mod((local + half) as nat, extent as nat);
}

/// Magnitude of an integer.
fn abs_i64(a: i64) -> (r: i64)
    requires
        i64::MIN < a,
    ensures
        r == spec_abs(a as int),
{
    if a < 0 {
        -a
    } else {
        a
    }
}

/// The squared distance between two vertex positions, wide enough that no
/// in-range height or coordinate can overflow it.
fn edge_len_sq(a: &Vertex, b: &Vertex) -> (r: i128)
    requires
        -500_000_000 <= a.position.x <= 500_000_000,
        -500_000_000 <= b.position.x <= 500_000_000,
        -500_000_000 <= a.position.z <= 500_000_000,
        -500_000_000 <= b.position.z <= 500_000_000,
        -(MAX_AMPLITUDE + MAX_DETAIL_AMPLITUDE) <= a.position.y <= MAX_AMPLITUDE
            + MAX_DETAIL_AMPLITUDE,
        -(MAX_AMPLITUDE + MAX_DETAIL_AMPLITUDE) <= b.position.y <= MAX_AMPLITUDE
            + MAX_DETAIL_AMPLITUDE,
    ensures
        r == spec_edge_sq(*a, *b),
{
    let dx = (a.position.x - b.position.x) as i128;
    let dy = (a.position.y - b.position.y) as i128;
    let dz = (a.position.z - b.position.z) as i128;
    proof {
        assert(dx * dx <= 1_000_000_000_000_000_000 && 0 <= dx * dx) by (nonlinear_arith)
            requires
                -1_000_000_000 <= dx <= 1_000_000_000,
        ;
        assert(dy * dy <= 36_000_000_000_000_000_000 && 0 <= dy * dy) by (nonlinear_arith)
            requires
                -6_000_000_000 <= dy <= 6_000_000_000,
        ;
        assert(dz * dz <= 1_000_000_000_000_000_000 && 0 <= dz * dz) by (nonlinear_arith)
            requires
                -1_000_000_000 <= dz <= 1_000_000_000,
        ;
    }
    dx * dx + dy * dy + dz * dz
}

/// Triple `m` of an index list keeps all three squared edge lengths within
/// the squared threshold `(10 * spacing)^2`.
pub open spec fn spec_triple_within(vs: Seq<Vertex>, f: Seq<u32>, spacing: int, m: int) -> bool {
    let a = vs[f[3 * m] as int];
    let b = vs[f[3 * m + 1] as int];
    let c = vs[f[3 * m + 2] as int];
    let thr = (10 * spacing) * (10 * spacing);
    spec_edge_sq(a, b) <= thr && spec_edge_sq(b, c) <= thr && spec_edge_sq(c, a) <= thr
}

/// Every triangle retained in the filtered index list keeps all three edge
/// lengths within `10 * grid_spacing`: the list is a whole number of
/// triples, and each triple's squared edge lengths stay within the squared
/// threshold.
pub proof fn lemma_filtered_triples_within(vs: Seq<Vertex>, indices: Seq<u32>, spacing: int, n: int)
    ensures
        spec_filter_triangles(vs, indices, spacing, n).len() % 3 == 0,
        forall|m: int|
            0 <= m && 3 * m + 2 < spec_filter_triangles(vs, indices, spacing, n).len()
                ==> #[trigger] spec_triple_within(
                vs,
                spec_filter_triangles(vs, indices, spacing, n),
                spacing,
                m,
            ),
    decreases n,
{
    if n <= 0 {
    } else {
        lemma_filtered_triples_within(vs, indices, spacing, n - 1);
        let g = spec_filter_triangles(vs, indices, spacing, n - 1);
        let f = spec_filter_triangles(vs, indices, spacing, n);
        if spec_triangle_ok(vs, indices, n - 1, spacing) {
            assert(f.len() == g.len() + 3);
            assert forall|m: int| 0 <= m && 3 * m + 2 < f.len() implies #[trigger] spec_triple_within(
                vs,
                f,
                spacing,
                m,
            ) by {
                if 3 * m + 2 < g.len() {
                    assert(spec_triple_within(vs, g, spacing, m));
                    assert(f[3 * m] == g[3 * m]);
                    assert(f[3 * m + 1] == g[3 * m + 1]);
                    assert(f[3 * m + 2] == g[3 * m + 2]);
                } else {
                    assert(3 * m == g.len()) by {
                        assert(g.len() % 3 == 0);
                        assert(3 * m < g.len() + 3);
                        assert(3 * m + 2 >= g.len());
                        vstd::arithmetic::div_mod::lemma_fundamental_div_mod(g.len() as int, 3);
                    }
                    assert(f[3 * m] == indices[3 * (n - 1)]);
                    assert(f[3 * m + 1] == indices[3 * (n - 1) + 1]);
                    assert(f[3 * m + 2] == indices[3 * (n - 1) + 2]);
                }
            }
        }
    }
}

/// Bounds that make one initial vertex's arithmetic safe and pin its value.
proof fn lemma_row_col_bounds(g: int, spacing: int, row: int, col: int)
    requires
        0 < g <= MAX_GRID_SIZE,
        0 < spacing <= MAX_GRID_SPACING,
        0 <= row <= g,
        0 <= col <= g,
    ensures
        0 <= row * spacing <= g * spacing,
        0 <= col * spacing <= g * spacing,
        g * spacing <= MAX_GRID_SIZE * MAX_GRID_SPACING,
        0 <= row * 1000 <= g * 1000,
        0 <= col * 1000 <= g * 1000,
        g * 1000 <= MAX_GRID_SIZE * 1000,
        0 <= (col * 1000) / g <= 1000,
        0 <= (row * 1000) / g <= 1000,
{
    assert(0 <= row * spacing <= g * spacing && 0 <= col * spacing <= g * spacing && g * spacing
        <= MAX_GRID_SIZE * MAX_GRID_SPACING && 0 <= row * 1000 <= g * 1000 && 0 <= col * 1000 <= g
        * 1000 && g * 1000 <= MAX_GRID_SIZE * 1000) by (nonlinear_arith)
        requires
            0 < g <= MAX_GRID_SIZE,
            0 < spacing <= MAX_GRID_SPACING,
            0 <= row <= g,
            0 <= col <= g,
    ;
    vstd::arithmetic::div_mod::lemma_div_pos_is_pos(col * 1000, g);
    vstd::arithmetic::div_mod::lemma_div_pos_is_pos(row * 1000, g);
    assert(col * 1000 <= 1000 * g && row * 1000 <= 1000 * g) by (nonlinear_arith)
        requires
            0 <= row <= g,
            0 <= col <= g,
    ;
    vstd::arithmetic::div_mod::lemma_div_is_ordered(col * 1000, 1000 * g, g);
    vstd::arithmetic::div_mod::lemma_div_is_ordered(row * 1000, 1000 * g, g);
    vstd::arithmetic::div_mod::lemma_div_multiples_vanish(1000, g);
}

/// Bounds on the four corner indices of one grid cell.
proof fn lemma_cell_corner_bounds(g: int, cz: int, cx: int)
    requires
        0 < g <= MAX_GRID_SIZE,
        0 <= cz < g,
        0 <= cx < g,
    ensures
        0 <= cz * (g + 1) + cx,
        cz * (g + 1) + cx < (cz + 1) * (g + 1) + cx,
        (cz + 1) * (g + 1) + cx + 1 < (g + 1) * (g + 1),
        (g + 1) * (g + 1) <= (MAX_GRID_SIZE + 1) * (MAX_GRID_SIZE + 1),
{
    assert(0 <= cz * (g + 1) + cx && cz * (g + 1) + cx < (cz + 1) * (g + 1) + cx && (cz + 1) * (g
        + 1) + cx + 1 < (g + 1) * (g + 1) && (g + 1) * (
    g + 1) <= (MAX_GRID_SIZE + 1) * (MAX_GRID_SIZE + 1)) by (nonlinear_arith)
        requires
            0 < g <= MAX_GRID_SIZE,
            0 <= cz < g,
            0 <= cx < g,
    ;
}

/// The six indices pushed for cell `(cz, cx)` are exactly entries
/// `len .. len + 6` of the full index list.
proof fn lemma_pushed_indices(g: int, cz: int, cx: int, len: int)
    requires
        0 < g,
        0 <= cz < g,
        0 <= cx < g,
        len == 6 * (cz * g + cx),
    ensures
        forall|k: int|
            0 <= k < 6 ==> #[trigger] spec_grid_index(g, len + k) == {
                let tl = cz * (g + 1) + cx;
                let bl = (cz + 1) * (g + 1) + cx;
                if k == 0 {
                    tl
                } else if k == 1 {
                    bl
                } else if k == 2 {
                    tl + 1
                } else if k == 3 {
                    tl + 1
                } else if k == 4 {
                    bl
                } else {
                    bl + 1
                }
            },
{
    let q = cz * g + cx;
    assert forall|k: int| 0 <= k < 6 implies #[trigger] spec_grid_index(g, len + k) == {
        let tl = cz * (g + 1) + cx;
        let bl = (cz + 1) * (g + 1) + cx;
        if k == 0 {
            tl
        } else if k == 1 {
            bl
        } else if k == 2 {
            tl + 1
        } else if k == 3 {
            tl + 1
        } else if k == 4 {
            bl
        } else {
            bl + 1
        }
    } by {
        vstd::arithmetic::div_mod::lemma_fundamental_div_mod_converse(len + k, 6, q, k);
        vstd::arithmetic::div_mod::lemma_fundamental_div_mod_converse(q, g, cz, cx);
    }
}

/// A freshly assembled grid satisfies the structural invariant.
proof fn lemma_initial_grid_well_formed(grid: OceanGrid, physics: OceanPhysics)
    requires
        physics.well_formed(),
        grid.spec_grid_size() == physics.grid_size,
        grid.spec_grid_spacing() == physics.grid_spacing_m,
        grid.vertices@.len() == (grid.spec_grid_size() + 1) * (grid.spec_grid_size() + 1),
        grid.indices@.len() == 6 * grid.spec_grid_size() * grid.spec_grid_size(),
        grid.spec_base_heights().len() == grid.vertices@.len(),
        grid.spec_dirty().len() == grid.vertices@.len(),
        grid.spec_last_camera_pos() == (Vec3Milli { x: 0, y: 0, z: 0 }),
        forall|i: int|
            0 <= i < grid.vertices@.len() ==> spec_initial_vertex(
                grid.spec_grid_size(),
                grid.spec_grid_spacing(),
                i,
                #[trigger] grid.vertices@[i],
            ),
        forall|j: int|
            0 <= j < grid.indices@.len() ==> grid.indices@[j] < (grid.spec_grid_size() + 1) * (
            grid.spec_grid_size() + 1),
        forall|i: int|
            0 <= i < grid.vertices@.len() ==> #[trigger] grid.spec_base_heights()[i] == 0,
        forall|i: int| 0 <= i < grid.vertices@.len() ==> #[trigger] grid.spec_dirty()[i],
    ensures
        grid.well_formed(),
{
    let g = grid.spec_grid_size();
    let s = grid.spec_grid_spacing();
    let half = grid.spec_half();
    assert(grid.spec_extent() % 2 == 0);
    assert forall|i: int| 0 <= i < grid.vertices@.len() implies {
        let p = (#[trigger] grid.vertices@[i]).position;
        -half <= p.x <= half && -half <= p.z <= half && -(MAX_AMPLITUDE + MAX_DETAIL_AMPLITUDE)
            <= p.y <= MAX_AMPLITUDE + MAX_DETAIL_AMPLITUDE
    } by {
        let row = i / (g + 1);
        let col = i % (g + 1);
        vstd::arithmetic::div_mod::lemma_mod_bound(i, g + 1);
        vstd::arithmetic::div_mod::lemma_div_pos_is_pos(i, g + 1);
        assert(i < (g + 1) * (g + 1));
        vstd::arithmetic::div_mod::lemma_multiply_divide_lt(i, g + 1, g + 1);
        assert(row <= g && col <= g);
        assert(0 <= row * s <= g * s && 0 <= col * s <= g * s) by (nonlinear_arith)
            requires
                0 <= row <= g,
                0 <= col <= g,
                0 < s,
        ;
        assert(2 * half <= g * s && g * s <= 2 * half + 1) by {
            vstd::arithmetic::div_mod::lemma_fundamental_div_mod(g * s, 2);
            vstd::arithmetic::div_mod::lemma_mod_bound(g * s, 2);
        }
    }
}

} // verus!
