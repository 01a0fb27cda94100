//! High-level ocean system: maps audio band energies to terrain parameters
//! and drives the grid.
//!
//! Only the detail ripple layer is modulated by audio; the base terrain
//! layer is intentionally immune, so the large-scale geometry stays stable.

use vstd::prelude::*;

use crate::mesh::{spec_updated_vertex, OceanGrid, Vec3Milli, MAX_CAMERA_COORD, MAX_TIME};
use crate::params::{AudioReactiveMapping, OceanPhysics};
use crate::units::spec_mul_milli;

verus! {

/// Highest accepted band energy, in milli-units (an energy of 1000).
pub const MAX_ENERGY: i64 = 1_000_000;

/// Audio frequency band energies: the latest published snapshot, replaced
/// wholesale, in milli-units.
#[derive(Clone, Copy, Debug, PartialEq, Eq, Structural)]
pub struct AudioBands {
    /// Bass band energy.
    pub low: i64,
    /// Mid band energy.
    pub mid: i64,
    /// High band energy.
    pub high: i64,
}

impl AudioBands {
    /// Band energies are non-negative and bounded.
    pub open spec fn well_formed(self) -> bool {
        &&& 0 <= self.low <= MAX_ENERGY
        &&& 0 <= self.mid <= MAX_ENERGY
        &&& 0 <= self.high <= MAX_ENERGY
    }
}

impl Default for AudioBands {
    /// Silence: all three band energies are zero.
    fn default() -> (b: Self)
        ensures
            b.low == 0 && b.mid == 0 && b.high == 0,
            b.well_formed(),
    {
        AudioBands { low: 0, mid: 0, high: 0 }
    }
}

/// High-level ocean system with physics and audio-reactive parameters.
pub struct OceanSystem {
    /// The terrain mesh.
    pub grid: OceanGrid,
    /// The session's physics parameters.
    pub physics: OceanPhysics,
    /// The session's audio-to-terrain gains.
    pub mapping: AudioReactiveMapping,
}

impl OceanSystem {
    /// The system invariant: both parameter sets are acceptable and the grid
    /// was built from this physics.
    pub open spec fn well_formed(self) -> bool {
        &&& self.physics.well_formed()
        &&& self.mapping.well_formed()
        &&& self.grid.well_formed()
        &&& self.grid.matches_physics(self.physics)
    }

    /// The audio-modulated detail amplitude:
    /// `detail_amplitude + low * bass_scale`.
    pub open spec fn spec_detail_amplitude(self, bands: AudioBands) -> int {
        self.physics.detail_amplitude_m + spec_mul_milli(
            bands.low as int,
            self.mapping.bass_to_amplitude_scale as int,
        )
    }

    /// The audio-modulated detail frequency:
    /// `detail_frequency + mid * mid_scale`.
    pub open spec fn spec_detail_frequency(self, bands: AudioBands) -> int {
        self.physics.detail_frequency + spec_mul_milli(
            bands.mid as int,
            self.mapping.mid_to_frequency_scale as int,
        )
    }

    /// The audio-modulated line width: `base_line_width + high * high_scale`.
    pub open spec fn spec_line_width(self, bands: AudioBands) -> int {
        self.physics.base_line_width + spec_mul_milli(
            bands.high as int,
            self.mapping.high_to_glow_scale as int,
        )
    }

    /// Create a new ocean system with the given parameters.
    pub fn new(physics: OceanPhysics, mapping: AudioReactiveMapping) -> (sys: Self)
        requires
            physics.well_formed(),
            mapping.well_formed(),
        ensures
            sys.well_formed(),
            sys.physics == physics,
            sys.mapping == mapping,
            sys.grid.spec_last_camera_pos() == (Vec3Milli { x: 0, y: 0, z: 0 }),
            sys.grid.vertices@.len() == (physics.grid_size + 1) * (physics.grid_size + 1),
            sys.grid.indices@.len() == 6 * physics.grid_size * physics.grid_size,
            forall|i: int| 0 <= i < sys.grid.vertices@.len() ==> #[trigger] sys.grid.spec_dirty()[i],
    {
        let grid = OceanGrid::new(&physics);
        OceanSystem { grid, physics, mapping }
    }

    /// One simulation tick: map the band energies to detail amplitude,
    /// detail frequency and line width, update the mesh with them, and
    /// return the three mapped parameters for the renderer.
    pub fn update(&mut self, time_s: i64, audio_bands: &AudioBands, camera_pos: Vec3Milli) -> (r: (
        i64,
        i64,
        i64,
    ))
        requires
            old(self).well_formed(),
            audio_bands.well_formed(),
            0 <= time_s <= MAX_TIME,
            -MAX_CAMERA_COORD <= camera_pos.x <= MAX_CAMERA_COORD,
            -MAX_CAMERA_COORD <= camera_pos.z <= MAX_CAMERA_COORD,
        ensures
            final(self).well_formed(),
            final(self).physics == old(self).physics,
            final(self).mapping == old(self).mapping,
            r.0 == old(self).spec_detail_amplitude(*audio_bands),
            r.1 == old(self).spec_detail_frequency(*audio_bands),
            r.2 == old(self).spec_line_width(*audio_bands),
            final(self).grid.spec_last_camera_pos() == camera_pos,
            final(self).grid.indices@ == old(self).grid.indices@,
            final(self).grid.vertices@.len() == old(self).grid.vertices@.len(),
            forall|i: int|
                0 <= i < final(self).grid.vertices@.len() ==> spec_updated_vertex(
                    old(self).grid,
                    final(self).grid,
                    i,
                    time_s as int,
                    old(self).spec_detail_amplitude(*audio_bands),
                    old(self).spec_detail_frequency(*audio_bands),
                    camera_pos,
                    old(self).physics,
                ),
            forall|i: int|
                0 <= i < final(self).grid.vertices@.len() ==> !(
                #[trigger] final(self).grid.spec_dirty()[i]),
            final(self).grid.filtered_indices@ == crate::mesh::spec_filter_triangles(
                final(self).grid.vertices@,
                final(self).grid.indices@,
                old(self).physics.grid_spacing_m as int,
                final(self).grid.indices@.len() as int / 3,
            ),
            camera_pos == old(self).grid.spec_last_camera_pos() ==> forall|i: int|
                0 <= i < final(self).grid.vertices@.len() && !(
                #[trigger] old(self).grid.spec_dirty()[i])
                    ==> final(self).grid.spec_base_heights()[i]
                    == old(self).grid.spec_base_heights()[i],
    {
        proof {
            crate::units::lemma_mul_milli_bound(
                audio_bands.low as int,
                self.mapping.bass_to_amplitude_scale as int,
                MAX_ENERGY as int,
                crate::params::MAX_MAPPING_SCALE as int,
            );
            crate::units::lemma_mul_milli_bound(
                audio_bands.mid as int,
                self.mapping.mid_to_frequency_scale as int,
                MAX_ENERGY as int,
                crate::params::MAX_MAPPING_SCALE as int,
            );
            crate::units::lemma_mul_milli_bound(
                audio_bands.high as int,
                self.mapping.high_to_glow_scale as int,
                MAX_ENERGY as int,
                crate::params::MAX_MAPPING_SCALE as int,
            );
        }
        let detail_amplitude = self.physics.detail_amplitude_m + crate::units::mul_milli(
            audio_bands.low,
            self.mapping.bass_to_amplitude_scale,
        );
        let detail_frequency = self.physics.detail_frequency + crate::units::mul_milli(
            audio_bands.mid,
            self.mapping.mid_to_frequency_scale,
        );
        let line_width = self.physics.base_line_width + crate::units::mul_milli(
            audio_bands.high,
            self.mapping.high_to_glow_scale,
        );
        let physics = self.physics;
        self.grid.update(time_s, detail_amplitude, detail_frequency, camera_pos, &physics);
        (detail_amplitude, detail_frequency, line_width)
    }
}

/// A band energy whose scaled contribution does not vanish in fixed-point
/// truncation strictly raises the parameter above its base: the raise is
/// `energy * scale / 1000`, at least one milli-unit once
/// `energy * scale >= 1000`.
pub proof fn lemma_energy_raises_parameter(base: int, energy: int, scale: int)
    requires
        energy * scale >= 1000,
    ensures
        base + spec_mul_milli(energy, scale) > base,
{
    vstd::arithmetic::div_mod::lemma_div_is_ordered(1000, energy * scale, 1000);
}

/// Positive band energies strictly raise all three mapped parameters above
/// their bases, provided each scaled contribution survives fixed-point
/// truncation (`energy * scale >= 1000`, one whole milli-unit).
pub proof fn lemma_positive_bands_raise_params(sys: OceanSystem, bands: AudioBands)
    requires
        bands.low * sys.mapping.bass_to_amplitude_scale >= 1000,
        bands.mid * sys.mapping.mid_to_frequency_scale >= 1000,
        bands.high * sys.mapping.high_to_glow_scale >= 1000,
    ensures
        sys.spec_detail_amplitude(bands) > sys.physics.detail_amplitude_m,
        sys.spec_detail_frequency(bands) > sys.physics.detail_frequency,
        sys.spec_line_width(bands) > sys.physics.base_line_width,
{
    lemma_energy_raises_parameter(
        sys.physics.detail_amplitude_m as int,
        bands.low as int,
        sys.mapping.bass_to_amplitude_scale as int,
    );
    lemma_energy_raises_parameter(
        sys.physics.detail_frequency as int,
        bands.mid as int,
        sys.mapping.mid_to_frequency_scale as int,
    );
    lemma_energy_raises_parameter(
        sys.physics.base_line_width as int,
        bands.high as int,
        sys.mapping.high_to_glow_scale as int,
    );
}

} // verus!
