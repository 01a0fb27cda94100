//! Session parameters: spectral analysis window, terrain physics, and the
//! audio-to-terrain mapping gains.
//!
//! Every parameter set is validated once, at construction; the rest of the
//! crate takes its well-formedness predicate as a precondition and never
//! re-checks at runtime.

use vstd::prelude::*;

use crate::units::MILLI;

verus! {

/// Highest accepted sample rate, in hertz.
pub const MAX_SAMPLE_RATE_HZ: u64 = 1_000_000;

/// Highest accepted FFT size (2 to the 20th).
pub const MAX_FFT_SIZE: usize = 1_048_576;

/// Highest accepted vertex count per grid side.
pub const MAX_GRID_SIZE: usize = 4096;

/// Highest accepted vertex spacing, in milli-meters (100 m).
pub const MAX_GRID_SPACING: i64 = 100_000;

/// Highest accepted terrain amplitude, in milli-meters.
pub const MAX_AMPLITUDE: i64 = 1_000_000_000;

/// Highest accepted spatial frequency, in milli-cycles per meter.
pub const MAX_FREQUENCY: i64 = 1_000_000;

/// Highest accepted wave-speed multiplier, in milli-units.
pub const MAX_WAVE_SPEED: i64 = 1_000_000;

/// Highest accepted band-to-parameter gain, in milli-units (a gain of 10).
pub const MAX_MAPPING_SCALE: i64 = 10_000;

/// `n` is a power of two.
pub open spec fn is_pow2(n: int) -> bool
    decreases n,
{
    if n <= 0 {
        false
    } else if n == 1 {
        true
    } else {
        n % 2 == 0 && is_pow2(n / 2)
    }
}

/// The FFT bin that a frequency falls in: `floor(hz * fft_size / sample_rate)`,
/// with the frequency given in milli-hertz.
pub open spec fn spec_hz_to_bin(mhz: int, fft_size: int, sample_rate_hz: int) -> int {
    (mhz * fft_size) / (sample_rate_hz * (MILLI as int))
}

/// Why a [`FFTConfig`] was rejected.
#[derive(Clone, Copy, Debug, PartialEq, Eq, Structural)]
pub enum ConfigError {
    /// The FFT size is not a power of two.
    FftSizeNotPowerOfTwo,
    /// The FFT size is above [`MAX_FFT_SIZE`].
    FftSizeTooLarge,
    /// The sample rate is zero.
    SampleRateZero,
    /// The sample rate is above [`MAX_SAMPLE_RATE_HZ`].
    SampleRateTooLarge,
    /// A band range has its low bound at or above its high bound.
    BandRangeEmpty,
    /// A band range reaches above the sample rate.
    BandRangeTooHigh,
}

/// FFT analysis configuration with frequency band mappings.
///
/// Band bounds are in milli-hertz; bin ranges are derived, not stored.
#[derive(Clone, Copy, Debug)]
pub struct FFTConfig {
    /// Audio sample rate (hertz).
    pub sample_rate_hz: u64,
    /// FFT window size (must be a power of two).
    pub fft_size: usize,
    /// Analysis cadence (milliseconds between cycles).
    pub update_interval_ms: u64,
    /// Bass band bounds (milli-hertz, low inclusive, high exclusive).
    pub bass_range_mhz: (u64, u64),
    /// Mid band bounds (milli-hertz).
    pub mid_range_mhz: (u64, u64),
    /// High band bounds (milli-hertz).
    pub high_range_mhz: (u64, u64),
}

impl FFTConfig {
    /// One band range is acceptable: non-empty and below the sample rate.
    pub open spec fn band_well_formed(self, range: (u64, u64)) -> bool {
        range.0 < range.1 && range.1 <= self.sample_rate_hz * (MILLI as int)
    }

    /// The whole configuration is acceptable.
    pub open spec fn well_formed(self) -> bool {
        &&& is_pow2(self.fft_size as int)
        &&& self.fft_size <= MAX_FFT_SIZE
        &&& 0 < self.sample_rate_hz <= MAX_SAMPLE_RATE_HZ
        &&& self.band_well_formed(self.bass_range_mhz)
        &&& self.band_well_formed(self.mid_range_mhz)
        &&& self.band_well_formed(self.high_range_mhz)
    }

    /// The outcome that [`FFTConfig::validate`] promises, check by check.
    pub open spec fn spec_validate(self) -> Result<(), ConfigError> {
        if !is_pow2(self.fft_size as int) {
            Err(ConfigError::FftSizeNotPowerOfTwo)
        } else if self.fft_size > MAX_FFT_SIZE {
            Err(ConfigError::FftSizeTooLarge)
        } else if self.sample_rate_hz == 0 {
            Err(ConfigError::SampleRateZero)
        } else if self.sample_rate_hz > MAX_SAMPLE_RATE_HZ {
            Err(ConfigError::SampleRateTooLarge)
        } else if !(self.bass_range_mhz.0 < self.bass_range_mhz.1
            && self.mid_range_mhz.0 < self.mid_range_mhz.1
            && self.high_range_mhz.0 < self.high_range_mhz.1) {
            Err(ConfigError::BandRangeEmpty)
        } else if !(self.bass_range_mhz.1 <= self.sample_rate_hz * (MILLI as int)
            && self.mid_range_mhz.1 <= self.sample_rate_hz * (MILLI as int)
            && self.high_range_mhz.1 <= self.sample_rate_hz * (MILLI as int)) {
            Err(ConfigError::BandRangeTooHigh)
        } else {
            Ok(())
        }
    }

    /// Validate the configuration: power-of-two FFT size, positive sample
    /// rate, and sane band ranges. Exactly the well-formed configurations
    /// pass.
    pub fn validate(&self) -> (r: Result<(), ConfigError>)
        ensures
            r == self.spec_validate(),
            r is Ok <==> self.well_formed(),
    {
        if !is_power_of_two_usize(self.fft_size) {
            Err(ConfigError::FftSizeNotPowerOfTwo)
        } else if self.fft_size > MAX_FFT_SIZE {
            Err(ConfigError::FftSizeTooLarge)
        } else if self.sample_rate_hz == 0 {
            Err(ConfigError::SampleRateZero)
        } else if self.sample_rate_hz > MAX_SAMPLE_RATE_HZ {
            Err(ConfigError::SampleRateTooLarge)
        } else if !(self.bass_range_mhz.0 < self.bass_range_mhz.1
            && self.mid_range_mhz.0 < self.mid_range_mhz.1
            && self.high_range_mhz.0 < self.high_range_mhz.1) {
            Err(ConfigError::BandRangeEmpty)
        } else if !(self.bass_range_mhz.1 <= self.sample_rate_hz * 1000
            && self.mid_range_mhz.1 <= self.sample_rate_hz * 1000
            && self.high_range_mhz.1 <= self.sample_rate_hz * 1000) {
            Err(ConfigError::BandRangeTooHigh)
        } else {
            Ok(())
        }
    }

    /// Convert a frequency in milli-hertz to the FFT bin index holding it.
    pub fn hz_to_bin(&self, mhz: u64) -> (bin: usize)
        requires
            self.well_formed(),
            mhz <= self.sample_rate_hz * (MILLI as int),
        ensures
            bin == spec_hz_to_bin(mhz as int, self.fft_size as int, self.sample_rate_hz as int),
            bin <= self.fft_size,
    {
        let divisor = self.sample_rate_hz * 1000;
        proof {
            lemma_hz_to_bin_le_fft_size(
                mhz as int,
                self.fft_size as int,
                self.sample_rate_hz as int,
            );
            assert(mhz * self.fft_size <= 1_000_000_000_000_000_000) by (nonlinear_arith)
                requires
                    0 <= mhz <= 1_000_000_000,
                    0 <= self.fft_size <= MAX_FFT_SIZE,
            ;
        }
        ((mhz * (self.fft_size as u64)) / divisor) as usize
    }

    /// Bin range (start inclusive, end exclusive) of the bass band.
    pub fn bass_bins(&self) -> (r: (usize, usize))
        requires
            self.well_formed(),
        ensures
            r.0 == self.spec_band_bins(self.bass_range_mhz).0,
            r.1 == self.spec_band_bins(self.bass_range_mhz).1,
            r.0 <= self.fft_size,
            r.1 <= self.fft_size,
    {
        (self.hz_to_bin(self.bass_range_mhz.0), self.hz_to_bin(self.bass_range_mhz.1))
    }

    /// Bin range (start inclusive, end exclusive) of the mid band.
    pub fn mid_bins(&self) -> (r: (usize, usize))
        requires
            self.well_formed(),
        ensures
            r.0 == self.spec_band_bins(self.mid_range_mhz).0,
            r.1 == self.spec_band_bins(self.mid_range_mhz).1,
            r.0 <= self.fft_size,
            r.1 <= self.fft_size,
    {
        (self.hz_to_bin(self.mid_range_mhz.0), self.hz_to_bin(self.mid_range_mhz.1))
    }

    /// Bin range (start inclusive, end exclusive) of the high band.
    pub fn high_bins(&self) -> (r: (usize, usize))
        requires
            self.well_formed(),
        ensures
            r.0 == self.spec_band_bins(self.high_range_mhz).0,
            r.1 == self.spec_band_bins(self.high_range_mhz).1,
            r.0 <= self.fft_size,
            r.1 <= self.fft_size,
    {
        (self.hz_to_bin(self.high_range_mhz.0), self.hz_to_bin(self.high_range_mhz.1))
    }

    /// The derived bin range of one band.
    pub open spec fn spec_band_bins(self, range: (u64, u64)) -> (int, int) {
        (
            spec_hz_to_bin(range.0 as int, self.fft_size as int, self.sample_rate_hz as int),
            spec_hz_to_bin(range.1 as int, self.fft_size as int, self.sample_rate_hz as int),
        )
    }
}

impl Default for FFTConfig {
    /// 44.1 kHz, 1024-point windows every 50 ms, with bass 20-200 Hz,
    /// mid 200-1000 Hz and high 1000-4000 Hz.
    fn default() -> (c: Self)
        ensures
            c.sample_rate_hz == 44100,
            c.fft_size == 1024,
            c.update_interval_ms == 50,
            c.bass_range_mhz == (20_000u64, 200_000u64),
            c.mid_range_mhz == (200_000u64, 1_000_000u64),
            c.high_range_mhz == (1_000_000u64, 4_000_000u64),
            c.well_formed(),
    {
        let c = FFTConfig {
            sample_rate_hz: 44100,
            fft_size: 1024,
            update_interval_ms: 50,
            bass_range_mhz: (20_000, 200_000),
            mid_range_mhz: (200_000, 1_000_000),
            high_range_mhz: (1_000_000, 4_000_000),
        };
        proof {
            lemma_1024_is_pow2();
        }
        c
    }
}

/// `hz_to_bin` never reaches past the FFT size while the frequency stays at
/// or below the sample rate.
proof fn lemma_hz_to_bin_le_fft_size(mhz: int, fft_size: int, sample_rate_hz: int)
    requires
        0 <= mhz <= sample_rate_hz * (MILLI as int),
        0 < sample_rate_hz,
        0 < fft_size,
    ensures
        0 <= spec_hz_to_bin(mhz, fft_size, sample_rate_hz) <= fft_size,
{
    let d = sample_rate_hz * (MILLI as int);
    vstd::arithmetic::div_mod::lemma_div_pos_is_pos(mhz * fft_size, d);
    assert(mhz * fft_size <= d * fft_size) by (nonlinear_arith)
        requires
            0 <= mhz <= d,
            0 < fft_size,
    ;
    vstd::arithmetic::div_mod::lemma_div_is_ordered(mhz * fft_size, d * fft_size, d);
    vstd::arithmetic::div_mod::lemma_div_multiples_vanish(fft_size, d);
}

/// Bin lookup is monotone: a frequency no higher than another never lands in
/// a later bin, and frequency zero lands in bin zero.
pub proof fn lemma_hz_to_bin_monotonic(lo_mhz: int, hi_mhz: int, fft_size: int, sample_rate_hz: int)
    requires
        0 <= lo_mhz <= hi_mhz,
        0 < fft_size,
        0 < sample_rate_hz,
    ensures
        spec_hz_to_bin(lo_mhz, fft_size, sample_rate_hz) <= spec_hz_to_bin(
            hi_mhz,
            fft_size,
            sample_rate_hz,
        ),
        spec_hz_to_bin(0, fft_size, sample_rate_hz) == 0,
{
    let d = sample_rate_hz * (MILLI as int);
    assert(lo_mhz * fft_size <= hi_mhz * fft_size) by (nonlinear_arith)
        requires
            0 <= lo_mhz <= hi_mhz,
            0 < fft_size,
    ;
    assert(d > 0) by (nonlinear_arith)
        requires
            0 < sample_rate_hz,
            d == sample_rate_hz * 1000,
    ;
    vstd::arithmetic::div_mod::lemma_div_is_ordered(lo_mhz * fft_size, hi_mhz * fft_size, d);
    vstd::arithmetic::div_mod::lemma_div_of0(d);
}

/// 1024 is two to the tenth.
proof fn lemma_1024_is_pow2()
    ensures
        is_pow2(1024),
{
    assert(is_pow2(1));
    assert(is_pow2(2));
    assert(is_pow2(4));
    assert(is_pow2(8));
    assert(is_pow2(16));
    assert(is_pow2(32));
    assert(is_pow2(64));
    assert(is_pow2(128));
    assert(is_pow2(256));
    assert(is_pow2(512));
    assert(is_pow2(1024));
}

/// Whether `n` is a power of two, by repeated halving.
fn is_power_of_two_usize(n: usize) -> (b: bool)
    ensures
        b == is_pow2(n as int),
{
    if n == 0 {
        return false;
    }
    let mut m = n;
    while m > 1
        invariant
            1 <= m,
            is_pow2(n as int) == is_pow2(m as int),
        decreases m,
    {
        if m % 2 != 0 {
            return false;
        }
        m = m / 2;
    }
    true
}

/// Ocean terrain physics parameters, in milli-units.
///
/// The base layer gives stable large-scale hills; the detail layer gives
/// audio-reactive ripples. The grid extent (`grid_size * grid_spacing_m`)
/// must halve exactly, so it is required to be even.
#[derive(Clone, Copy, Debug)]
pub struct OceanPhysics {
    /// Grid resolution (cells per side; one more vertex per side).
    pub grid_size: usize,
    /// Spacing between grid vertices (milli-meters).
    pub grid_spacing_m: i64,
    /// Wave animation speed multiplier (milli-units).
    pub wave_speed: i64,
    /// Base terrain amplitude (milli-meters; large stable hills).
    pub base_terrain_amplitude_m: i64,
    /// Base terrain spatial frequency (milli-cycles per meter).
    pub base_terrain_frequency: i64,
    /// Detail wave height before audio modulation (milli-meters).
    pub detail_amplitude_m: i64,
    /// Detail spatial frequency (milli-cycles per meter).
    pub detail_frequency: i64,
    /// Base wireframe line width (milli-units).
    pub base_line_width: i64,
    /// Noise seed.
    pub noise_seed: u32,
}

impl OceanPhysics {
    /// The grid extent: vertices per side times spacing (milli-meters).
    pub open spec fn spec_extent(self) -> int {
        self.grid_size * self.grid_spacing_m
    }

    /// The parameters are acceptable: positive even extent within bounds,
    /// and non-negative bounded amplitudes, frequencies and speeds.
    pub open spec fn well_formed(self) -> bool {
        &&& 0 < self.grid_size <= MAX_GRID_SIZE
        &&& 0 < self.grid_spacing_m <= MAX_GRID_SPACING
        &&& self.spec_extent() % 2 == 0
        &&& 0 <= self.wave_speed <= MAX_WAVE_SPEED
        &&& 0 <= self.base_terrain_amplitude_m <= MAX_AMPLITUDE
        &&& 0 <= self.base_terrain_frequency <= MAX_FREQUENCY
        &&& 0 <= self.detail_amplitude_m <= MAX_AMPLITUDE
        &&& 0 <= self.detail_frequency <= MAX_FREQUENCY
        &&& 0 <= self.base_line_width <= MAX_AMPLITUDE
    }
}

impl Default for OceanPhysics {
    /// A 512-cell grid at 2 m spacing: tall slow base hills (100 m at 0.003
    /// cycles per meter) under a 2 m audio-reactive chop at 0.1 cycles per
    /// meter.
    fn default() -> (p: Self)
        ensures
            p.grid_size == 512,
            p.grid_spacing_m == 2000,
            p.wave_speed == 500,
            p.base_terrain_amplitude_m == 100_000,
            p.base_terrain_frequency == 3,
            p.detail_amplitude_m == 2000,
            p.detail_frequency == 100,
            p.base_line_width == 20,
            p.noise_seed == 42,
            p.well_formed(),
    {
        OceanPhysics {
            grid_size: 512,
            grid_spacing_m: 2000,
            wave_speed: 500,
            base_terrain_amplitude_m: 100_000,
            base_terrain_frequency: 3,
            detail_amplitude_m: 2000,
            detail_frequency: 100,
            base_line_width: 20,
            noise_seed: 42,
        }
    }
}

/// Gains from audio band energies to terrain parameters, in milli-units.
#[derive(Clone, Copy, Debug)]
pub struct AudioReactiveMapping {
    /// Bass energy to detail amplitude (milli-meters per unit energy).
    pub bass_to_amplitude_scale: i64,
    /// Mid energy to detail frequency (milli-units).
    pub mid_to_frequency_scale: i64,
    /// High energy to line glow width (milli-units).
    pub high_to_glow_scale: i64,
}

impl AudioReactiveMapping {
    /// The gains are acceptable: non-negative and bounded.
    pub open spec fn well_formed(self) -> bool {
        &&& 0 <= self.bass_to_amplitude_scale <= MAX_MAPPING_SCALE
        &&& 0 <= self.mid_to_frequency_scale <= MAX_MAPPING_SCALE
        &&& 0 <= self.high_to_glow_scale <= MAX_MAPPING_SCALE
    }
}

impl Default for AudioReactiveMapping {
    /// Gains 3.0, 0.15 and 0.03.
    fn default() -> (m: Self)
        ensures
            m.bass_to_amplitude_scale == 3000,
            m.mid_to_frequency_scale == 150,
            m.high_to_glow_scale == 30,
            m.well_formed(),
    {
        AudioReactiveMapping {
            bass_to_amplitude_scale: 3000,
            mid_to_frequency_scale: 150,
            high_to_glow_scale: 30,
        }
    }
}

} // verus!
