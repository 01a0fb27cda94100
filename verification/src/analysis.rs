//! The spectral analysis cycle's computational core.
//!
//! The audio driver appends clipped mono samples to an [`AnalysisBuffer`].
//! On each analysis cycle, if the buffer holds a full window, the first
//! `fft_size` samples are tapered by the Hann window and the front half of
//! the buffer is drained (so consecutive windows overlap by half); a short
//! buffer is a no-op. The FFT itself runs outside this crate on the windowed
//! frame; [`band_energies`] then reduces the magnitudes of the output bins
//! to one mean energy per band.

use vstd::prelude::*;

use crate::params::FFTConfig;
use crate::system::{AudioBands, MAX_ENERGY};
use crate::trig::{hann_window, spec_hann_window};
use crate::units::{mul_milli, spec_mul_milli};

verus! {

/// Largest sample magnitude the analysis buffer accepts, in milli-units.
pub const MAX_SAMPLE: i64 = 1000;

/// Largest bin magnitude the band reduction accepts, in milli-units.
pub const MAX_MAGNITUDE: i64 = 1_000_000;

/// The shared raw-sample buffer: an append-only sequence of mono samples
/// that the analysis cycle drains from the front.
pub struct AnalysisBuffer {
    /// The buffered mono samples, oldest first, in milli-units.
    pub samples: Vec<i64>,
}

impl AnalysisBuffer {
    /// Every buffered sample is within the accepted magnitude.
    pub open spec fn well_formed(self) -> bool {
        forall|i: int|
            0 <= i < self.samples@.len() ==> -MAX_SAMPLE <= #[trigger] self.samples@[i]
                <= MAX_SAMPLE
    }

    /// Create an empty buffer.
    pub fn new() -> (b: Self)
        ensures
            b.samples@.len() == 0,
            b.well_formed(),
    {
        AnalysisBuffer { samples: Vec::new() }
    }

    /// Number of buffered samples.
    pub fn len(&self) -> (n: usize)
        ensures
            n == self.samples@.len(),
    {
        self.samples.len()
    }

    /// Append one block of mono samples at the back.
    pub fn append_block(&mut self, block: &Vec<i64>)
        requires
            old(self).well_formed(),
            forall|i: int|
                0 <= i < block@.len() ==> -MAX_SAMPLE <= #[trigger] block@[i] <= MAX_SAMPLE,
            old(self).samples@.len() + block@.len() <= usize::MAX,
        ensures
            final(self).samples@ == old(self).samples@ + block@,
            final(self).well_formed(),
    {
        let mut i: usize = 0;
        let n = block.len();
        while i < n
            invariant
                n == block@.len(),
                i <= n,
                self.samples@ == old(self).samples@ + block@.subrange(0, i as int),
                old(self).samples@.len() + n <= usize::MAX,
            decreases n - i,
        {
            self.samples.push(block[i]);
            proof {
                assert(self.samples@ =~= old(self).samples@ + block@.subrange(0, i + 1));
            }
            i = i + 1;
        }
        proof {
            assert(self.samples@ =~= old(self).samples@ + block@);
        }
    }

    /// Begin one analysis cycle: if the buffer holds at least `fft_size`
    /// samples, return the first `fft_size` samples tapered by the Hann
    /// window and drain the front `fft_size / 2` samples (50% overlap);
    /// otherwise change nothing and return nothing.
    pub fn take_window(&mut self, config: &FFTConfig) -> (r: Option<Vec<i64>>)
        requires
            old(self).well_formed(),
            config.well_formed(),
            2 <= config.fft_size,
        ensures
            final(self).well_formed(),
            old(self).samples@.len() < config.fft_size ==> r is None && final(self).samples@
                == old(self).samples@,
            old(self).samples@.len() >= config.fft_size ==> {
                &&& r is Some
                &&& r->Some_0@.len() == config.fft_size
                &&& (forall|i: int|
                    0 <= i < config.fft_size ==> #[trigger] r->Some_0@[i] == spec_mul_milli(
                        old(self).samples@[i] as int,
                        spec_hann_window(i, config.fft_size as int),
                    ))
                &&& final(self).samples@ == old(self).samples@.subrange(
                    config.fft_size as int / 2,
                    old(self).samples@.len() as int,
                )
            },
    {
        let n = config.fft_size;
        if self.samples.len() < n {
            return None;
        }
        let mut frame: Vec<i64> = Vec::new();
        let mut i: usize = 0;
        while i < n
            invariant
                2 <= n <= crate::params::MAX_FFT_SIZE,
                i <= n,
                n <= self.samples@.len(),
                self.samples@ == old(self).samples@,
                old(self).well_formed(),
                frame@.len() == i,
                forall|k: int|
                    0 <= k < i ==> #[trigger] frame@[k] == spec_mul_milli(
                        old(self).samples@[k] as int,
                        spec_hann_window(k, n as int),
                    ),
            decreases n - i,
        {
            let w = hann_window(i, n);
            proof {
                crate::units::lemma_mul_milli_bound(
                    self.samples@[i as int] as int,
                    w as int,
                    MAX_SAMPLE as int,
                    1000,
                );
            }
            let windowed = mul_milli(self.samples[i], w);
            frame.push(windowed);
            i = i + 1;
        }
        let tail = self.samples.split_off(n / 2);
        self.samples = tail;
        Some(frame)
    }
}

/// The sum of the magnitudes in bins `[lo, hi)`.
pub open spec fn spec_magnitude_sum(mags: Seq<i64>, lo: int, hi: int) -> int
    decreases hi - lo,
{
    if hi <= lo {
        0
    } else {
        spec_magnitude_sum(mags, lo, hi - 1) + mags[hi - 1]
    }
}

/// The energy of one band: the arithmetic mean of the bin magnitudes in
/// `[lo, hi)` (not their sum, so bands of different widths are comparable),
/// and zero for a band whose bin range is empty.
pub open spec fn spec_band_energy(mags: Seq<i64>, lo: int, hi: int) -> int {
    if lo < hi {
        spec_magnitude_sum(mags, lo, hi) / (hi - lo)
    } else {
        0
    }
}

/// A sum of bounded magnitudes is bounded by width times the bound.
proof fn lemma_magnitude_sum_bounded(mags: Seq<i64>, lo: int, hi: int)
    requires
        0 <= lo,
        hi <= mags.len(),
        forall|i: int| 0 <= i < mags.len() ==> 0 <= #[trigger] mags[i] <= MAX_MAGNITUDE,
    ensures
        0 <= spec_magnitude_sum(mags, lo, hi) <= (if hi >= lo {
            (hi - lo) * (MAX_MAGNITUDE as int)
        } else {
            0
        }),
    decreases hi - lo,
{
    if hi <= lo {
    } else {
        lemma_magnitude_sum_bounded(mags, lo, hi - 1);
        assert((hi - lo) * (MAX_MAGNITUDE as int) == (hi - 1 - lo) * (MAX_MAGNITUDE as int)
            + MAX_MAGNITUDE) by (nonlinear_arith);
    }
}

/// A band's mean magnitude stays within the magnitude bound.
pub proof fn lemma_band_energy_bounded(mags: Seq<i64>, lo: int, hi: int)
    requires
        0 <= lo,
        hi <= mags.len(),
        forall|i: int| 0 <= i < mags.len() ==> 0 <= #[trigger] mags[i] <= MAX_MAGNITUDE,
    ensures
        0 <= spec_band_energy(mags, lo, hi) <= MAX_MAGNITUDE,
{
    if lo < hi {
        lemma_magnitude_sum_bounded(mags, lo, hi);
        let s = spec_magnitude_sum(mags, lo, hi);
        let w = hi - lo;
        vstd::arithmetic::div_mod::lemma_div_pos_is_pos(s, w);
        vstd::arithmetic::div_mod::lemma_div_is_ordered(s, w * (MAX_MAGNITUDE as int), w);
        vstd::arithmetic::div_mod::lemma_div_multiples_vanish(MAX_MAGNITUDE as int, w);
        assert(w * (MAX_MAGNITUDE as int) == (MAX_MAGNITUDE as int) * w) by (nonlinear_arith);
    }
}

/// The mean magnitude of the bins in `[lo, hi)`, or zero if the range is
/// empty.
fn mean_magnitude(mags: &Vec<i64>, lo: usize, hi: usize) -> (e: i64)
    requires
        hi <= mags@.len(),
        forall|i: int| 0 <= i < mags@.len() ==> 0 <= #[trigger] mags@[i] <= MAX_MAGNITUDE,
        mags@.len() <= crate::params::MAX_FFT_SIZE,
    ensures
        e == spec_band_energy(mags@, lo as int, hi as int),
        0 <= e <= MAX_MAGNITUDE,
{
    if lo >= hi {
        return 0;
    }
    let mut sum: i64 = 0;
    let mut i: usize = lo;
    while i < hi
        invariant
            lo <= i <= hi,
            hi <= mags@.len(),
            mags@.len() <= crate::params::MAX_FFT_SIZE,
            forall|k: int| 0 <= k < mags@.len() ==> 0 <= #[trigger] mags@[k] <= MAX_MAGNITUDE,
            sum == spec_magnitude_sum(mags@, lo as int, i as int),
            0 <= sum <= (i - lo) * (MAX_MAGNITUDE as int),
        decreases hi - i,
    {
        proof {
            assert((i - lo) * (MAX_MAGNITUDE as int) <= 1_048_576 * (MAX_MAGNITUDE as int)
                && (i + 1 - lo) * (MAX_MAGNITUDE as int) == (i - lo) * (MAX_MAGNITUDE as int)
                + MAX_MAGNITUDE) by (nonlinear_arith)
                requires
                    0 <= i - lo <= 1_048_576,
            ;
        }
        sum = sum + mags[i];
        i = i + 1;
    }
    proof {
        lemma_band_energy_bounded(mags@, lo as int, hi as int);
    }
    sum / ((hi - lo) as i64)
}

/// Reduce one FFT output's bin magnitudes to the three published band
/// energies: for each configured band, the arithmetic mean of the
/// magnitudes of the bins its frequency range maps to.
pub fn band_energies(magnitudes: &Vec<i64>, config: &FFTConfig) -> (bands: AudioBands)
    requires
        config.well_formed(),
        magnitudes@.len() == config.fft_size,
        forall|i: int|
            0 <= i < magnitudes@.len() ==> 0 <= #[trigger] magnitudes@[i] <= MAX_MAGNITUDE,
    ensures
        bands.low == spec_band_energy(
            magnitudes@,
            config.spec_band_bins(config.bass_range_mhz).0,
            config.spec_band_bins(config.bass_range_mhz).1,
        ),
        bands.mid == spec_band_energy(
            magnitudes@,
            config.spec_band_bins(config.mid_range_mhz).0,
            config.spec_band_bins(config.mid_range_mhz).1,
        ),
        bands.high == spec_band_energy(
            magnitudes@,
            config.spec_band_bins(config.high_range_mhz).0,
            config.spec_band_bins(config.high_range_mhz).1,
        ),
        bands.well_formed(),
    {
        let bass = config.bass_bins();
        let mid = config.mid_bins();
        let high = config.high_bins();
        let low_e = mean_magnitude(magnitudes, bass.0, bass.1);
        let mid_e = mean_magnitude(magnitudes, mid.0, mid.1);
        let high_e = mean_magnitude(magnitudes, high.0, high.1);
        AudioBands { low: low_e, mid: mid_e, high: high_e }
    }

} // verus!
