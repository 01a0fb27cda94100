//! Tests for the spectral configuration, the Hann window, the analysis
//! buffer, the band reduction, and the output driver core.

use vibesurfer::analysis::{band_energies, AnalysisBuffer};
use vibesurfer::driver::clip_and_interleave;
use vibesurfer::params::{ConfigError, FFTConfig};
use vibesurfer::trig::hann_window;

fn default_config() -> FFTConfig {
    FFTConfig::default()
}

/// A small well-formed configuration whose bins are easy to compute by
/// hand: 1 Hz sample rate, 4-point FFT, so bin(mhz) = mhz * 4 / 1000.
fn tiny_config() -> FFTConfig {
    FFTConfig {
        sample_rate_hz: 1,
        fft_size: 4,
        update_interval_ms: 50,
        bass_range_mhz: (250, 500),
        mid_range_mhz: (500, 750),
        high_range_mhz: (750, 1000),
    }
}

#[test]
fn audio_test_fft_config_hz_to_bin() {
    let config = default_config();

    // At 44100 Hz sample rate and 1024 FFT size:
    // bin resolution = 44100 / 1024, about 43.07 Hz per bin.
    assert_eq!(config.hz_to_bin(0), 0);
    assert_eq!(config.hz_to_bin(43_070), 1);
    assert_eq!(config.hz_to_bin(100_000), 2);
}

#[test]
fn system_test_fft_config_hz_to_bin() {
    let config = default_config();

    assert_eq!(config.hz_to_bin(0), 0);
    assert_eq!(config.hz_to_bin(43_070), 1);
    assert_eq!(config.hz_to_bin(100_000), 2);
}

#[test]
fn audio_test_fft_config_band_ranges() {
    let config = default_config();

    let bass = config.bass_bins();
    let mid = config.mid_bins();
    let high = config.high_bins();

    // Bass: 20-200 Hz (20 Hz maps to bin 0, so the range may include DC).
    assert!(bass.1 <= 10);

    // Mid: 200-1000 Hz.
    assert!(mid.0 >= bass.1);
    assert!(mid.1 <= 50);

    // High: 1000-4000 Hz.
    assert!(high.0 >= mid.1);
    assert!(high.1 <= 200);
}

#[test]
fn system_test_fft_config_band_ranges() {
    let config = default_config();

    let bass = config.bass_bins();
    let mid = config.mid_bins();
    let high = config.high_bins();

    assert!(bass.1 <= 10);
    assert!(mid.0 >= bass.1);
    assert!(mid.1 <= 50);
    assert!(high.0 >= mid.1);
    assert!(high.1 <= 200);
}

#[test]
fn audio_test_hann_window() {
    let size = 1024;

    // The window is 0 at the edges and 1 at the center (milli-units,
    // tolerance 0.01 = 10 milli).
    assert!((hann_window(0, size) - 0).abs() < 10);
    assert!((hann_window(size - 1, size) - 0).abs() < 10);
    assert!((hann_window(size / 2, size) - 1000).abs() < 10);
}

#[test]
fn fft_test_hann_window() {
    let size = 1024;

    assert!((hann_window(0, size) - 0).abs() < 10);
    assert!((hann_window(size - 1, size) - 0).abs() < 10);
    assert!((hann_window(size / 2, size) - 1000).abs() < 10);
}

#[test]
fn test_hann_window_exact_quarters() {
    // hann(1, 4) = 0.5 * (1 - cos(2*pi/3)) = 0.75; the fixed-point phase
    // 333333 of 1000000 truncates one milli-unit low.
    assert_eq!(hann_window(1, 4), 749);
    assert_eq!(hann_window(2, 4), 750);
    assert_eq!(hann_window(0, 4), 0);
    assert_eq!(hann_window(3, 4), 0);
}

#[test]
fn test_hz_to_bin_monotone_samples() {
    let config = default_config();
    let mut prev = 0;
    let mut mhz: u64 = 0;
    while mhz <= 4_000_000 {
        let bin = config.hz_to_bin(mhz);
        assert!(bin >= prev);
        prev = bin;
        mhz += 37_501;
    }
}

#[test]
fn test_validate_accepts_default() {
    assert!(default_config().validate().is_ok());
    assert!(tiny_config().validate().is_ok());
}

#[test]
fn test_validate_rejects_non_power_of_two() {
    let mut config = default_config();
    config.fft_size = 1000;
    assert_eq!(config.validate(), Err(ConfigError::FftSizeNotPowerOfTwo));
}

#[test]
fn test_validate_rejects_zero_sample_rate() {
    let mut config = default_config();
    config.sample_rate_hz = 0;
    assert_eq!(config.validate(), Err(ConfigError::SampleRateZero));
}

#[test]
fn test_validate_rejects_empty_band() {
    let mut config = default_config();
    config.mid_range_mhz = (200_000, 200_000);
    assert_eq!(config.validate(), Err(ConfigError::BandRangeEmpty));
}

#[test]
fn test_validate_rejects_band_above_sample_rate() {
    let mut config = default_config();
    config.high_range_mhz = (1_000_000, 44_100_001);
    assert_eq!(config.validate(), Err(ConfigError::BandRangeTooHigh));
}

#[test]
fn test_validate_rejects_oversized_fft() {
    let mut config = default_config();
    config.fft_size = 2_097_152;
    assert_eq!(config.validate(), Err(ConfigError::FftSizeTooLarge));
}

#[test]
fn test_validate_rejects_oversized_sample_rate() {
    let mut config = default_config();
    config.sample_rate_hz = 2_000_000;
    assert_eq!(config.validate(), Err(ConfigError::SampleRateTooLarge));
}

#[test]
fn test_take_window_short_buffer_is_noop() {
    let config = tiny_config();
    let mut buffer = AnalysisBuffer::new();
    buffer.append_block(&vec![100, 200, 300]);
    assert!(buffer.take_window(&config).is_none());
    assert_eq!(buffer.samples, vec![100, 200, 300]);
}

#[test]
fn test_take_window_applies_hann_and_drains_half() {
    let config = tiny_config();
    let mut buffer = AnalysisBuffer::new();
    buffer.append_block(&vec![1000, 1000, 1000, 1000, 7]);
    let frame = buffer.take_window(&config).expect("full window");
    // Window gains for a 4-point window are (0, 749, 750, 0) milli.
    assert_eq!(frame, vec![0, 749, 750, 0]);
    // Half the window (2 samples) is drained from the front.
    assert_eq!(buffer.samples, vec![1000, 1000, 7]);
}

#[test]
fn test_band_energies_means_per_band() {
    let config = tiny_config();
    // Bins: bass -> [1, 2), mid -> [2, 3), high -> [3, 4).
    let mags = vec![10, 20, 30, 40];
    let bands = band_energies(&mags, &config);
    assert_eq!(bands.low, 20);
    assert_eq!(bands.mid, 30);
    assert_eq!(bands.high, 40);
}

#[test]
fn test_band_energies_mean_not_sum() {
    let config = FFTConfig {
        sample_rate_hz: 1,
        fft_size: 4,
        update_interval_ms: 50,
        bass_range_mhz: (1, 500),
        mid_range_mhz: (500, 750),
        high_range_mhz: (750, 1000),
    };
    // Bass covers bins [0, 2): the mean of 10 and 30 is 20, not 40.
    let mags = vec![10, 30, 5, 5];
    let bands = band_energies(&mags, &config);
    assert_eq!(bands.low, 20);
}

#[test]
fn test_append_block_keeps_order() {
    let mut buffer = AnalysisBuffer::new();
    buffer.append_block(&vec![1, 2]);
    buffer.append_block(&vec![3]);
    assert_eq!(buffer.samples, vec![1, 2, 3]);
    assert_eq!(buffer.len(), 3);
}

#[test]
fn test_clip_and_interleave() {
    let left = vec![600, -600, 100];
    let right = vec![0, 700, -700];
    let (stereo, mono) = clip_and_interleave(&left, &right);
    assert_eq!(stereo, vec![500, 0, -500, 500, 100, -500]);
    assert_eq!(mono, vec![500, -500, 100]);
}
