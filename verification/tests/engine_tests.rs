use bg_noise_reduction_core::compute_gains;
use bg_noise_reduction_core::estimate_profile;
use bg_noise_reduction_core::estimation_frame_count;
use bg_noise_reduction_core::frame_count;
use bg_noise_reduction_core::frame_positions;
use bg_noise_reduction_core::hann_window;
use bg_noise_reduction_core::overlap_add;
use bg_noise_reduction_core::should_bypass;
use bg_noise_reduction_core::NoiseReductionConfig;
use bg_noise_reduction_core::FRAME_SIZE;
use bg_noise_reduction_core::HOP_SIZE;
use bg_noise_reduction_core::UNIT;

/// Cosines of the first half of the Hann window's argument range,
/// `cos(2*pi*i / (FRAME_SIZE - 1))` for `i` in `0 .. HOP_SIZE`, in micro-units.
fn micro_cos_half() -> Vec<i64> {
    let n = FRAME_SIZE as f64 - 1.0;
    (0..HOP_SIZE)
        .map(|i| {
            let x = 2.0 * std::f64::consts::PI * (i as f64) / n;
            let c = (x.cos() * UNIT as f64).round() as i64;
            c.clamp(-(UNIT as i64), UNIT as i64)
        })
        .collect()
}

#[test]
fn test_hann_window() {
    let w_fixed = hann_window(&micro_cos_half());

    let mut frame = vec![1.0f32; 2048];
    for (i, sample) in frame.iter_mut().enumerate() {
        *sample *= w_fixed[i] as f32 / UNIT as f32;
    }

    // Edges should be close to 0
    assert!(frame[0] < 0.01);
    assert!(frame[2047] < 0.01);

    // Center should be close to 1
    assert!(frame[1024] > 0.99);
}

#[test]
fn test_window_symmetry() {
    let w = hann_window(&micro_cos_half());
    assert_eq!(w.len(), FRAME_SIZE);
    for i in 0..FRAME_SIZE {
        assert_eq!(w[i], w[FRAME_SIZE - 1 - i]);
    }
    assert_eq!(w[0], 0);
    assert_eq!(w[FRAME_SIZE - 1], 0);
    for i in 0..FRAME_SIZE {
        assert!(w[i] <= UNIT);
    }
}

#[test]
fn test_should_bypass() {
    assert!(should_bypass(0));
    assert!(should_bypass(FRAME_SIZE - 1));
    assert!(!should_bypass(FRAME_SIZE));
    assert!(!should_bypass(44100));
}

#[test]
fn test_frame_positions() {
    assert_eq!(frame_positions(FRAME_SIZE - 1), Vec::<usize>::new());
    assert_eq!(frame_positions(FRAME_SIZE), vec![0]);
    assert_eq!(frame_positions(5120), vec![0, 1024, 2048, 3072]);
    assert_eq!(frame_count(44100), 42);
    assert_eq!(frame_positions(44100).len(), 42);
}

#[test]
fn test_estimation_frame_count() {
    // plenty of input: the requested count wins
    assert_eq!(estimation_frame_count(44100, 10), 10);
    // short input: only what is there
    assert_eq!(estimation_frame_count(FRAME_SIZE, 10), 1);
    assert_eq!(estimation_frame_count(5120, 10), 4);
    // shorter than a frame: nothing to estimate from
    assert_eq!(estimation_frame_count(FRAME_SIZE - 1, 10), 0);
}

#[test]
fn test_estimate_profile_mean() {
    let mut a = vec![0u64; FRAME_SIZE];
    let mut b = vec![0u64; FRAME_SIZE];
    a[0] = 3;
    b[0] = 4;
    a[5] = 10;
    b[5] = 20;
    let profile = estimate_profile(&vec![a, b]);
    assert_eq!(profile.len(), FRAME_SIZE);
    // integer mean rounds down: (3 + 4) / 2 == 3
    assert_eq!(profile[0], 3);
    assert_eq!(profile[5], 15);
    assert_eq!(profile[1], 0);
}

#[test]
fn test_compute_gains_exact() {
    let config = NoiseReductionConfig::default();
    let magnitudes = vec![1_000_000u64, 1_000_000, 1_000_000, 0];
    let noise = vec![0u64, 250_000, 1_000_000, 77];
    let gains = compute_gains(&magnitudes, &noise, &config);
    assert_eq!(gains.len(), 4);
    // no noise: full gain
    assert_eq!(gains[0], UNIT);
    // half the magnitude subtracted (2.0 * 0.25)
    assert_eq!(gains[1], 500_000);
    // subtraction overshoots: clamped to the floor
    assert_eq!(gains[2], config.spectral_floor);
    // zero magnitude: exactly the floor
    assert_eq!(gains[3], config.spectral_floor);
}

#[test]
fn test_gain_bounds_random_bins() {
    // Gains stay inside [spectral_floor, 1.0] whatever the magnitudes.
    let config = NoiseReductionConfig::default();
    let mut seed: u64 = 1;
    let mut magnitudes = Vec::new();
    let mut noise = Vec::new();
    for _ in 0..FRAME_SIZE {
        seed = seed.wrapping_mul(6364136223846793005).wrapping_add(1442695040888963407);
        magnitudes.push(seed >> 20);
        seed = seed.wrapping_mul(6364136223846793005).wrapping_add(1442695040888963407);
        noise.push(seed >> 22);
    }
    let gains = compute_gains(&magnitudes, &noise, &config);
    for &g in gains.iter() {
        assert!(config.spectral_floor <= g && g <= UNIT);
    }
}

#[test]
fn test_overlap_add_constant_frame() {
    // One frame of constant 1.0 under a window of constant 1.0: every
    // covered position is the sample scaled by the makeup gain.
    let frames = vec![vec![1_000_000i64; FRAME_SIZE]];
    let window = vec![UNIT; FRAME_SIZE];
    let out = overlap_add(FRAME_SIZE, &frames, &window, 1_500_000);
    assert_eq!(out.len(), FRAME_SIZE);
    for &v in out.iter() {
        assert_eq!(v, 1_500_000);
    }
}

#[test]
fn test_overlap_add_negative_samples() {
    let frames = vec![vec![-1_000_000i64; FRAME_SIZE]];
    let window = vec![UNIT; FRAME_SIZE];
    let out = overlap_add(FRAME_SIZE, &frames, &window, 1_000_000);
    for &v in out.iter() {
        assert_eq!(v, -1_000_000);
    }
}

#[test]
fn test_overlap_add_zero_energy_stays_zero() {
    // A window of zero energy leaves every position silent, whatever the
    // frames hold.
    let frames = vec![vec![777_000i64; FRAME_SIZE]];
    let window = vec![0u64; FRAME_SIZE];
    let out = overlap_add(FRAME_SIZE, &frames, &window, 1_500_000);
    for &v in out.iter() {
        assert_eq!(v, 0);
    }
}

#[test]
fn test_overlap_add_silence() {
    // Silent frames reconstruct to silence.
    let cos_half = micro_cos_half();
    let window = hann_window(&cos_half);
    let frames = vec![vec![0i64; FRAME_SIZE]; 4];
    let out = overlap_add(5120, &frames, &window, 1_500_000);
    assert_eq!(out.len(), 5120);
    for &v in out.iter() {
        assert_eq!(v, 0);
    }
}

#[test]
fn test_overlap_add_length_preserved() {
    let cos_half = micro_cos_half();
    let window = hann_window(&cos_half);
    for len in [FRAME_SIZE, 3000, 5120, 44100] {
        let n = frame_count(len);
        let frames = vec![vec![123_456i64; FRAME_SIZE]; n];
        let out = overlap_add(len, &frames, &window, 1_500_000);
        assert_eq!(out.len(), len);
    }
}

#[test]
fn test_overlap_add_tail_uncovered() {
    // Positions past the last frame's reach accumulate no energy and stay
    // zero.
    let cos_half = micro_cos_half();
    let window = hann_window(&cos_half);
    let len = FRAME_SIZE + 500;
    let frames = vec![vec![1_000_000i64; FRAME_SIZE]; frame_count(len)];
    let out = overlap_add(len, &frames, &window, 1_000_000);
    assert_eq!(out.len(), len);
    for j in FRAME_SIZE..len {
        assert_eq!(out[j], 0);
    }
}
