use bg_noise_reduction_core::NoiseReductionConfig;
use bg_noise_reduction_core::Preset;

#[test]
fn test_default_config() {
    let c = NoiseReductionConfig::default();
    assert_eq!(c.noise_frames, 10);
    assert_eq!(c.spectral_floor, 100_000);
    assert_eq!(c.over_subtraction, 2_000_000);
    assert_eq!(c.makeup_gain, 1_500_000);
}

#[test]
fn test_preset_light() {
    let mut c = NoiseReductionConfig::default();
    c.apply_preset(Preset::Light);
    assert_eq!(c.noise_frames, 10);
    assert_eq!(c.spectral_floor, 250_000);
    assert_eq!(c.over_subtraction, 1_000_000);
    assert_eq!(c.makeup_gain, 1_200_000);
}

#[test]
fn test_preset_medium() {
    let mut c = NoiseReductionConfig::default();
    c.apply_preset(Preset::Medium);
    assert_eq!(c, NoiseReductionConfig::default());
}

#[test]
fn test_preset_heavy() {
    let mut c = NoiseReductionConfig::default();
    c.apply_preset(Preset::Heavy);
    assert_eq!(c.noise_frames, 10);
    assert_eq!(c.spectral_floor, 50_000);
    assert_eq!(c.over_subtraction, 3_000_000);
    assert_eq!(c.makeup_gain, 1_800_000);
}

#[test]
fn test_preset_extreme() {
    let mut c = NoiseReductionConfig::default();
    c.apply_preset(Preset::Extreme);
    assert_eq!(c.noise_frames, 10);
    assert_eq!(c.spectral_floor, 20_000);
    assert_eq!(c.over_subtraction, 4_000_000);
    assert_eq!(c.makeup_gain, 2_000_000);
}

#[test]
fn test_setters() {
    let mut c = NoiseReductionConfig::default();
    c.set_noise_frames(4);
    assert_eq!(c.noise_frames, 4);
    assert_eq!(c.spectral_floor, 100_000);
    c.set_spectral_floor(300_000);
    assert_eq!(c.spectral_floor, 300_000);
    assert_eq!(c.noise_frames, 4);
    c.set_over_subtraction(2_500_000);
    assert_eq!(c.over_subtraction, 2_500_000);
    c.set_makeup_gain(1_000_000);
    assert_eq!(c.makeup_gain, 1_000_000);
    assert_eq!(c.noise_frames, 4);
    assert_eq!(c.spectral_floor, 300_000);
}

#[test]
fn test_set_config() {
    let mut c = NoiseReductionConfig::default();
    c.set_config(7, 150_000, 2_200_000, 1_100_000);
    assert_eq!(c.noise_frames, 7);
    assert_eq!(c.spectral_floor, 150_000);
    assert_eq!(c.over_subtraction, 2_200_000);
    assert_eq!(c.makeup_gain, 1_100_000);
}
