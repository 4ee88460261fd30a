//! Processing configuration in fixed-point micro-units.

use vstd::prelude::*;

verus! {

/// Number of micro-units that represent the real value 1.0. All fractional
/// configuration values, window values and gains are integers on this scale.
pub const UNIT: u64 = 1_000_000;

/// Parameters that govern how aggressively noise is removed and how the
/// output level is compensated. The three fractional fields are in
/// micro-units: `UNIT` stands for 1.0.
#[derive(Clone, Copy, Debug, PartialEq, Eq, Structural)]
pub struct NoiseReductionConfig {
    /// Number of leading frames averaged into the noise profile.
    pub noise_frames: usize,
    /// Minimum fraction of a bin's magnitude that subtraction retains,
    /// in micro-units of the range 0.0 to 1.0.
    pub spectral_floor: u64,
    /// Multiplier on the estimated noise magnitude before subtracting,
    /// in micro-units.
    pub over_subtraction: u64,
    /// Final linear scaling of the reconstructed signal, in micro-units.
    pub makeup_gain: u64,
}

impl Default for NoiseReductionConfig {
    /// Moderate defaults: 10 noise frames, floor 0.1, over-subtraction 2.0,
    /// makeup gain 1.5.
    fn default() -> (c: Self)
        ensures
            c == (NoiseReductionConfig {
                noise_frames: 10,
                spectral_floor: 100_000,
                over_subtraction: 2_000_000,
                makeup_gain: 1_500_000,
            }),
    {
        NoiseReductionConfig {
            noise_frames: 10,
            spectral_floor: 100_000,
            over_subtraction: 2_000_000,
            makeup_gain: 1_500_000,
        }
    }
}

/// The named configuration bundles offered to callers.
#[derive(Clone, Copy, Debug, PartialEq, Eq, Structural)]
pub enum Preset {
    Light,
    Medium,
    Heavy,
    Extreme,
}

/// The configuration that each preset stands for.
pub open spec fn preset_config(preset: Preset) -> NoiseReductionConfig {
    match preset {
        Preset::Light => NoiseReductionConfig {
            noise_frames: 10,
            spectral_floor: 250_000,
            over_subtraction: 1_000_000,
            makeup_gain: 1_200_000,
        },
        Preset::Medium => NoiseReductionConfig {
            noise_frames: 10,
            spectral_floor: 100_000,
            over_subtraction: 2_000_000,
            makeup_gain: 1_500_000,
        },
        Preset::Heavy => NoiseReductionConfig {
            noise_frames: 10,
            spectral_floor: 50_000,
            over_subtraction: 3_000_000,
            makeup_gain: 1_800_000,
        },
        Preset::Extreme => NoiseReductionConfig {
            noise_frames: 10,
            spectral_floor: 20_000,
            over_subtraction: 4_000_000,
            makeup_gain: 2_000_000,
        },
    }
}

impl NoiseReductionConfig {
    /// Replace every field with the values of the named preset.
    pub fn apply_preset(&mut self, preset: Preset)
        ensures
            *final(self) == preset_config(preset),
    {
        match preset {
            Preset::Light => {
                self.noise_frames = 10;
                self.spectral_floor = 250_000;
                self.over_subtraction = 1_000_000;
                self.makeup_gain = 1_200_000;
            },
            Preset::Medium => {
                self.noise_frames = 10;
                self.spectral_floor = 100_000;
                self.over_subtraction = 2_000_000;
                self.makeup_gain = 1_500_000;
            },
            Preset::Heavy => {
                self.noise_frames = 10;
                self.spectral_floor = 50_000;
                self.over_subtraction = 3_000_000;
                self.makeup_gain = 1_800_000;
            },
            Preset::Extreme => {
                self.noise_frames = 10;
                self.spectral_floor = 20_000;
                self.over_subtraction = 4_000_000;
                self.makeup_gain = 2_000_000;
            },
        }
    }

    /// Set all four parameters at once.
    pub fn set_config(
        &mut self,
        noise_frames: usize,
        spectral_floor: u64,
        over_subtraction: u64,
        makeup_gain: u64,
    )
        ensures
            *final(self) == (NoiseReductionConfig {
                noise_frames,
                spectral_floor,
                over_subtraction,
                makeup_gain,
            }),
    {
        self.noise_frames = noise_frames;
        self.spectral_floor = spectral_floor;
        self.over_subtraction = over_subtraction;
        self.makeup_gain = makeup_gain;
    }

    /// Set the number of frames used for noise estimation.
    pub fn set_noise_frames(&mut self, value: usize)
        ensures
            final(self).noise_frames == value,
            final(self).spectral_floor == old(self).spectral_floor,
            final(self).over_subtraction == old(self).over_subtraction,
            final(self).makeup_gain == old(self).makeup_gain,
    {
        self.noise_frames = value;
    }

    /// Set the spectral floor, in micro-units of 0.0 to 1.0.
    pub fn set_spectral_floor(&mut self, value: u64)
        ensures
            final(self).spectral_floor == value,
            final(self).noise_frames == old(self).noise_frames,
            final(self).over_subtraction == old(self).over_subtraction,
            final(self).makeup_gain == old(self).makeup_gain,
    {
        self.spectral_floor = value;
    }

    /// Set the over-subtraction factor, in micro-units.
    pub fn set_over_subtraction(&mut self, value: u64)
        ensures
            final(self).over_subtraction == value,
            final(self).noise_frames == old(self).noise_frames,
            final(self).spectral_floor == old(self).spectral_floor,
            final(self).makeup_gain == old(self).makeup_gain,
    {
        self.over_subtraction = value;
    }

    /// Set the makeup gain, in micro-units.
    pub fn set_makeup_gain(&mut self, value: u64)
        ensures
            final(self).makeup_gain == value,
            final(self).noise_frames == old(self).noise_frames,
            final(self).spectral_floor == old(self).spectral_floor,
            final(self).over_subtraction == old(self).over_subtraction,
    {
        self.makeup_gain = value;
    }
}

} // verus!
