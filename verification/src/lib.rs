//! Spectral-subtraction noise reduction engine.
//!
//! The numeric core works on fixed-point values: one unit of the signal
//! (1.0) is represented by [`config::UNIT`] micro-units. The surrounding
//! application converts floating-point samples, spectra and window values
//! into micro-units, lets this library plan the frames, estimate the noise
//! profile, compute the per-bin gains and reconstruct the signal by
//! overlap-add, and converts the result back.

pub mod config;
pub mod frames;
pub mod gain;
pub mod noise;
pub mod overlap;
pub mod window;

pub use config::NoiseReductionConfig;
pub use config::Preset;
pub use config::UNIT;
pub use frames::estimation_frame_count;
pub use frames::frame_count;
pub use frames::frame_positions;
pub use frames::should_bypass;
pub use frames::FRAME_SIZE;
pub use frames::HOP_SIZE;
pub use gain::compute_gains;
pub use noise::estimate_profile;
pub use overlap::overlap_add;
pub use overlap::MAKEUP_LIMIT;
pub use overlap::SAMPLE_LIMIT;
pub use window::hann_window;
