//! Per-bin gain of the spectral subtraction: the fraction of a bin's
//! magnitude that survives, clamped between the spectral floor and one.

use vstd::prelude::*;

use crate::config::NoiseReductionConfig;
use crate::config::UNIT;

verus! {

/// The gain of one bin, in micro-units. `m` is the bin's magnitude, `n` the
/// noise profile's magnitude for the bin, both on the same (arbitrary)
/// scale; `over_subtraction` and `spectral_floor` are in micro-units. For a
/// positive magnitude the raw gain is `(m - over_subtraction * n) / m`,
/// lifted to at least `spectral_floor` and then capped at one; for a zero
/// magnitude the gain is exactly `spectral_floor`.
pub open spec fn gain_at(m: int, n: int, over_subtraction: int, spectral_floor: int) -> int {
    if m <= 0 {
        spectral_floor
    } else {
        let raw = (m * (UNIT as int) - over_subtraction * n) / m;
        let lifted = if raw < spectral_floor {
            spectral_floor
        } else {
            raw
        };
        if lifted > UNIT {
            UNIT as int
        } else {
            lifted
        }
    }
}

/// Whatever the magnitudes, the gain stays between the spectral floor and
/// one: no bin is attenuated below the floor and none is amplified.
pub proof fn lemma_gain_bounded(m: int, n: int, over_subtraction: int, spectral_floor: int)
    requires
        0 <= spectral_floor <= UNIT,
    ensures
        spectral_floor <= gain_at(m, n, over_subtraction, spectral_floor) <= UNIT,
{
}

/// A bin with zero magnitude gets exactly the floor gain; applied to its
/// zero magnitude this keeps the bin silent.
pub proof fn lemma_gain_of_silence(n: int, over_subtraction: int, spectral_floor: int)
    ensures
        gain_at(0, n, over_subtraction, spectral_floor) == spectral_floor,
{
}

/// Compute the gain of every bin from the frame's magnitude spectrum and
/// the noise profile. Bin `i` of the result is `gain_at` of the inputs'
/// bins `i`, so every gain lies between `config.spectral_floor` and `UNIT`.
pub fn compute_gains(magnitudes: &Vec<u64>, noise: &Vec<u64>, config: &NoiseReductionConfig) -> (gains: Vec<u64>)
    requires
        magnitudes@.len() == noise@.len(),
        config.spectral_floor <= UNIT,
    ensures
        gains@.len() == magnitudes@.len(),
        forall|i: int|
            0 <= i < gains@.len() ==> #[trigger] gains@[i] == gain_at(
                magnitudes@[i] as int,
                noise@[i] as int,
                config.over_subtraction as int,
                config.spectral_floor as int,
            ),
        forall|i: int|
            0 <= i < gains@.len() ==> config.spectral_floor <= #[trigger] gains@[i] <= UNIT,
{
    let len: usize = magnitudes.len();
    let mut gains: Vec<u64> = Vec::new();
    let mut i: usize = 0;
    while i < len
        invariant
            len == magnitudes@.len(),
            magnitudes@.len() == noise@.len(),
            config.spectral_floor <= UNIT,
            i <= len,
            gains@.len() == i,
            forall|k: int|
                0 <= k < i ==> #[trigger] gains@[k] == gain_at(
                    magnitudes@[k] as int,
                    noise@[k] as int,
                    config.over_subtraction as int,
                    config.spectral_floor as int,
                ),
            forall|k: int|
                0 <= k < i ==> config.spectral_floor <= #[trigger] gains@[k] <= UNIT,
        decreases len - i,
    {
        let m: u64 = magnitudes[i];
        let n: u64 = noise[i];
        let g: u64 = bin_gain(m, n, config.over_subtraction, config.spectral_floor);
        gains.push(g);
        i = i + 1;
    }
    gains
}

/// The gain of a single bin, computed in 128-bit intermediates so that no
/// product can overflow.
fn bin_gain(m: u64, n: u64, over_subtraction: u64, spectral_floor: u64) -> (g: u64)
    requires
        spectral_floor <= UNIT,
    ensures
        g == gain_at(m as int, n as int, over_subtraction as int, spectral_floor as int),
        spectral_floor <= g <= UNIT,
{
    if m == 0 {
        return spectral_floor;
    }
    proof {
        vstd::arithmetic::mul::lemma_mul_upper_bound(
            m as int,
            u64::MAX as int,
            UNIT as int,
            UNIT as int,
        );
        vstd::arithmetic::mul::lemma_mul_upper_bound(
            over_subtraction as int,
            u64::MAX as int,
            n as int,
            u64::MAX as int,
        );
    }
    let ms: u128 = (m as u128) * (UNIT as u128);
    let p: u128 = (over_subtraction as u128) * (n as u128);
    if p >= ms {
        // The raw gain is at most zero, so the clamp yields the floor.
        proof {
            let num = (m as int) * (UNIT as int) - (over_subtraction as int) * (n as int);
            vstd::arithmetic::div_mod::lemma_div_is_ordered(num, 0, m as int);
            vstd::arithmetic::div_mod::lemma_div_of0(m as int);
        }
        return spectral_floor;
    }
    let raw: u128 = (ms - p) / (m as u128);
    if raw < spectral_floor as u128 {
        spectral_floor
    } else if raw > UNIT as u128 {
        UNIT
    } else {
        raw as u64
    }
}

} // verus!
