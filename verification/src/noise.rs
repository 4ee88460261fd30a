//! Noise-profile estimation: the bin-wise arithmetic mean of the magnitude
//! spectra of the leading frames of the input.

use vstd::prelude::*;

use crate::frames::FRAME_SIZE;

verus! {

/// Sum of the magnitudes of bin `i` over the first `k` frames.
pub open spec fn mag_sum_at(frames: Seq<Vec<u64>>, k: int, i: int) -> int
    decreases k,
{
    if k <= 0 {
        0
    } else {
        mag_sum_at(frames, k - 1, i) + frames[k - 1]@[i]
    }
}

/// The bin-wise sum over `k` frames is at most `k` times the largest value a
/// magnitude can hold, and never negative.
pub proof fn lemma_mag_sum_bounds(frames: Seq<Vec<u64>>, k: int, i: int)
    requires
        0 <= k,
    ensures
        0 <= mag_sum_at(frames, k, i) <= k * (u64::MAX as int),
    decreases k,
{
    if k > 0 {
        lemma_mag_sum_bounds(frames, k - 1, i);
        assert(k * (u64::MAX as int) == (k - 1) * (u64::MAX as int) + u64::MAX);
    }
}

/// Over frames whose magnitudes are all zero, the bin-wise sum is zero.
pub proof fn lemma_mag_sum_zero(frames: Seq<Vec<u64>>, k: int, i: int)
    requires
        0 <= k <= frames.len(),
        0 <= i,
        forall|f: int, j: int|
            0 <= f < frames.len() && 0 <= j < frames[f]@.len() ==> #[trigger] frames[f]@[j] == 0,
        forall|f: int| 0 <= f < frames.len() ==> (#[trigger] frames[f])@.len() == FRAME_SIZE,
        i < FRAME_SIZE,
    ensures
        mag_sum_at(frames, k, i) == 0,
    decreases k,
{
    if k > 0 {
        lemma_mag_sum_zero(frames, k - 1, i);
    }
}

/// A profile estimated from silent frames is silent: every bin of the mean
/// that `estimate_profile` returns is zero when every magnitude is zero.
pub proof fn lemma_silent_profile(frames: Seq<Vec<u64>>, i: int)
    requires
        frames.len() >= 1,
        0 <= i < FRAME_SIZE,
        forall|f: int| 0 <= f < frames.len() ==> (#[trigger] frames[f])@.len() == FRAME_SIZE,
        forall|f: int, j: int|
            0 <= f < frames.len() && 0 <= j < frames[f]@.len() ==> #[trigger] frames[f]@[j] == 0,
    ensures
        mag_sum_at(frames, frames.len() as int, i) / (frames.len() as int) == 0,
{
    lemma_mag_sum_zero(frames, frames.len() as int, i);
    vstd::arithmetic::div_mod::lemma_div_of0(frames.len() as int);
}

/// Average the magnitude spectra of `frames` into a noise profile: bin `i`
/// of the result is the mean of bin `i` over all frames, rounded down.
/// The division is by the number of frames actually given, which the caller
/// has already capped at the number of complete frames the input holds.
pub fn estimate_profile(frames: &Vec<Vec<u64>>) -> (profile: Vec<u64>)
    requires
        frames@.len() >= 1,
        forall|f: int| 0 <= f < frames@.len() ==> (#[trigger] frames@[f])@.len() == FRAME_SIZE,
    ensures
        profile@.len() == FRAME_SIZE,
        forall|i: int|
            0 <= i < FRAME_SIZE ==> #[trigger] profile@[i] == mag_sum_at(
                frames@,
                frames@.len() as int,
                i,
            ) / (frames@.len() as int),
{
    let count: usize = frames.len();
    let mut acc: Vec<u128> = Vec::new();
    let mut i: usize = 0;
    while i < FRAME_SIZE
        invariant
            i <= FRAME_SIZE,
            acc@.len() == i,
            forall|j: int| 0 <= j < i ==> #[trigger] acc@[j] == 0,
        decreases FRAME_SIZE - i,
    {
        acc.push(0);
        i = i + 1;
    }
    let mut f: usize = 0;
    while f < count
        invariant
            count == frames@.len(),
            f <= count,
            acc@.len() == FRAME_SIZE,
            forall|g: int| 0 <= g < frames@.len() ==> (#[trigger] frames@[g])@.len() == FRAME_SIZE,
            forall|j: int| 0 <= j < FRAME_SIZE ==> #[trigger] acc@[j] == mag_sum_at(
                frames@,
                f as int,
                j,
            ),
        decreases count - f,
    {
        let mut i: usize = 0;
        while i < FRAME_SIZE
            invariant
                count == frames@.len(),
                f < count,
                i <= FRAME_SIZE,
                acc@.len() == FRAME_SIZE,
                forall|g: int|
                    0 <= g < frames@.len() ==> (#[trigger] frames@[g])@.len() == FRAME_SIZE,
                forall|j: int|
                    i <= j < FRAME_SIZE ==> #[trigger] acc@[j] == mag_sum_at(frames@, f as int, j),
                forall|j: int|
                    0 <= j < i ==> #[trigger] acc@[j] == mag_sum_at(frames@, f as int + 1, j),
            decreases FRAME_SIZE - i,
        {
            proof {
                lemma_mag_sum_bounds(frames@, f as int, i as int);
                assert((f as int) * (u64::MAX as int) + u64::MAX == (f as int + 1) * (
                u64::MAX as int));
                vstd::arithmetic::mul::lemma_mul_inequality(
                    f as int + 1,
                    u64::MAX as int,
                    u64::MAX as int,
                );
            }
            let m: u64 = frames[f][i];
            let prev: u128 = acc[i];
            acc.set(i, prev + m as u128);
            i = i + 1;
        }
        f = f + 1;
    }
    let mut profile: Vec<u64> = Vec::new();
    let mut i: usize = 0;
    while i < FRAME_SIZE
        invariant
            count == frames@.len(),
            count >= 1,
            i <= FRAME_SIZE,
            acc@.len() == FRAME_SIZE,
            profile@.len() == i,
            forall|j: int| 0 <= j < FRAME_SIZE ==> #[trigger] acc@[j] == mag_sum_at(
                frames@,
                count as int,
                j,
            ),
            forall|j: int| 0 <= j < i ==> #[trigger] profile@[j] == mag_sum_at(
                frames@,
                count as int,
                j,
            ) / (count as int),
        decreases FRAME_SIZE - i,
    {
        proof {
            lemma_mag_sum_bounds(frames@, count as int, i as int);
            vstd::arithmetic::div_mod::lemma_div_is_ordered(
                acc@[i as int] as int,
                (count as int) * (u64::MAX as int),
                count as int,
            );
            vstd::arithmetic::div_mod::lemma_div_multiples_vanish(u64::MAX as int, count as int);
        }
        let s: u128 = acc[i];
        let mean: u128 = s / (count as u128);
        profile.push(mean as u64);
        i = i + 1;
    }
    profile
}

} // verus!
