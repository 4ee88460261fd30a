//! Overlap-add reconstruction: overlapping denoised frames are summed,
//! weighted by the analysis window, and normalized by the accumulated
//! window energy.
//!
//! Frame `f` covers the sample positions `f * HOP_SIZE` up to but not
//! including `f * HOP_SIZE + FRAME_SIZE`. Because the frame is exactly two
//! hops long, a position `j` is covered by at most two frames: `j / HOP_SIZE`
//! and the frame before it. The specification below is written directly in
//! those terms, and `lemma_covering_frames` shows that they are exactly the
//! frames whose range contains `j`.

use vstd::prelude::*;

use crate::config::UNIT;
use crate::frames::FRAME_SIZE;
use crate::frames::HOP_SIZE;

verus! {

/// Largest magnitude a denoised sample handed to `overlap_add` may have,
/// in micro-units. Signals live in a range near one unit; the limit leaves
/// room for nine orders of magnitude more while keeping every intermediate
/// product inside 128 bits.
pub const SAMPLE_LIMIT: i64 = 1_000_000_000_000_000;

/// Largest makeup gain `overlap_add` accepts, in micro-units (a factor of
/// one million), for the same reason.
pub const MAKEUP_LIMIT: u64 = 1_000_000_000_000;

/// Whether frame `f` of `n_frames` frames covers sample position `j`.
pub open spec fn covers(f: int, n_frames: int, j: int) -> bool {
    0 <= f < n_frames && f * HOP_SIZE <= j < f * HOP_SIZE + FRAME_SIZE
}

/// The summed contribution of the denoised frames at position `j`: frame
/// `j / HOP_SIZE` reads at its offset `j % HOP_SIZE`, the frame before it
/// one hop further in.
pub open spec fn ola_numer(frames: Seq<Vec<i64>>, j: int) -> int {
    let f0 = j / (HOP_SIZE as int);
    let r = j % (HOP_SIZE as int);
    (if f0 < frames.len() {
        frames[f0]@[r] as int
    } else {
        0
    }) + (if 1 <= f0 && f0 - 1 < frames.len() {
        frames[f0 - 1]@[r + HOP_SIZE] as int
    } else {
        0
    })
}

/// The summed window energy at position `j`, over the same frames.
pub open spec fn ola_energy(window: Seq<u64>, n_frames: int, j: int) -> int {
    let f0 = j / (HOP_SIZE as int);
    let r = j % (HOP_SIZE as int);
    (if f0 < n_frames {
        window[r] as int
    } else {
        0
    }) + (if 1 <= f0 && f0 - 1 < n_frames {
        window[r + HOP_SIZE] as int
    } else {
        0
    })
}

/// The reconstructed sample at position `j`: the accumulated contribution
/// divided by the accumulated window energy and scaled by the makeup gain,
/// rounded toward zero; zero where no window energy accumulated.
pub open spec fn ola_sample(frames: Seq<Vec<i64>>, window: Seq<u64>, makeup: int, j: int) -> int {
    let acc = ola_numer(frames, j);
    let ws = ola_energy(window, frames.len() as int, j);
    if ws > 0 {
        if acc >= 0 {
            (acc * makeup) / ws
        } else {
            -(((-acc) * makeup) / ws)
        }
    } else {
        0
    }
}

/// The frames named by `ola_numer` are exactly the frames that cover `j`:
/// with a frame two hops long, a frame covers `j` if and only if it is
/// `j / HOP_SIZE` or the one before it.
pub proof fn lemma_covering_frames(f: int, n_frames: int, j: int)
    requires
        0 <= j,
    ensures
        covers(f, n_frames, j) <==> (0 <= f < n_frames && (f == j / (HOP_SIZE as int) || f == j / (
        HOP_SIZE as int) - 1)),
{
    let hop = HOP_SIZE as int;
    let f0 = j / hop;
    let r = j % hop;
    vstd::arithmetic::div_mod::lemma_fundamental_div_mod(j, hop);
    vstd::arithmetic::div_mod::lemma_mod_division_less_than_divisor(j, hop);
    vstd::arithmetic::div_mod::lemma_div_pos_is_pos(j, hop);
    assert(j == hop * f0 + r);
    assert(f0 * hop <= j < f0 * hop + FRAME_SIZE) by (nonlinear_arith)
        requires
            j == hop * f0 + r,
            0 <= r < hop,
            hop == HOP_SIZE as int,
            FRAME_SIZE == 2 * HOP_SIZE,
    ;
    if 1 <= f0 {
        assert((f0 - 1) * hop <= j < (f0 - 1) * hop + FRAME_SIZE) by (nonlinear_arith)
            requires
                j == hop * f0 + r,
                0 <= r < hop,
                1 <= f0,
                hop == HOP_SIZE as int,
                FRAME_SIZE == 2 * HOP_SIZE,
        ;
    }
    if f <= f0 - 2 {
        assert(f * hop + FRAME_SIZE <= f0 * hop <= j) by (nonlinear_arith)
            requires
                f <= f0 - 2,
                hop * f0 <= j,
                hop == HOP_SIZE as int,
                FRAME_SIZE == 2 * HOP_SIZE,
        ;
    }
    if f >= f0 + 1 {
        assert(j < f * hop) by (nonlinear_arith)
            requires
                f >= f0 + 1,
                j == hop * f0 + r,
                r < hop,
                hop == HOP_SIZE as int,
        ;
    }
}

/// The contribution of position `j` summed frame by frame over the first
/// `k` frames, each frame adding its sample at `j`'s offset when its range
/// covers `j`.
pub open spec fn frame_major_numer(frames: Seq<Vec<i64>>, k: int, j: int) -> int
    decreases k,
{
    if k <= 0 {
        0
    } else {
        frame_major_numer(frames, k - 1, j) + if covers(k - 1, frames.len() as int, j) {
            frames[k - 1]@[j - (k - 1) * HOP_SIZE] as int
        } else {
            0
        }
    }
}

/// The window energy of position `j` accumulated frame by frame over the
/// first `k` frames, in the same way.
pub open spec fn frame_major_energy(window: Seq<u64>, n_frames: int, k: int, j: int) -> int
    decreases k,
{
    if k <= 0 {
        0
    } else {
        frame_major_energy(window, n_frames, k - 1, j) + if covers(k - 1, n_frames, j) {
            window[j - (k - 1) * HOP_SIZE] as int
        } else {
            0
        }
    }
}

/// Accumulating every frame in order, as the reconstruction is usually
/// described, yields exactly `ola_numer` and `ola_energy`: only the two
/// frames those functions name cover `j`, and their offsets into the frame
/// are `j`'s remainder and the remainder one hop further in.
pub proof fn lemma_frame_major_accumulation(
    frames: Seq<Vec<i64>>,
    window: Seq<u64>,
    k: int,
    j: int,
)
    requires
        0 <= j,
        0 <= k <= frames.len(),
    ensures
        frame_major_numer(frames, k, j) == {
            let f0 = j / (HOP_SIZE as int);
            let r = j % (HOP_SIZE as int);
            (if f0 < k {
                frames[f0]@[r] as int
            } else {
                0
            }) + (if 1 <= f0 && f0 - 1 < k {
                frames[f0 - 1]@[r + HOP_SIZE] as int
            } else {
                0
            })
        },
        frame_major_energy(window, frames.len() as int, k, j) == {
            let f0 = j / (HOP_SIZE as int);
            let r = j % (HOP_SIZE as int);
            (if f0 < k {
                window[r] as int
            } else {
                0
            }) + (if 1 <= f0 && f0 - 1 < k {
                window[r + HOP_SIZE] as int
            } else {
                0
            })
        },
    decreases k,
{
    let hop = HOP_SIZE as int;
    let f0 = j / hop;
    let r = j % hop;
    vstd::arithmetic::div_mod::lemma_fundamental_div_mod(j, hop);
    vstd::arithmetic::div_mod::lemma_mod_division_less_than_divisor(j, hop);
    vstd::arithmetic::div_mod::lemma_div_pos_is_pos(j, hop);
    if k > 0 {
        lemma_frame_major_accumulation(frames, window, k - 1, j);
        lemma_covering_frames(k - 1, frames.len() as int, j);
        if k - 1 == f0 {
            assert(j - (k - 1) * hop == r) by (nonlinear_arith)
                requires
                    j == hop * f0 + r,
                    k - 1 == f0,
            ;
        }
        if k - 1 == f0 - 1 {
            assert(j - (k - 1) * hop == r + hop) by (nonlinear_arith)
                requires
                    j == hop * f0 + r,
                    k - 1 == f0 - 1,
            ;
        }
    }
}

/// Summing all frames gives exactly the accumulations that `ola_sample`
/// normalizes.
pub proof fn lemma_ola_matches_frame_major(frames: Seq<Vec<i64>>, window: Seq<u64>, j: int)
    requires
        0 <= j,
    ensures
        frame_major_numer(frames, frames.len() as int, j) == ola_numer(frames, j),
        frame_major_energy(window, frames.len() as int, frames.len() as int, j) == ola_energy(
            window,
            frames.len() as int,
            j,
        ),
{
    lemma_frame_major_accumulation(frames, window, frames.len() as int, j);
}

/// Stitch the denoised frames back into a signal of exactly `len` samples.
/// Position `j` of the result is `ola_sample` at `j`: the overlapping
/// contributions summed, normalized by the summed window energy, and scaled
/// by `makeup_gain`; positions without window energy stay zero. The result
/// always has the length of the input signal.
pub fn overlap_add(len: usize, frames: &Vec<Vec<i64>>, window: &Vec<u64>, makeup_gain: u64) -> (out:
    Vec<i128>)
    requires
        window@.len() == FRAME_SIZE,
        forall|k: int| 0 <= k < window@.len() ==> #[trigger] window@[k] <= UNIT,
        forall|f: int| 0 <= f < frames@.len() ==> (#[trigger] frames@[f])@.len() == FRAME_SIZE,
        forall|f: int, k: int|
            0 <= f < frames@.len() && 0 <= k < FRAME_SIZE ==> -SAMPLE_LIMIT
                <= #[trigger] frames@[f]@[k] <= SAMPLE_LIMIT,
        makeup_gain <= MAKEUP_LIMIT,
    ensures
        out@.len() == len,
        forall|j: int|
            0 <= j < len ==> #[trigger] out@[j] == ola_sample(
                frames@,
                window@,
                makeup_gain as int,
                j,
            ),
{
    let n_frames: usize = frames.len();
    let mut out: Vec<i128> = Vec::new();
    let mut j: usize = 0;
    while j < len
        invariant
            n_frames == frames@.len(),
            window@.len() == FRAME_SIZE,
            forall|k: int| 0 <= k < window@.len() ==> #[trigger] window@[k] <= UNIT,
            forall|f: int| 0 <= f < frames@.len() ==> (#[trigger] frames@[f])@.len() == FRAME_SIZE,
            forall|f: int, k: int|
                0 <= f < frames@.len() && 0 <= k < FRAME_SIZE ==> -SAMPLE_LIMIT
                    <= #[trigger] frames@[f]@[k] <= SAMPLE_LIMIT,
            makeup_gain <= MAKEUP_LIMIT,
            j <= len,
            out@.len() == j,
            forall|q: int|
                0 <= q < j ==> #[trigger] out@[q] == ola_sample(
                    frames@,
                    window@,
                    makeup_gain as int,
                    q,
                ),
        decreases len - j,
    {
        let f0: usize = j / HOP_SIZE;
        let r: usize = j % HOP_SIZE;
        proof {
            vstd::arithmetic::div_mod::lemma_mod_division_less_than_divisor(
                j as int,
                HOP_SIZE as int,
            );
        }
        let mut acc: i128 = 0;
        let mut ws: u64 = 0;
        if f0 < n_frames {
            acc = acc + frames[f0][r] as i128;
            ws = ws + window[r];
        }
        if f0 >= 1 && f0 - 1 < n_frames {
            acc = acc + frames[f0 - 1][r + HOP_SIZE] as i128;
            ws = ws + window[r + HOP_SIZE];
        }
        let v: i128 = if ws > 0 {
            let mag: u128 = if acc >= 0 {
                acc as u128
            } else {
                (-acc) as u128
            };
            proof {
                vstd::arithmetic::mul::lemma_mul_upper_bound(
                    mag as int,
                    2 * SAMPLE_LIMIT as int,
                    makeup_gain as int,
                    MAKEUP_LIMIT as int,
                );
                vstd::arithmetic::div_mod::lemma_div_is_ordered_by_denominator(
                    (mag * makeup_gain as u128) as int,
                    1,
                    ws as int,
                );
            }
            let q: u128 = (mag * (makeup_gain as u128)) / (ws as u128);
            if acc >= 0 {
                q as i128
            } else {
                -(q as i128)
            }
        } else {
            0
        };
        out.push(v);
        j = j + 1;
    }
    out
}

/// Positions beyond the reach of the last frame accumulate neither signal
/// nor window energy, so the reconstruction leaves them at zero: the
/// uncovered trailing part of the output is silence.
pub proof fn lemma_uncovered_tail_is_silent(
    frames: Seq<Vec<i64>>,
    window: Seq<u64>,
    makeup: int,
    j: int,
)
    requires
        j >= (frames.len() + 1) * HOP_SIZE,
    ensures
        ola_sample(frames, window, makeup, j) == 0,
{
    let hop = HOP_SIZE as int;
    let bound = (frames.len() + 1) as int;
    vstd::arithmetic::div_mod::lemma_div_is_ordered(bound * hop, j, hop);
    vstd::arithmetic::div_mod::lemma_div_multiples_vanish(bound, hop);
    assert(j / hop >= bound);
}

/// When every denoised frame is silent, the reconstructed signal is silent:
/// the contributions sum to zero at every position, and zero divided by any
/// window energy stays zero.
pub proof fn lemma_silent_frames(frames: Seq<Vec<i64>>, window: Seq<u64>, makeup: int, j: int)
    requires
        0 <= j,
        forall|f: int| 0 <= f < frames.len() ==> (#[trigger] frames[f])@.len() == FRAME_SIZE,
        forall|f: int, k: int|
            0 <= f < frames.len() && 0 <= k < FRAME_SIZE ==> #[trigger] frames[f]@[k] == 0,
    ensures
        ola_sample(frames, window, makeup, j) == 0,
{
    let hop = HOP_SIZE as int;
    vstd::arithmetic::div_mod::lemma_mod_division_less_than_divisor(j, hop);
    vstd::arithmetic::div_mod::lemma_div_pos_is_pos(j, hop);
    assert(ola_numer(frames, j) == 0);
    let ws = ola_energy(window, frames.len() as int, j);
    if ws > 0 {
        vstd::arithmetic::div_mod::lemma_div_of0(ws);
    }
}

} // verus!
