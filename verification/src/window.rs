//! The Hann analysis window in fixed point.
//!
//! The window is `w[i] = 0.5 * (1 - cos(2*pi*i / (N-1)))` for `i` in
//! `0 .. N` with `N == FRAME_SIZE`. Because the cosine argument runs over a
//! full turn, the window is symmetric: the value at `i` equals the value at
//! `N - 1 - i`. The construction below makes that symmetry exact: it takes
//! the cosine values for the first half of the window (where the argument
//! runs from 0 to pi) and mirrors the resulting half window onto the second
//! half.

use vstd::prelude::*;

use crate::config::UNIT;
use crate::frames::FRAME_SIZE;
use crate::frames::HOP_SIZE;

verus! {

/// Build the Hann window of length `FRAME_SIZE` from the cosine values of
/// its first half: `cos_half[i]` must be `cos(2*pi*i / (FRAME_SIZE - 1))`
/// in micro-units, for `i` in `0 .. HOP_SIZE`. The caller supplies the
/// cosines; this function turns them into a window that is exactly
/// symmetric, zero at both edges, and nowhere above one.
pub fn hann_window(cos_half: &Vec<i64>) -> (w: Vec<u64>)
    requires
        cos_half@.len() == HOP_SIZE,
        forall|i: int|
            0 <= i < cos_half@.len() ==> -(UNIT as int) <= #[trigger] cos_half@[i] <= UNIT as int,
        cos_half@[0] == UNIT,
    ensures
        w@.len() == FRAME_SIZE,
        forall|i: int|
            0 <= i < HOP_SIZE ==> #[trigger] w@[i] == (UNIT - cos_half@[i]) / 2,
        forall|i: int| 0 <= i < FRAME_SIZE ==> #[trigger] w@[i] == w@[FRAME_SIZE - 1 - i],
        forall|i: int| 0 <= i < FRAME_SIZE ==> #[trigger] w@[i] <= UNIT,
        w@[0] == 0,
        w@[FRAME_SIZE - 1] == 0,
{
    let mut w: Vec<u64> = Vec::new();
    let mut i: usize = 0;
    while i < HOP_SIZE
        invariant
            cos_half@.len() == HOP_SIZE,
            forall|k: int|
                0 <= k < cos_half@.len() ==> -(UNIT as int) <= #[trigger] cos_half@[k]
                    <= UNIT as int,
            i <= HOP_SIZE,
            w@.len() == i,
            forall|k: int| 0 <= k < i ==> #[trigger] w@[k] == (UNIT - cos_half@[k]) / 2,
            forall|k: int| 0 <= k < i ==> #[trigger] w@[k] <= UNIT,
        decreases HOP_SIZE - i,
    {
        let c: i64 = cos_half[i];
        let diff: i64 = UNIT as i64 - c;
        let v: u64 = (diff as u64) / 2;
        w.push(v);
        i = i + 1;
    }
    let mut i: usize = 0;
    while i < HOP_SIZE
        invariant
            i <= HOP_SIZE,
            w@.len() == HOP_SIZE + i,
            cos_half@.len() == HOP_SIZE,
            forall|k: int| 0 <= k < HOP_SIZE ==> #[trigger] w@[k] == (UNIT - cos_half@[k]) / 2,
            forall|k: int| 0 <= k < HOP_SIZE ==> #[trigger] w@[k] <= UNIT,
            forall|k: int| 0 <= k < i ==> #[trigger] w@[HOP_SIZE + k] == w@[HOP_SIZE - 1 - k],
        decreases HOP_SIZE - i,
    {
        let v: u64 = w[HOP_SIZE - 1 - i];
        w.push(v);
        i = i + 1;
    }
    proof {
        assert forall|i: int| 0 <= i < FRAME_SIZE implies #[trigger] w@[i] == w@[FRAME_SIZE - 1
            - i] by {
            if i < HOP_SIZE {
                assert(w@[FRAME_SIZE - 1 - i] == w@[HOP_SIZE + (HOP_SIZE - 1 - i)]);
            } else {
                assert(w@[i] == w@[HOP_SIZE + (i - HOP_SIZE)]);
            }
        }
        assert(w@[0] == (UNIT - cos_half@[0]) / 2);
    }
    w
}

} // verus!
