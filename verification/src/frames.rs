//! Frame layout of the analysis: fixed frame size, fixed hop, 50% overlap.

use vstd::prelude::*;

verus! {

/// Number of samples in one analysis frame.
pub const FRAME_SIZE: usize = 2048;

/// Number of samples between the starts of successive frames.
/// Half the frame size, so successive frames overlap by 50%.
pub const HOP_SIZE: usize = 1024;

/// How many complete frames fit into an input of `len` samples when frames
/// start at 0 and advance by `HOP_SIZE` while `start + FRAME_SIZE <= len`.
pub open spec fn full_frame_count(len: int) -> int {
    if len < FRAME_SIZE {
        0
    } else {
        (len - FRAME_SIZE) / (HOP_SIZE as int) + 1
    }
}

/// An input shorter than one frame is passed through unchanged instead of
/// being processed.
pub fn should_bypass(len: usize) -> (r: bool)
    ensures
        r <==> len < FRAME_SIZE,
{
    len < FRAME_SIZE
}

/// Number of complete frames that the processing loop visits.
pub fn frame_count(len: usize) -> (r: usize)
    ensures
        r == full_frame_count(len as int),
{
    if len < FRAME_SIZE {
        0
    } else {
        (len - FRAME_SIZE) / HOP_SIZE + 1
    }
}

/// Start offsets of the complete frames, in order: 0, HOP_SIZE, 2 * HOP_SIZE, ...
pub fn frame_positions(len: usize) -> (r: Vec<usize>)
    ensures
        r@.len() == full_frame_count(len as int),
        forall|i: int| 0 <= i < r@.len() ==> #[trigger] r@[i] == i * HOP_SIZE,
        forall|i: int| 0 <= i < r@.len() ==> #[trigger] r@[i] + FRAME_SIZE <= len,
{
    let mut r: Vec<usize> = Vec::new();
    if len < FRAME_SIZE {
        return r;
    }
    let last: usize = len - FRAME_SIZE;
    let mut pos: usize = 0;
    while pos <= last
        invariant
            last == len - FRAME_SIZE,
            len >= FRAME_SIZE,
            pos == r@.len() * HOP_SIZE,
            pos <= last + HOP_SIZE,
            forall|i: int| 0 <= i < r@.len() ==> #[trigger] r@[i] == i * HOP_SIZE,
            forall|i: int| 0 <= i < r@.len() ==> #[trigger] r@[i] + FRAME_SIZE <= len,
        decreases last + HOP_SIZE - pos,
    {
        r.push(pos);
        pos = pos + HOP_SIZE;
    }
    proof {
        let k = r@.len() as int;
        let hop = HOP_SIZE as int;
        assert(k >= 1);
        assert((k - 1) * hop <= last < k * hop);
        vstd::arithmetic::div_mod::lemma_fundamental_div_mod_converse(
            last as int,
            hop,
            k - 1,
            last - (k - 1) * hop,
        );
        assert(last as int / hop == k - 1);
    }
    r
}

/// How many frames the noise-profile estimator averages: the requested
/// number, unless fewer complete frames are available.
pub fn estimation_frame_count(len: usize, noise_frames: usize) -> (r: usize)
    ensures
        r == if full_frame_count(len as int) < noise_frames {
            full_frame_count(len as int)
        } else {
            noise_frames as int
        },
        len >= FRAME_SIZE && noise_frames >= 1 ==> r >= 1,
{
    let total = frame_count(len);
    if total < noise_frames {
        total
    } else {
        noise_frames
    }
}

} // verus!
