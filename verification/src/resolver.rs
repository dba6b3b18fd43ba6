use vstd::prelude::*;

use crate::motion::{Motion, MOTION_BOUND};

verus! {

/// A playback-mode descriptor: how one animation state advances through the
/// sprite sheet, and what root motion each step implies.
#[derive(Clone, Debug)]
pub enum Frame {
    /// A half-open frame range `[start, end)` walked one frame at a time.
    /// The attached motion list is part of the authored data but is never
    /// consulted by the resolver, which always reports zero motion in this
    /// mode.
    Successive { start: usize, end: usize, root_motion: Vec<Motion> },
    /// An explicit ordered list of frame indices (not necessarily contiguous
    /// or ascending) with a parallel list of motion offsets, one per entry.
    Sequence { vec: Vec<usize>, root_motion: Vec<Motion> },
}

impl Frame {
    /// A descriptor is well formed when every motion offset is in bounds
    /// and, for `Sequence`, the two lists are non-empty and of equal length.
    pub open spec fn wf(self) -> bool {
        match self {
            Frame::Successive { start, end, root_motion } => forall|i: int|
                0 <= i < root_motion@.len() ==> root_motion@[i].wf(),
            Frame::Sequence { vec, root_motion } => {
                &&& vec@.len() == root_motion@.len()
                &&& vec@.len() >= 1
                &&& forall|i: int| 0 <= i < root_motion@.len() ==> root_motion@[i].wf()
            },
        }
    }

    /// Decide at load time whether this descriptor is well formed.
    pub fn check_wf(&self) -> (r: bool)
        ensures
            r == self.wf(),
    {
        match self {
            Frame::Successive { start: _, end: _, root_motion } => motions_wf(root_motion),
            Frame::Sequence { vec, root_motion } => {
                vec.len() == root_motion.len() && vec.len() >= 1 && motions_wf(root_motion)
            },
        }
    }

    /// The result of one resolver step: the sprite index to display, the
    /// root motion that frame implies, and the new intra-sequence cursor.
    ///
    /// `Successive` restarts from `start` (with zero motion) whenever the
    /// displayed index would leave the range `[start, end)` or has drifted
    /// below `start`; otherwise it shows the next index. The cursor is
    /// untouched in this mode.
    ///
    /// `Sequence` advances the cursor, wrapping to 0 past the end of the
    /// list, and reports the frame index and motion stored at the new
    /// cursor. The displayed index plays no part.
    pub open spec fn spec_next(self, current: usize, index: usize) -> (usize, Motion, usize) {
        match self {
            Frame::Successive { start, end, root_motion } => {
                let shown: usize = if current + 1 >= end || current < start {
                    start
                } else {
                    (current + 1) as usize
                };
                (shown, Motion::spec_zero(), index)
            },
            Frame::Sequence { vec, root_motion } => {
                let j: int = if index + 1 >= vec@.len() {
                    0
                } else {
                    index + 1
                };
                (vec@[j], root_motion@[j], j as usize)
            },
        }
    }

    /// Resolve one animation tick: given the sprite index currently shown
    /// and the intra-sequence cursor, produce the next sprite index and its
    /// root motion, updating the cursor in place.
    pub fn next(&self, current: usize, index: &mut usize) -> (r: (usize, Motion))
        requires
            self.wf(),
        ensures
            (r.0, r.1, *final(index)) == self.spec_next(current, *old(index)),
            r.1.wf(),
    {
        match self {
            Frame::Successive { start, end, root_motion: _ } => {
                if *end == 0 || current >= *end - 1 {
                    (*start, Motion::zero())
                } else if current < *start {
                    (*start, Motion::zero())
                } else {
                    (current + 1, Motion::zero())
                }
            },
            Frame::Sequence { vec, root_motion } => {
                if *index >= vec.len() - 1 {
                    *index = 0;
                } else {
                    *index = *index + 1;
                }
                (vec[*index], root_motion[*index])
            },
        }
    }
}

/// Whether every motion offset in a list is in bounds.
fn motions_wf(motions: &Vec<Motion>) -> (r: bool)
    ensures
        r == forall|i: int| 0 <= i < motions@.len() ==> motions@[i].wf(),
{
    let n = motions.len();
    for i in 0..n
        invariant
            n == motions@.len(),
            forall|k: int| 0 <= k < i ==> motions@[k].wf(),
    {
        let m = motions[i];
        if !(-MOTION_BOUND <= m.x && m.x <= MOTION_BOUND && -MOTION_BOUND <= m.y
            && m.y <= MOTION_BOUND) {
            return false;
        }
    }
    true
}

/// A `Sequence` descriptor of length 1 is idempotent under repeated
/// advance: whatever the displayed index and the cursor, every resolver
/// step returns the same frame and motion, and leaves the cursor at 0.
pub proof fn lemma_sequence_singleton_idempotent(
    f: Frame,
    current1: usize,
    index1: usize,
    current2: usize,
    index2: usize,
)
    requires
        f.wf(),
        f matches Frame::Sequence { vec, .. } && vec@.len() == 1,
    ensures
        f.spec_next(current1, index1) == f.spec_next(current2, index2),
        f.spec_next(current1, index1).2 == 0,
{
}

} // verus!
