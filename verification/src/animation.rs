use vstd::prelude::*;

use crate::resolver::Frame;

verus! {

/// Why a set of authored animation data was rejected at load time.
#[derive(Clone, Copy, PartialEq, Eq, Structural, Debug)]
pub enum LoadError {
    /// Some descriptor is malformed: a `Sequence` whose index and motion
    /// lists differ in length or are empty, or a motion offset out of
    /// bounds.
    InvalidDescriptor,
    /// Two entries share the same state name.
    DuplicateState,
}

/// The width and height of one sprite-sheet tile, in pixels.
#[derive(Clone, Copy, PartialEq, Eq, Structural, Debug)]
pub struct TileSize {
    pub width: u32,
    pub height: u32,
}

/// A loaded animation resource: a named, immutable set of animation
/// states, each mapping a state name to one playback-mode descriptor.
#[derive(Clone, Debug)]
pub struct AnimationData {
    pub name: String,
    pub texture: String,
    pub tile_size: TileSize,
    pub columns: usize,
    pub rows: usize,
    pub frames: Vec<(String, Frame)>,
}

impl AnimationData {
    /// No two entries share a state name.
    pub open spec fn keys_unique(frames: Seq<(String, Frame)>) -> bool {
        forall|i: int, j: int| 0 <= i < j < frames.len() ==> frames[i].0@ != frames[j].0@
    }

    /// Every descriptor is well formed.
    pub open spec fn frames_wf(frames: Seq<(String, Frame)>) -> bool {
        forall|i: int| 0 <= i < frames.len() ==> frames[i].1.wf()
    }

    pub open spec fn wf(self) -> bool {
        &&& Self::keys_unique(self.frames@)
        &&& Self::frames_wf(self.frames@)
    }

    /// Whether some entry carries the given state name.
    pub open spec fn has_state(self, k: Seq<char>) -> bool {
        exists|i: int| 0 <= i < self.frames@.len() && self.frames@[i].0@ == k
    }

    /// The position of the entry carrying the given state name.
    pub open spec fn key_index(self, k: Seq<char>) -> int {
        choose|i: int| 0 <= i < self.frames@.len() && self.frames@[i].0@ == k
    }

    /// The descriptor stored under the given state name.
    pub open spec fn state_frame(self, k: Seq<char>) -> Frame {
        self.frames@[self.key_index(k)].1
    }

    /// Build an animation set from authored data, rejecting it when some
    /// descriptor is malformed or two entries share a state name.
    pub fn new(
        name: String,
        texture: String,
        tile_size: TileSize,
        columns: usize,
        rows: usize,
        frames: Vec<(String, Frame)>,
    ) -> (r: Result<AnimationData, LoadError>)
        ensures
            r is Ok <==> Self::frames_wf(frames@) && Self::keys_unique(frames@),
            r == Err::<AnimationData, LoadError>(LoadError::InvalidDescriptor) <==> !Self::frames_wf(frames@),
            r == Err::<AnimationData, LoadError>(LoadError::DuplicateState) <==> Self::frames_wf(frames@)
                && !Self::keys_unique(frames@),
            r matches Ok(d) ==> d == (AnimationData { name, texture, tile_size, columns, rows, frames })
                && d.wf(),
    {
        let n = frames.len();
        for i in 0..n
            invariant
                n == frames@.len(),
                forall|k: int| 0 <= k < i ==> frames@[k].1.wf(),
        {
            if !frames[i].1.check_wf() {
                return Err(LoadError::InvalidDescriptor);
            }
        }
        for i in 0..n
            invariant
                n == frames@.len(),
                Self::frames_wf(frames@),
                forall|k: int, l: int| 0 <= k < l < frames@.len() && k < i ==> frames@[k].0@
                    != frames@[l].0@,
        {
            for j in (i + 1)..n
                invariant
                    n == frames@.len(),
                    i < n,
                    Self::frames_wf(frames@),
                    forall|k: int, l: int| 0 <= k < l < frames@.len() && k < i ==> frames@[k].0@
                        != frames@[l].0@,
                    forall|l: int| i < l < j ==> frames@[i as int].0@ != frames@[l].0@,
            {
                if frames[i].0 == frames[j].0 {
                    proof {
                        assert(frames@[i as int].0@ == frames@[j as int].0@);
                        assert(!Self::keys_unique(frames@));
                    }
                    return Err(LoadError::DuplicateState);
                }
            }
        }
        Ok(AnimationData { name, texture, tile_size, columns, rows, frames })
    }

    /// Look the descriptor for a state name up; `None` when the set holds
    /// no state of that name (a lookup miss, which callers treat as a
    /// benign no-op).
    pub fn get(&self, name: &String) -> (r: Option<&Frame>)
        requires
            self.wf(),
        ensures
            r is Some <==> self.has_state(name@),
            r matches Some(f) ==> *f == self.state_frame(name@),
    {
        let n = self.frames.len();
        for i in 0..n
            invariant
                n == self.frames@.len(),
                self.wf(),
                forall|k: int| 0 <= k < i ==> self.frames@[k].0@ != name@,
        {
            if self.frames[i].0 == *name {
                proof {
                    assert(self.frames@[i as int].0@ == name@);
                    assert(self.has_state(name@));
                    let j = self.key_index(name@);
                    assert(0 <= j < self.frames@.len() && self.frames@[j].0@ == name@);
                    assert(j == i);
                }
                return Some(&self.frames[i].1);
            }
        }
        None
    }
}

} // verus!
