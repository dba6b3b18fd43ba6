use vstd::prelude::*;

verus! {

/// Largest magnitude a root-motion component may have, in milli-pixels.
/// Keeping motions within this bound lets a target position be computed
/// from any in-range entity position without overflow.
pub const MOTION_BOUND: i64 = 0x8000_0000;

/// Largest magnitude an entity position component may have, in milli-pixels.
pub const POS_BOUND: i64 = 0x7FFF_FFFF_0000_0000;

/// A 2D root-motion offset, in milli-pixels.
#[derive(Clone, Copy, PartialEq, Eq, Structural, Debug)]
pub struct Motion {
    pub x: i64,
    pub y: i64,
}

impl Motion {
    /// A motion is well formed when both components are within `MOTION_BOUND`.
    pub open spec fn wf(self) -> bool {
        &&& -MOTION_BOUND <= self.x <= MOTION_BOUND
        &&& -MOTION_BOUND <= self.y <= MOTION_BOUND
    }

    pub open spec fn spec_zero() -> Motion {
        Motion { x: 0, y: 0 }
    }

    /// The zero offset: a frame that implies no root motion.
    pub fn zero() -> (r: Motion)
        ensures
            r == Motion::spec_zero(),
            r.wf(),
    {
        Motion { x: 0, y: 0 }
    }
}

/// An absolute 2D position, in milli-pixels.
#[derive(Clone, Copy, PartialEq, Eq, Structural, Debug)]
pub struct Pos {
    pub x: i64,
    pub y: i64,
}

impl Pos {
    /// A position is in range when both components are within `POS_BOUND`,
    /// so that adding any well-formed motion cannot overflow.
    pub open spec fn in_range(self) -> bool {
        &&& -POS_BOUND <= self.x <= POS_BOUND
        &&& -POS_BOUND <= self.y <= POS_BOUND
    }

    /// The absolute target implied by this position and a root-motion offset.
    pub fn add_motion(self, m: Motion) -> (r: Pos)
        requires
            self.in_range(),
            m.wf(),
        ensures
            r.x == self.x + m.x,
            r.y == self.y + m.y,
    {
        Pos { x: self.x + m.x, y: self.y + m.y }
    }
}

} // verus!
