use vstd::prelude::*;

use crate::animation::AnimationData;
use crate::motion::Pos;
use crate::selector::PlayerState;

verus! {

/// The per-entity playback cursor: the currently selected animation state
/// and the intra-sequence index used by `Sequence` descriptors.
#[derive(Clone, Copy, PartialEq, Eq, Structural, Debug)]
pub struct PlayerStateComponent {
    pub state: PlayerState,
    pub index: usize,
}

impl Default for PlayerStateComponent {
    /// A freshly spawned entity idles facing right, at the start of its
    /// sequence.
    fn default() -> (r: Self)
        ensures
            r.state == PlayerState::IdleRight,
            r.index == 0,
    {
        Self { state: PlayerState::IdleRight, index: 0 }
    }
}

/// A repeating per-entity timer with a fixed interval, in milliseconds.
#[derive(Clone, Copy, PartialEq, Eq, Structural, Debug)]
pub struct AnimationTimer {
    pub interval_ms: u32,
    pub elapsed_ms: u32,
}

impl AnimationTimer {
    /// The interval is positive and the accumulated time stays below it.
    pub open spec fn wf(self) -> bool {
        &&& self.interval_ms > 0
        &&& self.elapsed_ms < self.interval_ms
    }

    pub fn new(interval_ms: u32) -> (r: Self)
        requires
            interval_ms > 0,
        ensures
            r.wf(),
            r.interval_ms == interval_ms,
            r.elapsed_ms == 0,
    {
        Self { interval_ms, elapsed_ms: 0 }
    }

    /// Advance the timer by the elapsed time of this tick; the result says
    /// whether the interval just completed. On completion the remainder is
    /// kept, so a long tick does not drop accumulated time.
    pub fn tick(&mut self, delta_ms: u32) -> (finished: bool)
        requires
            old(self).wf(),
        ensures
            final(self).wf(),
            final(self).interval_ms == old(self).interval_ms,
            finished == (old(self).elapsed_ms + delta_ms >= old(self).interval_ms),
            final(self).elapsed_ms == (old(self).elapsed_ms + delta_ms) % (
            old(self).interval_ms as int),
    {
        let total: u64 = self.elapsed_ms as u64 + delta_ms as u64;
        let interval: u64 = self.interval_ms as u64;
        if total >= interval {
            let rest: u64 = total % interval;
            proof {
                assert(rest == (old(self).elapsed_ms + delta_ms) % (old(self).interval_ms as int));
                assert(rest < interval);
            }
            self.elapsed_ms = rest as u32;
            true
        } else {
            proof {
                assert(total as int % (interval as int) == total as int) by {
                    vstd::arithmetic::div_mod::lemma_small_mod(total as nat, interval as nat);
                }
            }
            self.elapsed_ms = total as u32;
            false
        }
    }
}

/// Drive one animation tick for an entity, mirroring the per-tick playback
/// step: advance the timer; when the interval completes, look the entity's
/// active state up in the animation set and, if it is present, resolve the
/// next frame, show it, and aim the pending-motion target at the entity's
/// position plus the frame's root motion. A lookup miss, or a tick on
/// which the timer did not complete, changes neither the shown frame, nor
/// the cursor, nor the target.
pub fn animate_sprite(
    data: &AnimationData,
    timer: &mut AnimationTimer,
    cursor: &mut PlayerStateComponent,
    sprite_index: &mut usize,
    target: &mut Pos,
    position: Pos,
    delta_ms: u32,
)
    requires
        data.wf(),
        old(timer).wf(),
        position.in_range(),
    ensures
        final(timer).wf(),
        final(timer).interval_ms == old(timer).interval_ms,
        final(timer).elapsed_ms == (old(timer).elapsed_ms + delta_ms) % (
        old(timer).interval_ms as int),
        final(cursor).state == old(cursor).state,
        ({
            let finished = old(timer).elapsed_ms + delta_ms >= old(timer).interval_ms;
            let key = old(cursor).state.spec_key();
            if finished && data.has_state(key) {
                let step = data.state_frame(key).spec_next(*old(sprite_index), old(cursor).index);
                &&& *final(sprite_index) == step.0
                &&& final(cursor).index == step.2
                &&& final(target).x == position.x + step.1.x
                &&& final(target).y == position.y + step.1.y
            } else {
                &&& *final(sprite_index) == *old(sprite_index)
                &&& final(cursor).index == old(cursor).index
                &&& *final(target) == *old(target)
            }
        }),
{
    let finished = timer.tick(delta_ms);
    if finished {
        let key = cursor.state.to_string();
        if let Some(frame) = data.get(&key) {
            proof {
                assert(data.state_frame(key@).wf());
            }
            let (next_index, root_motion) = frame.next(*sprite_index, &mut cursor.index);
            *sprite_index = next_index;
            *target = position.add_motion(root_motion);
        }
    }
}

} // verus!
