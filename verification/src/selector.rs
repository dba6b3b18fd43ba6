use vstd::prelude::*;

verus! {

/// The animation state an entity is in, chosen from its movement intent.
#[derive(Clone, Copy, PartialEq, Eq, Structural, Debug)]
pub enum PlayerState {
    IdleLeft,
    IdleRight,
    WalkLeft,
    WalkRight,
}

/// An externally supplied movement intent, in milli-pixels per second.
/// Only the sign of the horizontal component drives state selection.
#[derive(Clone, Copy, PartialEq, Eq, Structural, Debug)]
pub struct Intent {
    pub x: i64,
    pub y: i64,
}

impl PlayerState {
    /// The transition rules, evaluated once per tick:
    /// with no intent a walking state decays to the idle state of the same
    /// side and an idle state stays; with an intent the horizontal sign
    /// picks the walking side, and a sign of exactly zero changes nothing.
    pub open spec fn spec_selected(self, intent: Option<Intent>) -> PlayerState {
        match intent {
            None => match self {
                PlayerState::WalkLeft => PlayerState::IdleLeft,
                PlayerState::WalkRight => PlayerState::IdleRight,
                _ => self,
            },
            Some(v) => if v.x > 0 {
                PlayerState::WalkRight
            } else if v.x < 0 {
                PlayerState::WalkLeft
            } else {
                self
            },
        }
    }

    /// Select the next animation state from this tick's movement intent.
    pub fn select(self, intent: Option<Intent>) -> (r: PlayerState)
        ensures
            r == self.spec_selected(intent),
    {
        match intent {
            None => match self {
                PlayerState::WalkLeft => PlayerState::IdleLeft,
                PlayerState::WalkRight => PlayerState::IdleRight,
                _ => self,
            },
            Some(v) => if v.x > 0 {
                PlayerState::WalkRight
            } else if v.x < 0 {
                PlayerState::WalkLeft
            } else {
                self
            },
        }
    }

    /// The string key under which the animation set stores this state's
    /// descriptor.
    pub open spec fn spec_key(self) -> Seq<char> {
        match self {
            PlayerState::IdleLeft => "idle-left"@,
            PlayerState::IdleRight => "idle-right"@,
            PlayerState::WalkLeft => "walk-left"@,
            PlayerState::WalkRight => "walk-right"@,
        }
    }

    /// The lookup key for this state.
    pub fn to_string(&self) -> (r: String)
        ensures
            r@ == self.spec_key(),
    {
        match self {
            PlayerState::IdleLeft => "idle-left".to_owned(),
            PlayerState::IdleRight => "idle-right".to_owned(),
            PlayerState::WalkLeft => "walk-left".to_owned(),
            PlayerState::WalkRight => "walk-right".to_owned(),
        }
    }
}

/// A state other than `WalkLeft` becomes `WalkLeft` only on an intent with
/// a strictly negative horizontal component: no transition into `WalkLeft`
/// bypasses the intent check.
pub proof fn lemma_walk_left_needs_negative_intent(s: PlayerState, intent: Option<Intent>)
    requires
        s != PlayerState::WalkLeft,
    ensures
        s.spec_selected(intent) == PlayerState::WalkLeft ==> (intent matches Some(v) && v.x < 0),
{
}

} // verus!
