use vstd::prelude::*;

use crate::settings::physics_settings::AUTO_JUMP_COOLDOWN;

verus! {

/// What the jump input does this tick.
#[derive(Clone, Copy, Debug, PartialEq, Eq, Structural)]
pub enum JumpKind {
    /// No jump.
    Stay,
    /// The entity is in water or lava and is pushed up.
    Swim,
    /// The entity leaves the ground.
    Leap,
}

/// The jump bookkeeping of an entity: the cooldown before it may leave the ground
/// again, and whether a jump was requested outside the controls.
#[derive(Clone, Copy, Debug, PartialEq, Eq, Structural)]
pub struct JumpState {
    pub jump_ticks: u8,
    pub jump_queued: bool,
}

impl JumpState {
    /// One tick of the jump input. While jump is held (or queued) the cooldown counts
    /// down; in a liquid the entity swims up; on the ground with the cooldown at zero
    /// it leaps and the cooldown starts over. Releasing jump clears the cooldown.
    /// A queued jump is always consumed.
    pub open spec fn spec_tick(self, pressed: bool, in_liquid: bool, on_ground: bool) -> (JumpState, JumpKind) {
        if pressed || self.jump_queued {
            let t = if self.jump_ticks > 0 { (self.jump_ticks - 1) as u8 } else { 0u8 };
            if in_liquid {
                (JumpState { jump_ticks: t, jump_queued: false }, JumpKind::Swim)
            } else if on_ground && t == 0 {
                (JumpState { jump_ticks: AUTO_JUMP_COOLDOWN, jump_queued: false }, JumpKind::Leap)
            } else {
                (JumpState { jump_ticks: t, jump_queued: false }, JumpKind::Stay)
            }
        } else {
            (JumpState { jump_ticks: 0, jump_queued: false }, JumpKind::Stay)
        }
    }

    pub fn tick(&mut self, pressed: bool, in_liquid: bool, on_ground: bool) -> (r: JumpKind)
        ensures
            (*final(self), r) == old(self).spec_tick(pressed, in_liquid, on_ground),
    {
        let mut kind = JumpKind::Stay;
        if pressed || self.jump_queued {
            if self.jump_ticks > 0 {
                self.jump_ticks = self.jump_ticks - 1;
            }
            if in_liquid {
                kind = JumpKind::Swim;
            } else if on_ground && self.jump_ticks == 0 {
                self.jump_ticks = AUTO_JUMP_COOLDOWN;
                kind = JumpKind::Leap;
            }
        } else {
            self.jump_ticks = 0;
        }
        self.jump_queued = false;
        kind
    }
}

/// A leap needs the cooldown to have run out: from a cooldown above one the entity
/// cannot leave the ground this tick, and after a leap the cooldown is full.
pub proof fn lemma_leap_needs_cooldown(s: JumpState, pressed: bool, in_liquid: bool, on_ground: bool)
    ensures
        s.spec_tick(pressed, in_liquid, on_ground).1 == JumpKind::Leap ==> s.jump_ticks <= 1
            && s.spec_tick(pressed, in_liquid, on_ground).0.jump_ticks == AUTO_JUMP_COOLDOWN,
        s.spec_tick(pressed, in_liquid, on_ground).0.jump_ticks <= if s.jump_ticks
            > AUTO_JUMP_COOLDOWN {
            s.jump_ticks
        } else {
            AUTO_JUMP_COOLDOWN
        },
{
}

} // verus!
