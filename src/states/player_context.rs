use vstd::prelude::*;

verus! {

/// The poses a player can take; each has its own bounding-box dimensions.
#[derive(Clone, Copy, Debug, PartialEq, Eq, Structural)]
pub enum PlayerPoses {
    Standing,
    FallFlying,
    Sleeping,
    Swimming,
    SpinAttack,
    Sneaking,
    LongJumping,
    Dying,
}

/// Number of entries in the pose dimension table.
pub const POSE_COUNT: usize = 8;

impl PlayerPoses {
    /// Row of the pose in the dimension table, in declaration order.
    pub open spec fn spec_index(self) -> nat {
        match self {
            PlayerPoses::Standing => 0,
            PlayerPoses::FallFlying => 1,
            PlayerPoses::Sleeping => 2,
            PlayerPoses::Swimming => 3,
            PlayerPoses::SpinAttack => 4,
            PlayerPoses::Sneaking => 5,
            PlayerPoses::LongJumping => 6,
            PlayerPoses::Dying => 7,
        }
    }

    /// Row of the pose in the dimension table.
    pub fn index(self) -> (r: usize)
        ensures
            r == self.spec_index(),
            r < POSE_COUNT,
    {
        match self {
            PlayerPoses::Standing => 0,
            PlayerPoses::FallFlying => 1,
            PlayerPoses::Sleeping => 2,
            PlayerPoses::Swimming => 3,
            PlayerPoses::SpinAttack => 4,
            PlayerPoses::Sneaking => 5,
            PlayerPoses::LongJumping => 6,
            PlayerPoses::Dying => 7,
        }
    }
}

impl Default for PlayerPoses {
    fn default() -> (r: Self)
        ensures
            r == PlayerPoses::Standing,
    {
        PlayerPoses::Standing
    }
}

/// The seven movement keys of an entity that uses controls.
#[derive(Clone, Copy, Debug, Default, PartialEq, Eq, Structural)]
pub struct ControlStateHandler {
    pub forward: bool,
    pub back: bool,
    pub left: bool,
    pub right: bool,
    pub jump: bool,
    pub sprint: bool,
    pub sneak: bool,
}

pub open spec fn key_value(pressed: bool) -> int {
    if pressed {
        1
    } else {
        0
    }
}

impl ControlStateHandler {
    /// Sideways input: `right - left`, each key counting one.
    pub fn strafe_direction(&self) -> (r: i8)
        ensures
            r == key_value(self.right) - key_value(self.left),
    {
        (self.right as i8) - (self.left as i8)
    }

    /// Forward input: `forward - back`, each key counting one.
    pub fn forward_direction(&self) -> (r: i8)
        ensures
            r == key_value(self.forward) - key_value(self.back),
    {
        (self.forward as i8) - (self.back as i8)
    }

    /// Sneaking and using an item both cancel sprinting; the other keys stay as they are.
    pub fn cancel_sprint_if_slowed(&mut self, is_using_item: bool)
        ensures
            final(self).sprint == (old(self).sprint && !old(self).sneak && !is_using_item),
            *final(self) == (ControlStateHandler { sprint: final(self).sprint, ..*old(self) }),
    {
        if self.sneak || is_using_item {
            self.sprint = false;
        }
    }
}

} // verus!
