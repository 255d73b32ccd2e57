use vstd::prelude::*;

verus! {

/// How an entity reacts to the blocks it runs into.
#[derive(Clone, Copy, Debug, PartialEq, Eq, Structural)]
pub struct CollisionBehavior {
    /// Whether block effects (slime, soul sand, ladders, ...) apply to the entity.
    pub block_effects: bool,
    /// Whether the entity keeps moving after it has collided with something.
    pub affected_after_collision: bool,
}

impl CollisionBehavior {
    pub fn new(block_effects: bool, affected_after_collision: bool) -> (r: Self)
        ensures
            r.block_effects == block_effects,
            r.affected_after_collision == affected_after_collision,
    {
        Self { block_effects, affected_after_collision }
    }

    /// Whether an entity with the given collision flags moves at all this tick.
    pub open spec fn spec_should_move(
        self,
        collided_horizontally: bool,
        collided_vertically: bool,
    ) -> bool {
        !((collided_horizontally || collided_vertically) && !self.affected_after_collision)
    }

    /// An entity that collided stops for good unless it is affected after collision.
    pub fn should_move_entity(&self, collided_horizontally: bool, collided_vertically: bool) -> (r:
        bool)
        ensures
            r == self.spec_should_move(collided_horizontally, collided_vertically),
    {
        !((collided_horizontally || collided_vertically) && !self.affected_after_collision)
    }
}

impl Default for CollisionBehavior {
    /// The behaviour of mobs and players: block effects apply and collisions do not stop them.
    fn default() -> (r: Self)
        ensures
            r.block_effects,
            r.affected_after_collision,
    {
        Self { block_effects: true, affected_after_collision: true }
    }
}

} // verus!
