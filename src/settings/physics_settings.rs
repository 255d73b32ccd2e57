use vstd::prelude::*;

verus! {

/// Ticks to wait before an entity that holds the jump key jumps again (half a second).
pub const AUTO_JUMP_COOLDOWN: u8 = 10;

/// Identifier of the movement-speed modifier that sprinting adds.
pub const SPRINTING_UUID: &'static str = "662a6b8d-da3e-4c1c-8813-96ea6097278d";

} // verus!
