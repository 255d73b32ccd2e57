use vstd::prelude::*;

verus! {

/// A simulator that carries no configuration of its own.
#[derive(Clone, Copy, Debug, Default, PartialEq, Eq, Structural)]
pub struct GenSimulator {}

} // verus!
