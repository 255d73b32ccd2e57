use vstd::prelude::*;

pub mod calc;
pub mod settings;
pub mod simulators;
pub mod states;

verus! {

/// Sum of two sizes; the caller guarantees that it fits.
pub fn add(left: usize, right: usize) -> (r: usize)
    requires
        left + right <= usize::MAX,
    ensures
        r == left + right,
{
    left + right
}

} // verus!
