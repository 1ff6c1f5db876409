use vstd::prelude::*;

verus! {

/// How a group of units arranges itself around a destination.
#[derive(Clone, Copy, PartialEq, Eq, Structural, Debug)]
pub enum Formation {
    Ringed,
    Line,
    Box,
}

impl Default for Formation {
    /// Units gather in a ring unless told otherwise.
    fn default() -> (formation: Self)
        ensures
            formation == Formation::Ringed,
    {
        Formation::Ringed
    }
}

} // verus!
