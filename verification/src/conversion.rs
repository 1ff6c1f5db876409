use vstd::prelude::*;

verus! {

/// What a priest does when its conversion cooldown has run out.
#[derive(Clone, Copy, PartialEq, Eq, Structural, Debug)]
pub enum ConversionStep {
    /// The prey is out of range: walk towards it.
    Chase,
    /// The prey is in range: work on its faith.
    Convert,
    /// The prey is gone: stop pursuing it.
    GiveUp,
}

/// Decides a priest's move once its cooldown has run out: a prey that is gone
/// ends the pursuit, one out of conversion range is chased, one in range is
/// converted. The cooldown restarts unless the priest gives up.
pub fn pursue_prey(prey_found: bool, out_of_range: bool) -> (step: ConversionStep)
    ensures
        step == (if !prey_found {
            ConversionStep::GiveUp
        } else if out_of_range {
            ConversionStep::Chase
        } else {
            ConversionStep::Convert
        }),
{
    if prey_found {
        if out_of_range {
            ConversionStep::Chase
        } else {
            ConversionStep::Convert
        }
    } else {
        ConversionStep::GiveUp
    }
}

} // verus!
