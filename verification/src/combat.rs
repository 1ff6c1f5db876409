use vstd::prelude::*;

verus! {

/// What a warrior is doing about its prey.
#[derive(Clone, Copy, PartialEq, Eq, Structural, Debug)]
pub enum CombatEngagement {
    Nothing,
    Pursuing { target: u64 },
    Attacking { target: u64 },
}

/// Warriors are set on a prey: every predator that is a warrior (has an
/// engagement) starts attacking the prey, as long as the prey still exists;
/// otherwise nothing changes.
pub fn assign_attackers(
    prey_exists: bool,
    prey: u64,
    engagements: &mut Vec<Option<CombatEngagement>>,
)
    ensures
        final(engagements)@.len() == old(engagements)@.len(),
        forall|i: int|
            0 <= i < old(engagements)@.len() ==> #[trigger] final(engagements)@[i] == (if prey_exists
                && old(engagements)@[i] is Some {
                Some(CombatEngagement::Attacking { target: prey })
            } else {
                old(engagements)@[i]
            }),
{
    if !prey_exists {
        return;
    }
    let n = engagements.len();
    for i in 0..n
        invariant
            n == old(engagements)@.len(),
            engagements@.len() == n,
            forall|j: int|
                0 <= j < i ==> #[trigger] engagements@[j] == (if old(engagements)@[j] is Some {
                    Some(CombatEngagement::Attacking { target: prey })
                } else {
                    old(engagements)@[j]
                }),
            forall|j: int| i <= j < n ==> #[trigger] engagements@[j] == old(engagements)@[j],
    {
        if engagements[i].is_some() {
            engagements.set(i, Some(CombatEngagement::Attacking { target: prey }));
        }
    }
}

/// Warriors are called off: every one of them that is a warrior stops
/// engaging.
pub fn break_attack_pursuit(engagements: &mut Vec<Option<CombatEngagement>>)
    ensures
        final(engagements)@.len() == old(engagements)@.len(),
        forall|i: int|
            0 <= i < old(engagements)@.len() ==> #[trigger] final(engagements)@[i] == (if old(
                engagements,
            )@[i] is Some {
                Some(CombatEngagement::Nothing)
            } else {
                None
            }),
{
    let n = engagements.len();
    for i in 0..n
        invariant
            n == old(engagements)@.len(),
            engagements@.len() == n,
            forall|j: int|
                0 <= j < i ==> #[trigger] engagements@[j] == (if old(engagements)@[j] is Some {
                    Some(CombatEngagement::Nothing)
                } else {
                    None
                }),
            forall|j: int| i <= j < n ==> #[trigger] engagements@[j] == old(engagements)@[j],
    {
        if engagements[i].is_some() {
            engagements.set(i, Some(CombatEngagement::Nothing));
        }
    }
}

/// One frame of a pursuit: a pursuing warrior whose prey is gone gives up;
/// one whose prey is out of attack range chases it (the returned target);
/// one within range starts attacking. Warriors doing anything else carry on.
/// `prey_found` and `out_of_range` describe the pursued prey.
pub fn pursue_prey(state: CombatEngagement, prey_found: bool, out_of_range: bool) -> (r: (
    CombatEngagement,
    Option<u64>,
))
    ensures
        r == pursue_prey_spec(state, prey_found, out_of_range),
{
    match state {
        CombatEngagement::Pursuing { target } => {
            if prey_found {
                if out_of_range {
                    (state, Some(target))
                } else {
                    (CombatEngagement::Attacking { target }, None)
                }
            } else {
                (CombatEngagement::Nothing, None)
            }
        },
        _ => (state, None),
    }
}

/// Law: a warrior only ever engages the prey it was set on: after a pursuit
/// frame it targets the same entity or nothing.
pub proof fn pursuit_keeps_its_prey(target: u64, prey_found: bool, out_of_range: bool)
    ensures
        ({
            let (next, chase) = pursue_prey_spec(CombatEngagement::Pursuing { target }, prey_found, out_of_range);
            &&& next == CombatEngagement::Nothing || next == (CombatEngagement::Pursuing { target })
                || next == (CombatEngagement::Attacking { target })
            &&& chase is Some ==> chase == Some(target)
        }),
{
}

/// The outcome of a pursuit frame, as `pursue_prey` computes it.
pub open spec fn pursue_prey_spec(state: CombatEngagement, prey_found: bool, out_of_range: bool) -> (
    CombatEngagement,
    Option<u64>,
) {
    match state {
        CombatEngagement::Pursuing { target } => if !prey_found {
            (CombatEngagement::Nothing, None)
        } else if out_of_range {
            (state, Some(target))
        } else {
            (CombatEngagement::Attacking { target }, None)
        },
        _ => (state, None),
    }
}

} // verus!
