use vstd::prelude::*;
use crate::teams::TeamType;

verus! {

/// A detector as a target sees it: its team and whether the target is within
/// its detection range.
#[derive(Clone, Copy, PartialEq, Eq, Structural, Debug)]
pub struct DetectorReading {
    pub entity: u64,
    pub team: TeamType,
    pub in_range: bool,
}

/// Whether `d` takes up the pursuit of `target` of team `team`: it is
/// another entity, of the other team, and has the target in range.
pub open spec fn pursues(d: DetectorReading, target: u64, team: TeamType) -> bool {
    d.entity != target && d.team != team && d.in_range
}

/// The detectors among `detectors` that take up the pursuit, in order.
pub open spec fn pursuers(detectors: Seq<DetectorReading>, target: u64, team: TeamType) -> Seq<u64>
    decreases detectors.len(),
{
    if detectors.len() == 0 {
        Seq::empty()
    } else {
        let earlier = pursuers(detectors.drop_last(), target, team);
        if pursues(detectors.last(), target, team) {
            earlier.push(detectors.last().entity)
        } else {
            earlier
        }
    }
}

/// The detectors that take up the pursuit of `target`, if any do; warriors
/// then attack it and priests convert it.
pub fn detect_target(target: u64, target_team: TeamType, detectors: &Vec<DetectorReading>) -> (found:
    Option<Vec<u64>>)
    ensures
        match found {
            Some(p) => p@ == pursuers(detectors@, target, target_team) && p@.len() > 0,
            None => pursuers(detectors@, target, target_team).len() == 0,
        },
{
    let mut chasing: Vec<u64> = Vec::new();
    for i in 0..detectors.len()
        invariant
            chasing@ == pursuers(detectors@.take(i as int), target, target_team),
    {
        let d = detectors[i];
        proof {
            assert(detectors@.take(i + 1).drop_last() =~= detectors@.take(i as int));
        }
        //  a detector never detects itself or its own team
        if d.entity != target && d.team != target_team && d.in_range {
            chasing.push(d.entity);
        }
    }
    proof {
        assert(detectors@.take(detectors@.len() as int) =~= detectors@);
    }
    if chasing.len() > 0 {
        Some(chasing)
    } else {
        None
    }
}

/// `entity` is a detector among `detectors` that takes up the pursuit.
pub open spec fn pursuing_detector(detectors: Seq<DetectorReading>, target: u64, team: TeamType, entity: u64) -> bool {
    exists|i: int| 0 <= i < detectors.len() && #[trigger] detectors[i].entity == entity && pursues(detectors[i], target, team)
}

/// Law: an entity never detects itself, never a member of its own team, and
/// never one out of its range: every pursuer is another detector of the
/// other team that has the target in range.
pub proof fn detectors_pursue_only_enemies_in_range(
    detectors: Seq<DetectorReading>,
    target: u64,
    team: TeamType,
)
    ensures
        forall|k: int|
            0 <= k < pursuers(detectors, target, team).len() ==> pursuing_detector(
                detectors,
                target,
                team,
                #[trigger] pursuers(detectors, target, team)[k],
            ),
    decreases detectors.len(),
{
    if detectors.len() > 0 {
        let rest = detectors.drop_last();
        detectors_pursue_only_enemies_in_range(rest, target, team);
        assert forall|k: int| 0 <= k < pursuers(detectors, target, team).len() implies pursuing_detector(
            detectors,
            target,
            team,
            #[trigger] pursuers(detectors, target, team)[k],
        ) by {
            if k < pursuers(rest, target, team).len() {
                assert(pursuers(detectors, target, team)[k] == pursuers(rest, target, team)[k]);
                assert(pursuing_detector(rest, target, team, pursuers(rest, target, team)[k]));
                let i = choose|i: int|
                    0 <= i < rest.len() && #[trigger] rest[i].entity == pursuers(rest, target, team)[k]
                        && pursues(rest[i], target, team);
                assert(detectors[i] == rest[i]);
            } else {
                let i = detectors.len() - 1;
                assert(detectors[i] == detectors.last());
                assert(detectors[i].entity == pursuers(detectors, target, team)[k]);
            }
        }
    }
}

/// Whether a detector is another entity than `target`, of another team than
/// `team`, with the target in range.
pub open spec fn enemy_in_range(target: u64, team: TeamType) -> spec_fn(DetectorReading) -> bool {
    |d: DetectorReading| d.entity != target && d.team != team && d.in_range
}

/// The entities of `detectors`, in order.
pub open spec fn detector_entities(detectors: Seq<DetectorReading>) -> Seq<u64> {
    detectors.map_values(|d: DetectorReading| d.entity)
}

proof fn lemma_pursuers_are_filter(detectors: Seq<DetectorReading>, target: u64, team: TeamType)
    ensures
        pursuers(detectors, target, team) == detector_entities(detectors.filter(enemy_in_range(target, team))),
    decreases detectors.len(),
{
    reveal(Seq::filter);
    if detectors.len() > 0 {
        let rest = detectors.drop_last();
        lemma_pursuers_are_filter(rest, target, team);
        let f = rest.filter(enemy_in_range(target, team));
        let d = detectors.last();
        assert(detector_entities(f.push(d)) =~= detector_entities(f).push(d.entity));
    }
}

/// Law: detection misses no one. The pursuers are exactly the detectors that
/// are other entities of the other team with the target in range, in the
/// order they come; every such detector takes up the pursuit, so a target
/// is found exactly when there is one.
pub proof fn every_enemy_in_range_pursues(detectors: Seq<DetectorReading>, target: u64, team: TeamType)
    ensures
        pursuers(detectors, target, team) == detector_entities(detectors.filter(enemy_in_range(target, team))),
        forall|j: int|
            0 <= j < detectors.len() && detectors[j].entity != target && detectors[j].team != team
                && detectors[j].in_range ==> pursuers(detectors, target, team).contains(
                #[trigger] detectors[j].entity,
            ),
        (pursuers(detectors, target, team).len() > 0) <==> (exists|j: int|
            0 <= j < detectors.len() && #[trigger] detectors[j].entity != target && detectors[j].team != team
                && detectors[j].in_range),
{
    lemma_pursuers_are_filter(detectors, target, team);
    let f = detectors.filter(enemy_in_range(target, team));
    assert forall|j: int|
        0 <= j < detectors.len() && detectors[j].entity != target && detectors[j].team != team
            && detectors[j].in_range implies pursuers(detectors, target, team).contains(
            #[trigger] detectors[j].entity,
        ) by {
        detectors.lemma_filter_contains(enemy_in_range(target, team), j);
        let k = choose|k: int| 0 <= k < f.len() && f[k] == detectors[j];
        assert(detector_entities(f)[k] == detectors[j].entity);
    }
    if f.len() > 0 {
        detectors.lemma_filter_pred(enemy_in_range(target, team), 0);
        detectors.lemma_filter_contains_rev(enemy_in_range(target, team), f[0]);
        let j = choose|j: int| 0 <= j < detectors.len() && detectors[j] == f[0];
        assert(detectors[j].entity != target);
    }
}

} // verus!
