use vstd::prelude::*;
use crate::teams::{TeamBasedValues, TeamType};

verus! {

/// What the player currently has selected, which decides what clicks do and
/// which panel the interface shows.
#[derive(Clone, Copy, PartialEq, Eq, Structural, Debug)]
pub enum SelectionType {
    Nothing,
    Unit,
    Worker,
    Priest,
    Warrior,
    Construction,
    Generator,
    Producer,
}

/// The selection state of `team` changed to `new_type`.
#[derive(Clone, Copy, PartialEq, Eq, Structural, Debug)]
pub struct SelectionStateChanged {
    pub new_type: SelectionType,
    pub team: TeamType,
}

/// An entity that a box selection may pick up: its team, and whether the box
/// holds its centre or it holds the box's centre.
#[derive(Clone, Copy, PartialEq, Eq, Structural, Debug)]
pub struct SelectionCandidate {
    pub entity: u64,
    pub team: TeamType,
    pub hit: bool,
}

/// A box selection made by `team`, with the units and the structures it was
/// tested against.
pub struct BoxSelection {
    pub team: TeamType,
    pub units: Vec<SelectionCandidate>,
    pub structures: Vec<SelectionCandidate>,
}

/// What a box selection leads to.
#[derive(Clone, Copy, PartialEq, Eq, Structural, Debug)]
pub enum SelectionSignal {
    /// Units of the team were selected.
    UnitsSelected(TeamType),
    /// Structures of the team were selected.
    StructuresSelected(TeamType),
    /// Nothing was selected.
    Changed(SelectionStateChanged),
}

/// The entities among `candidates` of `team` that the box hit, in order.
pub open spec fn picked(candidates: Seq<SelectionCandidate>, team: TeamType) -> Seq<u64>
    decreases candidates.len(),
{
    if candidates.len() == 0 {
        Seq::empty()
    } else {
        let earlier = picked(candidates.drop_last(), team);
        let c = candidates.last();
        if c.team == team && c.hit {
            earlier.push(c.entity)
        } else {
            earlier
        }
    }
}

/// The entities of `team` that the box hit.
fn pick(candidates: &Vec<SelectionCandidate>, team: TeamType) -> (entities: Vec<u64>)
    ensures
        entities@ == picked(candidates@, team),
{
    let mut entities: Vec<u64> = Vec::new();
    for i in 0..candidates.len()
        invariant
            entities@ == picked(candidates@.take(i as int), team),
    {
        let c = candidates[i];
        proof {
            assert(candidates@.take(i + 1).drop_last() =~= candidates@.take(i as int));
        }
        if c.team == team && c.hit {
            entities.push(c.entity);
        }
    }
    proof {
        assert(candidates@.take(candidates@.len() as int) =~= candidates@);
    }
    entities
}

/// Replaces the values of `team` by `values`, leaving the other team alone.
fn replace_team_values(selected: &mut TeamBasedValues<u64>, team: TeamType, values: Vec<u64>)
    ensures
        final(selected).values(team) == values@,
        forall|other: TeamType|
            other != team ==> #[trigger] final(selected).values(other) == old(selected).values(other),
{
    match team {
        TeamType::Human => selected.human = values,
        TeamType::CPU => selected.cpu = values,
    }
}

/// The selection of `team` after a box selection: the hit units of the team
/// if there are any, else the hit structures of the team.
pub struct SelectionOutcome {
    pub units: Seq<u64>,
    pub structures: Seq<u64>,
    pub signal: SelectionSignal,
}

/// A box selection of `team` selects the team's units it hit; only when it
/// hit none does it select the team's structures it hit, and when it hit none
/// of those either, the selection becomes empty.
pub open spec fn select_once(
    team: TeamType,
    units: Seq<SelectionCandidate>,
    structures: Seq<SelectionCandidate>,
) -> SelectionOutcome {
    let u = picked(units, team);
    if u.len() > 0 {
        SelectionOutcome { units: u, structures: Seq::empty(), signal: SelectionSignal::UnitsSelected(team) }
    } else {
        let s = picked(structures, team);
        SelectionOutcome {
            units: Seq::empty(),
            structures: s,
            signal: if s.len() > 0 {
                SelectionSignal::StructuresSelected(team)
            } else {
                SelectionSignal::Changed(
                    SelectionStateChanged { new_type: SelectionType::Nothing, team },
                )
            },
        }
    }
}

/// Applies one box selection: the selections of its team are replaced, the
/// other team's are kept; when nothing is selected the producer panel closes.
pub fn select_entity_box(
    selection: &BoxSelection,
    selected_units: &mut TeamBasedValues<u64>,
    selected_structures: &mut TeamBasedValues<u64>,
    producer_selected: &mut bool,
) -> (signal: SelectionSignal)
    ensures
        ({
            let o = select_once(selection.team, selection.units@, selection.structures@);
            &&& signal == o.signal
            &&& final(selected_units).values(selection.team) == o.units
            &&& final(selected_structures).values(selection.team) == o.structures
            &&& *final(producer_selected) == (if o.signal is Changed {
                false
            } else {
                *old(producer_selected)
            })
        }),
        forall|other: TeamType|
            other != selection.team ==> #[trigger] final(selected_units).values(other) == old(
                selected_units,
            ).values(other) && final(selected_structures).values(other) == old(
                selected_structures,
            ).values(other),
{
    let team = selection.team;
    let units = pick(&selection.units, team);
    if units.len() > 0 {
        replace_team_values(selected_units, team, units);
        replace_team_values(selected_structures, team, Vec::new());
        return SelectionSignal::UnitsSelected(team);
    }
    replace_team_values(selected_units, team, Vec::new());
    let structures = pick(&selection.structures, team);
    let found = structures.len() > 0;
    replace_team_values(selected_structures, team, structures);
    if found {
        SelectionSignal::StructuresSelected(team)
    } else {
        *producer_selected = false;
        SelectionSignal::Changed(SelectionStateChanged { new_type: SelectionType::Nothing, team })
    }
}

/// The units `team` has selected after the first `n` of `selections`, having
/// started with `before`: the last of them made by `team` decides.
pub open spec fn units_after(selections: Seq<BoxSelection>, n: nat, team: TeamType, before: Seq<u64>) -> Seq<u64>
    decreases n,
{
    if n == 0 {
        before
    } else {
        let s = selections[n - 1];
        if s.team == team {
            select_once(s.team, s.units@, s.structures@).units
        } else {
            units_after(selections, (n - 1) as nat, team, before)
        }
    }
}

/// The structures `team` has selected after the first `n` of `selections`,
/// having started with `before`.
pub open spec fn structures_after(
    selections: Seq<BoxSelection>,
    n: nat,
    team: TeamType,
    before: Seq<u64>,
) -> Seq<u64>
    decreases n,
{
    if n == 0 {
        before
    } else {
        let s = selections[n - 1];
        if s.team == team {
            select_once(s.team, s.units@, s.structures@).structures
        } else {
            structures_after(selections, (n - 1) as nat, team, before)
        }
    }
}

/// Whether the producer panel is still selected after the first `n` of
/// `selections`: any of them that selects nothing unselects it.
pub open spec fn producer_after(selections: Seq<BoxSelection>, n: nat, before: bool) -> bool
    decreases n,
{
    if n == 0 {
        before
    } else {
        let s = selections[n - 1];
        if select_once(s.team, s.units@, s.structures@).signal is Changed {
            false
        } else {
            producer_after(selections, (n - 1) as nat, before)
        }
    }
}

/// Applies the box selections made in one frame, in order, and stops at the
/// first one that selects units: later selections of the same frame are
/// dropped. Returns what each applied selection led to.
pub fn select_entities(
    selections: &Vec<BoxSelection>,
    selected_units: &mut TeamBasedValues<u64>,
    selected_structures: &mut TeamBasedValues<u64>,
    producer_selected: &mut bool,
) -> (signals: Vec<SelectionSignal>)
    ensures
        signals@.len() <= selections@.len(),
        forall|k: int|
            0 <= k < signals@.len() ==> #[trigger] signals@[k] == select_once(
                selections@[k].team,
                selections@[k].units@,
                selections@[k].structures@,
            ).signal,
        forall|k: int| 0 <= k < signals@.len() - 1 ==> !(#[trigger] signals@[k] is UnitsSelected),
        signals@.len() < selections@.len() ==> signals@.len() > 0 && signals@.last() is UnitsSelected,
        forall|team: TeamType|
            #[trigger] final(selected_units).values(team) == units_after(
                selections@,
                signals@.len(),
                team,
                old(selected_units).values(team),
            ) && final(selected_structures).values(team) == structures_after(
                selections@,
                signals@.len(),
                team,
                old(selected_structures).values(team),
            ),
        *final(producer_selected) == producer_after(selections@, signals@.len(), *old(producer_selected)),
{
    let mut signals: Vec<SelectionSignal> = Vec::new();
    for i in 0..selections.len()
        invariant
            signals@.len() == i,
            forall|team: TeamType|
                #[trigger] selected_units.values(team) == units_after(
                    selections@,
                    i as nat,
                    team,
                    old(selected_units).values(team),
                ) && selected_structures.values(team) == structures_after(
                    selections@,
                    i as nat,
                    team,
                    old(selected_structures).values(team),
                ),
            *producer_selected == producer_after(selections@, i as nat, *old(producer_selected)),
            forall|k: int|
                0 <= k < i ==> #[trigger] signals@[k] == select_once(
                    selections@[k].team,
                    selections@[k].units@,
                    selections@[k].structures@,
                ).signal,
            forall|k: int| 0 <= k < i ==> !(#[trigger] signals@[k] is UnitsSelected),
    {
        let ghost units_before = *selected_units;
        let ghost structures_before = *selected_structures;
        let signal = select_entity_box(
            &selections[i],
            selected_units,
            selected_structures,
            producer_selected,
        );
        proof {
            let s = selections@[i as int];
            assert forall|team: TeamType|
                #[trigger] selected_units.values(team) == units_after(
                    selections@,
                    (i + 1) as nat,
                    team,
                    old(selected_units).values(team),
                ) && selected_structures.values(team) == structures_after(
                    selections@,
                    (i + 1) as nat,
                    team,
                    old(selected_structures).values(team),
                ) by {
                assert(units_before.values(team) == units_after(
                    selections@,
                    i as nat,
                    team,
                    old(selected_units).values(team),
                ));
                assert(structures_before.values(team) == structures_after(
                    selections@,
                    i as nat,
                    team,
                    old(selected_structures).values(team),
                ));
                if team != s.team {
                    assert(selected_units.values(team) == units_before.values(team));
                    assert(selected_structures.values(team) == structures_before.values(team));
                } else {
                    assert(selected_units.values(team) == select_once(s.team, s.units@, s.structures@).units);
                    assert(selected_structures.values(team) == select_once(
                        s.team,
                        s.units@,
                        s.structures@,
                    ).structures);
                }
            }
        }
        signals.push(signal);
        if let SelectionSignal::UnitsSelected(_) = signal {
            return signals;
        }
    }
    signals
}

/// Law: a box selection never selects units and structures at once.
pub proof fn never_units_and_structures(
    team: TeamType,
    units: Seq<SelectionCandidate>,
    structures: Seq<SelectionCandidate>,
)
    ensures
        select_once(team, units, structures).units.len() == 0 || select_once(
            team,
            units,
            structures,
        ).structures.len() == 0,
{
}

/// `entity` is one of `candidates`, belongs to `team` and was hit.
pub open spec fn hit_member(candidates: Seq<SelectionCandidate>, team: TeamType, entity: u64) -> bool {
    exists|i: int|
        0 <= i < candidates.len() && #[trigger] candidates[i].entity == entity && candidates[i].team
            == team && candidates[i].hit
}

proof fn lemma_picked_members(candidates: Seq<SelectionCandidate>, team: TeamType)
    ensures
        forall|k: int|
            0 <= k < picked(candidates, team).len() ==> hit_member(
                candidates,
                team,
                #[trigger] picked(candidates, team)[k],
            ),
    decreases candidates.len(),
{
    if candidates.len() > 0 {
        let rest = candidates.drop_last();
        lemma_picked_members(rest, team);
        assert forall|k: int| 0 <= k < picked(candidates, team).len() implies hit_member(
            candidates,
            team,
            #[trigger] picked(candidates, team)[k],
        ) by {
            if k < picked(rest, team).len() {
                assert(picked(candidates, team)[k] == picked(rest, team)[k]);
                assert(hit_member(rest, team, picked(rest, team)[k]));
                let i = choose|i: int|
                    0 <= i < rest.len() && #[trigger] rest[i].entity == picked(rest, team)[k]
                        && rest[i].team == team && rest[i].hit;
                assert(candidates[i] == rest[i]);
            } else {
                let i = candidates.len() - 1;
                assert(candidates[i] == candidates.last());
                assert(candidates[i].entity == picked(candidates, team)[k]);
            }
        }
    }
}

/// Law: a box selection only ever selects entities of the team that drew it,
/// and only ones it hit.
pub proof fn selects_only_own_hits(
    team: TeamType,
    units: Seq<SelectionCandidate>,
    structures: Seq<SelectionCandidate>,
)
    ensures
        forall|k: int|
            0 <= k < select_once(team, units, structures).units.len() ==> hit_member(
                units,
                team,
                #[trigger] select_once(team, units, structures).units[k],
            ),
        forall|k: int|
            0 <= k < select_once(team, units, structures).structures.len() ==> hit_member(
                structures,
                team,
                #[trigger] select_once(team, units, structures).structures[k],
            ),
{
    lemma_picked_members(units, team);
    lemma_picked_members(structures, team);
}

/// Whether a candidate belongs to `team` and was hit by the box.
pub open spec fn own_hit(team: TeamType) -> spec_fn(SelectionCandidate) -> bool {
    |c: SelectionCandidate| c.team == team && c.hit
}

/// The entities of `candidates`, in order.
pub open spec fn candidate_entities(candidates: Seq<SelectionCandidate>) -> Seq<u64> {
    candidates.map_values(|c: SelectionCandidate| c.entity)
}

proof fn lemma_picked_is_filter(candidates: Seq<SelectionCandidate>, team: TeamType)
    ensures
        picked(candidates, team) == candidate_entities(candidates.filter(own_hit(team))),
    decreases candidates.len(),
{
    reveal(Seq::filter);
    if candidates.len() > 0 {
        let rest = candidates.drop_last();
        lemma_picked_is_filter(rest, team);
        let f = rest.filter(own_hit(team));
        let c = candidates.last();
        assert(candidate_entities(f.push(c)) =~= candidate_entities(f).push(c.entity));
    }
}

proof fn lemma_own_hits_found(candidates: Seq<SelectionCandidate>, team: TeamType)
    ensures
        forall|j: int|
            0 <= j < candidates.len() && candidates[j].team == team && candidates[j].hit
                ==> candidate_entities(candidates.filter(own_hit(team))).contains(#[trigger] candidates[j].entity),
        (forall|j: int| 0 <= j < candidates.len() ==> !(#[trigger] candidates[j].team == team && candidates[j].hit))
            ==> candidates.filter(own_hit(team)).len() == 0,
{
    let f = candidates.filter(own_hit(team));
    assert forall|j: int|
        0 <= j < candidates.len() && candidates[j].team == team && candidates[j].hit
            implies candidate_entities(f).contains(#[trigger] candidates[j].entity) by {
        candidates.lemma_filter_contains(own_hit(team), j);
        let k = choose|k: int| 0 <= k < f.len() && f[k] == candidates[j];
        assert(candidate_entities(f)[k] == candidates[j].entity);
    }
    if (forall|j: int| 0 <= j < candidates.len() ==> !(#[trigger] candidates[j].team == team && candidates[j].hit))
        && f.len() > 0 {
        candidates.lemma_filter_pred(own_hit(team), 0);
        candidates.lemma_filter_contains_rev(own_hit(team), f[0]);
        let j = choose|j: int| 0 <= j < candidates.len() && candidates[j] == f[0];
        assert(!(candidates[j].team == team && candidates[j].hit));
    }
}

/// Law: a box selection selects every entity of its team that it hit, in the
/// order they come: the selected units are exactly the team's hit units; only
/// when it hit none of them are the selected structures exactly the team's
/// hit structures, and otherwise no structure is selected.
pub proof fn box_selects_every_own_hit(
    team: TeamType,
    units: Seq<SelectionCandidate>,
    structures: Seq<SelectionCandidate>,
)
    ensures
        select_once(team, units, structures).units == candidate_entities(units.filter(own_hit(team))),
        select_once(team, units, structures).structures == (if units.filter(own_hit(team)).len() == 0 {
            candidate_entities(structures.filter(own_hit(team)))
        } else {
            Seq::<u64>::empty()
        }),
        forall|j: int|
            0 <= j < units.len() && units[j].team == team && units[j].hit ==> {
                &&& select_once(team, units, structures).units.contains(#[trigger] units[j].entity)
                &&& select_once(team, units, structures).signal == SelectionSignal::UnitsSelected(team)
            },
        (forall|j: int| 0 <= j < units.len() ==> !(#[trigger] units[j].team == team && units[j].hit))
            ==> forall|j: int|
            0 <= j < structures.len() && structures[j].team == team && structures[j].hit ==> {
                &&& select_once(team, units, structures).structures.contains(#[trigger] structures[j].entity)
                &&& select_once(team, units, structures).signal == SelectionSignal::StructuresSelected(team)
            },
{
    lemma_picked_is_filter(units, team);
    lemma_picked_is_filter(structures, team);
    lemma_own_hits_found(units, team);
    lemma_own_hits_found(structures, team);
}

/// What kind of unit a selected entity is.
#[derive(Clone, Copy, PartialEq, Eq, Structural, Debug)]
pub struct UnitKinds {
    pub is_worker: bool,
    pub is_priest: bool,
    pub is_warrior: bool,
}

/// Folding one more unit into the kind of a selection: a first kind sets the
/// type; a kind different from the type makes the selection mixed (`None`).
/// A unit's kinds are tried in the order worker, priest, warrior, and the
/// first that sets the type ends the unit.
pub open spec fn unit_kind_step(t: SelectionType, k: UnitKinds) -> Option<SelectionType> {
    if k.is_worker && t == SelectionType::Nothing {
        Some(SelectionType::Worker)
    } else if k.is_worker && t != SelectionType::Worker {
        None
    } else if k.is_priest && t == SelectionType::Nothing {
        Some(SelectionType::Priest)
    } else if k.is_priest && t != SelectionType::Priest {
        None
    } else if k.is_warrior && t == SelectionType::Nothing {
        Some(SelectionType::Warrior)
    } else if k.is_warrior && t != SelectionType::Warrior {
        None
    } else {
        Some(t)
    }
}

/// The kind of the first `n` selected units, or `None` once they are mixed.
pub open spec fn unit_kind_fold(kinds: Seq<UnitKinds>, n: nat) -> Option<SelectionType>
    decreases n,
{
    if n == 0 {
        Some(SelectionType::Nothing)
    } else {
        match unit_kind_fold(kinds, (n - 1) as nat) {
            Some(t) => unit_kind_step(t, kinds[n - 1]),
            None => None,
        }
    }
}

/// The selection state for a selection of units: their common kind, or
/// `Unit` when they are of mixed kinds.
pub open spec fn unit_selection_type(kinds: Seq<UnitKinds>) -> SelectionType {
    match unit_kind_fold(kinds, kinds.len()) {
        Some(t) => t,
        None => SelectionType::Unit,
    }
}

/// Units of `team` were selected: the selection state becomes their common
/// kind, or `Unit` when they are of mixed kinds.
pub fn set_selected_unit_type(team: TeamType, kinds: &Vec<UnitKinds>) -> (change:
    SelectionStateChanged)
    ensures
        change == (SelectionStateChanged { new_type: unit_selection_type(kinds@), team }),
{
    let mut selected_type = SelectionType::Nothing;
    let mut mismatched_types = false;
    let n = kinds.len();
    let mut i: usize = 0;
    while i < n
        invariant_except_break
            i <= n,
            n == kinds@.len(),
            !mismatched_types,
            unit_kind_fold(kinds@, i as nat) == Some(selected_type),
        ensures
            mismatched_types ==> unit_kind_fold(kinds@, n as nat) is None,
            !mismatched_types ==> unit_kind_fold(kinds@, n as nat) == Some(selected_type),
        decreases n - i,
    {
        let k = kinds[i];
        proof {
            lemma_mixed_stays_mixed(kinds@, (i + 1) as nat, n as nat);
        }
        if k.is_worker {
            if selected_type == SelectionType::Nothing {
                selected_type = SelectionType::Worker;
                i = i + 1;
                continue;
            } else if selected_type != SelectionType::Worker {
                mismatched_types = true;
                break;
            }
        }
        if k.is_priest {
            if selected_type == SelectionType::Nothing {
                selected_type = SelectionType::Priest;
                i = i + 1;
                continue;
            } else if selected_type != SelectionType::Priest {
                mismatched_types = true;
                break;
            }
        }
        if k.is_warrior {
            if selected_type == SelectionType::Nothing {
                selected_type = SelectionType::Warrior;
                i = i + 1;
                continue;
            } else if selected_type != SelectionType::Warrior {
                mismatched_types = true;
                break;
            }
        }
        i = i + 1;
    }
    if mismatched_types {
        SelectionStateChanged { new_type: SelectionType::Unit, team }
    } else {
        SelectionStateChanged { new_type: selected_type, team }
    }
}

proof fn lemma_mixed_stays_mixed(kinds: Seq<UnitKinds>, i: nat, n: nat)
    requires
        i <= n,
    ensures
        unit_kind_fold(kinds, i) is None ==> unit_kind_fold(kinds, n) is None,
    decreases n - i,
{
    if i < n {
        lemma_mixed_stays_mixed(kinds, i, (n - 1) as nat);
    }
}

/// Law: units that are all of one single kind are shown as that kind.
pub proof fn single_kind_selection(kinds: Seq<UnitKinds>, kind: UnitKinds)
    requires
        kinds.len() > 0,
        forall|i: int| 0 <= i < kinds.len() ==> kinds[i] == kind,
        kind == (UnitKinds { is_worker: true, is_priest: false, is_warrior: false })
            || kind == (UnitKinds { is_worker: false, is_priest: true, is_warrior: false })
            || kind == (UnitKinds { is_worker: false, is_priest: false, is_warrior: true }),
    ensures
        unit_selection_type(kinds) == (if kind.is_worker {
            SelectionType::Worker
        } else if kind.is_priest {
            SelectionType::Priest
        } else {
            SelectionType::Warrior
        }),
{
    let t = if kind.is_worker {
        SelectionType::Worker
    } else if kind.is_priest {
        SelectionType::Priest
    } else {
        SelectionType::Warrior
    };
    assert forall|m: nat| 1 <= m <= kinds.len() implies unit_kind_fold(kinds, m) == Some(t) by {
        lemma_single_kind_fold(kinds, kind, t, m);
    }
}

proof fn lemma_single_kind_fold(kinds: Seq<UnitKinds>, kind: UnitKinds, t: SelectionType, m: nat)
    requires
        1 <= m <= kinds.len(),
        forall|i: int| 0 <= i < kinds.len() ==> kinds[i] == kind,
        unit_kind_step(SelectionType::Nothing, kind) == Some(t),
        unit_kind_step(t, kind) == Some(t),
    ensures
        unit_kind_fold(kinds, m) == Some(t),
    decreases m,
{
    assert(kinds[m - 1] == kind);
    if m > 1 {
        lemma_single_kind_fold(kinds, kind, t, (m - 1) as nat);
    } else {
        assert(unit_kind_fold(kinds, 0) == Some(SelectionType::Nothing));
    }
}

/// A unit of exactly one kind.
pub open spec fn single_kind(k: UnitKinds) -> bool {
    k == (UnitKinds { is_worker: true, is_priest: false, is_warrior: false })
        || k == (UnitKinds { is_worker: false, is_priest: true, is_warrior: false })
        || k == (UnitKinds { is_worker: false, is_priest: false, is_warrior: true })
}

/// The selection type of a unit of exactly one kind.
pub open spec fn kind_type(k: UnitKinds) -> SelectionType {
    if k.is_worker {
        SelectionType::Worker
    } else if k.is_priest {
        SelectionType::Priest
    } else {
        SelectionType::Warrior
    }
}

proof fn lemma_after_single_kind(kinds: Seq<UnitKinds>, i: int, m: nat)
    requires
        0 <= i < m <= kinds.len(),
        single_kind(kinds[i]),
    ensures
        unit_kind_fold(kinds, m) is None || unit_kind_fold(kinds, m) == Some(kind_type(kinds[i])),
    decreases m,
{
    if m > i + 1 {
        lemma_after_single_kind(kinds, i, (m - 1) as nat);
    }
}

/// Law: units of mixed kinds are shown as plain units. When the selection
/// holds two units each of exactly one kind, and the kinds differ (say a
/// worker and a warrior), in whatever order, the selection type is `Unit`.
pub proof fn mixed_kinds_select_units(kinds: Seq<UnitKinds>, i: int, j: int)
    requires
        0 <= i < kinds.len(),
        0 <= j < kinds.len(),
        single_kind(kinds[i]),
        single_kind(kinds[j]),
        kinds[i] != kinds[j],
    ensures
        unit_selection_type(kinds) == SelectionType::Unit,
{
    let (a, b) = if i < j { (i, j) } else { (j, i) };
    lemma_after_single_kind(kinds, a, b as nat);
    lemma_mixed_stays_mixed(kinds, (b + 1) as nat, kinds.len());
    assert(unit_kind_fold(kinds, (b + 1) as nat) is None);
}

/// What a structure is.
#[derive(Clone, Copy, PartialEq, Eq, Structural, Debug)]
pub struct StructureKinds {
    pub is_generator: bool,
    pub is_producer: bool,
}

/// Folding one more structure into the kind of a selection; `None` once mixed.
pub open spec fn structure_kind_step(t: SelectionType, k: StructureKinds) -> Option<SelectionType> {
    if k.is_generator && t == SelectionType::Nothing {
        Some(SelectionType::Generator)
    } else if k.is_generator && t != SelectionType::Generator {
        None
    } else if k.is_producer && t == SelectionType::Nothing {
        Some(SelectionType::Producer)
    } else if k.is_producer && t != SelectionType::Producer {
        None
    } else {
        Some(t)
    }
}

/// The kind of the first `n` selected structures, or `None` once they are mixed.
pub open spec fn structure_kind_fold(kinds: Seq<StructureKinds>, n: nat) -> Option<SelectionType>
    decreases n,
{
    if n == 0 {
        Some(SelectionType::Nothing)
    } else {
        match structure_kind_fold(kinds, (n - 1) as nat) {
            Some(t) => structure_kind_step(t, kinds[n - 1]),
            None => None,
        }
    }
}

proof fn lemma_structures_mixed_stay_mixed(kinds: Seq<StructureKinds>, i: nat, n: nat)
    requires
        i <= n,
    ensures
        structure_kind_fold(kinds, i) is None ==> structure_kind_fold(kinds, n) is None,
    decreases n - i,
{
    if i < n {
        lemma_structures_mixed_stay_mixed(kinds, i, (n - 1) as nat);
    }
}

/// A structure of exactly one kind.
pub open spec fn single_structure_kind(k: StructureKinds) -> bool {
    k == (StructureKinds { is_generator: true, is_producer: false })
        || k == (StructureKinds { is_generator: false, is_producer: true })
}

/// The selection type of a structure of exactly one kind.
pub open spec fn structure_type_of(k: StructureKinds) -> SelectionType {
    if k.is_generator {
        SelectionType::Generator
    } else {
        SelectionType::Producer
    }
}

proof fn lemma_after_single_structure(kinds: Seq<StructureKinds>, i: int, m: nat)
    requires
        0 <= i < m <= kinds.len(),
        single_structure_kind(kinds[i]),
    ensures
        structure_kind_fold(kinds, m) is None || structure_kind_fold(kinds, m) == Some(
            structure_type_of(kinds[i]),
        ),
    decreases m,
{
    if m > i + 1 {
        lemma_after_single_structure(kinds, i, (m - 1) as nat);
    }
}

/// Law: structures of mixed kinds have no common kind. When the selection
/// holds a generator and a producer, in whatever order, the kinds fold to
/// nothing, so the selection state is cleared.
pub proof fn mixed_structures_have_no_kind(kinds: Seq<StructureKinds>, i: int, j: int)
    requires
        0 <= i < kinds.len(),
        0 <= j < kinds.len(),
        single_structure_kind(kinds[i]),
        single_structure_kind(kinds[j]),
        kinds[i] != kinds[j],
    ensures
        structure_kind_fold(kinds, kinds.len()) is None,
{
    let (a, b) = if i < j { (i, j) } else { (j, i) };
    lemma_after_single_structure(kinds, a, b as nat);
    lemma_structures_mixed_stay_mixed(kinds, (b + 1) as nat, kinds.len());
    assert(structure_kind_fold(kinds, (b + 1) as nat) is None);
}

/// Law: structures all of one single kind are shown as that kind.
pub proof fn single_structure_kind_selection(kinds: Seq<StructureKinds>, kind: StructureKinds)
    requires
        kinds.len() > 0,
        forall|i: int| 0 <= i < kinds.len() ==> kinds[i] == kind,
        single_structure_kind(kind),
    ensures
        structure_kind_fold(kinds, kinds.len()) == Some(structure_type_of(kind)),
{
    assert forall|m: nat| 1 <= m <= kinds.len() implies structure_kind_fold(kinds, m) == Some(
        structure_type_of(kind),
    ) by {
        lemma_single_structure_fold(kinds, kind, m);
    }
}

proof fn lemma_single_structure_fold(kinds: Seq<StructureKinds>, kind: StructureKinds, m: nat)
    requires
        1 <= m <= kinds.len(),
        forall|i: int| 0 <= i < kinds.len() ==> kinds[i] == kind,
        single_structure_kind(kind),
    ensures
        structure_kind_fold(kinds, m) == Some(structure_type_of(kind)),
    decreases m,
{
    assert(kinds[m - 1] == kind);
    if m > 1 {
        lemma_single_structure_fold(kinds, kind, (m - 1) as nat);
    } else {
        assert(structure_kind_fold(kinds, 0) == Some(SelectionType::Nothing));
    }
}

/// Structures of `team` were selected: the selection state becomes their
/// common kind, and the producer panel is marked selected exactly when that
/// kind is `Producer`; structures of mixed kinds clear the selection state and
/// leave the producer panel as it was.
pub fn set_selected_structure_type(
    team: TeamType,
    kinds: &Vec<StructureKinds>,
    producer_selected: &mut bool,
) -> (change: SelectionStateChanged)
    ensures
        match structure_kind_fold(kinds@, kinds@.len()) {
            Some(t) => change == (SelectionStateChanged { new_type: t, team })
                && *final(producer_selected) == (t == SelectionType::Producer),
            None => change == (SelectionStateChanged { new_type: SelectionType::Nothing, team })
                && *final(producer_selected) == *old(producer_selected),
        },
{
    let mut selected_type = SelectionType::Nothing;
    let mut mismatched_types = false;
    let n = kinds.len();
    let mut i: usize = 0;
    while i < n
        invariant_except_break
            i <= n,
            n == kinds@.len(),
            !mismatched_types,
            structure_kind_fold(kinds@, i as nat) == Some(selected_type),
        ensures
            mismatched_types ==> structure_kind_fold(kinds@, n as nat) is None,
            !mismatched_types ==> structure_kind_fold(kinds@, n as nat) == Some(selected_type),
        decreases n - i,
    {
        let k = kinds[i];
        proof {
            lemma_structures_mixed_stay_mixed(kinds@, (i + 1) as nat, n as nat);
        }
        if k.is_generator {
            if selected_type == SelectionType::Nothing {
                selected_type = SelectionType::Generator;
                i = i + 1;
                continue;
            } else if selected_type != SelectionType::Generator {
                mismatched_types = true;
                break;
            }
        }
        if k.is_producer {
            if selected_type == SelectionType::Nothing {
                selected_type = SelectionType::Producer;
                i = i + 1;
                continue;
            } else if selected_type != SelectionType::Producer {
                mismatched_types = true;
                break;
            }
        }
        i = i + 1;
    }
    if mismatched_types {
        SelectionStateChanged { new_type: SelectionType::Nothing, team }
    } else {
        *producer_selected = selected_type == SelectionType::Producer;
        SelectionStateChanged { new_type: selected_type, team }
    }
}

/// An entity a right click may target: its team, and whether the click fell
/// inside its selection rectangle.
#[derive(Clone, Copy, PartialEq, Eq, Structural, Debug)]
pub struct ActionCandidate {
    pub entity: u64,
    pub team: TeamType,
    pub hit: bool,
}

/// What a right click with units selected orders those units to do.
#[derive(Clone, Copy, PartialEq, Eq, Structural, Debug)]
pub enum UnitOrder {
    /// Work on the player's construction site.
    Construct(u64),
    /// Work at the player's generator.
    Generate(u64),
    /// Attack an enemy entity.
    Attack(u64),
    /// Convert an enemy entity.
    Convert(u64),
}

/// The entities among `candidates` the click hit, of the player's team when
/// `own` and of the other team otherwise, in order.
pub open spec fn clicked(candidates: Seq<ActionCandidate>, own: bool) -> Seq<u64>
    decreases candidates.len(),
{
    if candidates.len() == 0 {
        Seq::empty()
    } else {
        let earlier = clicked(candidates.drop_last(), own);
        let c = candidates.last();
        if c.hit && ((c.team == TeamType::Human) == own) {
            earlier.push(c.entity)
        } else {
            earlier
        }
    }
}

/// The kinds of orders a right click gives.
#[derive(Clone, Copy, PartialEq, Eq, Structural, Debug)]
enum OrderKind {
    Construct,
    Generate,
    Attack,
    Convert,
}

/// Appends to `orders` one order of kind `kind` for each hit candidate.
fn push_clicked(
    orders: &mut Vec<UnitOrder>,
    candidates: &Vec<ActionCandidate>,
    own: bool,
    kind: OrderKind,
)
    ensures
        final(orders)@ == old(orders)@ + clicked(candidates@, own).map_values(
            |e: u64| order_of(kind, e),
        ),
{
    let ghost o0 = orders@;
    for i in 0..candidates.len()
        invariant
            orders@ == o0 + clicked(candidates@.take(i as int), own).map_values(
                |e: u64| order_of(kind, e),
            ),
    {
        let c = candidates[i];
        proof {
            assert(candidates@.take(i + 1).drop_last() =~= candidates@.take(i as int));
        }
        if c.hit && ((c.team == TeamType::Human) == own) {
            let order = match kind {
                OrderKind::Construct => UnitOrder::Construct(c.entity),
                OrderKind::Generate => UnitOrder::Generate(c.entity),
                OrderKind::Attack => UnitOrder::Attack(c.entity),
                OrderKind::Convert => UnitOrder::Convert(c.entity),
            };
            orders.push(order);
            proof {
                assert(orders@ =~= o0 + clicked(candidates@.take(i + 1), own).map_values(
                    |e: u64| order_of(kind, e),
                ));
            }
        } else {
            proof {
                assert(orders@ =~= o0 + clicked(candidates@.take(i + 1), own).map_values(
                    |e: u64| order_of(kind, e),
                ));
            }
        }
    }
    proof {
        assert(candidates@.take(candidates@.len() as int) =~= candidates@);
    }
}

/// The order of kind `kind` on entity `e`.
spec fn order_of(kind: OrderKind, e: u64) -> UnitOrder {
    match kind {
        OrderKind::Construct => UnitOrder::Construct(e),
        OrderKind::Generate => UnitOrder::Generate(e),
        OrderKind::Attack => UnitOrder::Attack(e),
        OrderKind::Convert => UnitOrder::Convert(e),
    }
}

/// The orders a right click gives the selected units: every hit construction
/// site and generator of the player's own, then every hit enemy that can be
/// attacked, then every hit enemy that can be converted.
pub fn unit_action_selection(
    sites: &Vec<ActionCandidate>,
    generators: &Vec<ActionCandidate>,
    attackables: &Vec<ActionCandidate>,
    convertables: &Vec<ActionCandidate>,
) -> (orders: Vec<UnitOrder>)
    ensures
        orders@ == clicked(sites@, true).map_values(|e: u64| UnitOrder::Construct(e))
            + clicked(generators@, true).map_values(|e: u64| UnitOrder::Generate(e))
            + clicked(attackables@, false).map_values(|e: u64| UnitOrder::Attack(e))
            + clicked(convertables@, false).map_values(|e: u64| UnitOrder::Convert(e)),
{
    let mut orders: Vec<UnitOrder> = Vec::new();
    push_clicked(&mut orders, sites, true, OrderKind::Construct);
    push_clicked(&mut orders, generators, true, OrderKind::Generate);
    push_clicked(&mut orders, attackables, false, OrderKind::Attack);
    push_clicked(&mut orders, convertables, false, OrderKind::Convert);
    proof {
        assert(clicked(sites@, true).map_values(|e: u64| order_of(OrderKind::Construct, e)) =~= clicked(
            sites@,
            true,
        ).map_values(|e: u64| UnitOrder::Construct(e)));
        assert(clicked(generators@, true).map_values(|e: u64| order_of(OrderKind::Generate, e)) =~= clicked(
            generators@,
            true,
        ).map_values(|e: u64| UnitOrder::Generate(e)));
        assert(clicked(attackables@, false).map_values(|e: u64| order_of(OrderKind::Attack, e)) =~= clicked(
            attackables@,
            false,
        ).map_values(|e: u64| UnitOrder::Attack(e)));
        assert(clicked(convertables@, false).map_values(|e: u64| order_of(OrderKind::Convert, e)) =~= clicked(
            convertables@,
            false,
        ).map_values(|e: u64| UnitOrder::Convert(e)));
        assert(Seq::<UnitOrder>::empty() + clicked(sites@, true).map_values(|e: u64| order_of(OrderKind::Construct, e))
            =~= clicked(sites@, true).map_values(|e: u64| order_of(OrderKind::Construct, e)));
    }
    orders
}

} // verus!
