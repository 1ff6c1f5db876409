use vstd::prelude::*;
use crate::geometry::{GridPoint, GridRect};
use crate::producer::ProductionType;
use crate::structure::StructureType;
use crate::ui::{structure_cost, PRODUCER_COST, SIMPLE_SHRINE_COST};

verus! {

/// Once the script reaches this phase it starts over at `AI_RESET_PHASE`.
pub const AI_FINAL_PHASE: usize = 8;
/// The phase the script loops on forever once it has run through.
pub const AI_RESET_PHASE: usize = 7;

/// What an entity the computer player waits on has to show before the
/// script moves on.
#[derive(Clone, Copy, PartialEq, Eq, Structural, Debug)]
pub enum DependancyExpectation {
    Idle(bool),
    Moving(bool),
}

/// An entity the current step of an instruction set waits on.
#[derive(Clone, Copy, PartialEq, Eq, Structural, Debug)]
pub struct Dependancy {
    pub entity: u64,
    pub expectation: DependancyExpectation,
}

/// One step of the computer player's script.
#[derive(Clone, Copy, PartialEq, Eq, Structural, Debug)]
pub enum AIInstructionType {
    /// Box-select the computer's own entities in a rectangle.
    Selection(GridRect),
    /// Send the selected units towards a position.
    Movement(GridPoint),
    /// Lay out a construction site and send the selected units to it.
    Build { position: GridPoint, structure: StructureType, cost: u32 },
    /// Queue `count` units at the selected producers.
    Produce { production: ProductionType, count: usize },
}

/// A named sequence of steps that runs during one phase of the script.
pub struct AIInstructionSet {
    pub name: String,
    pub phase: usize,
    pub current_step: usize,
    pub complete: bool,
    pub steps: Vec<AIInstructionType>,
    pub dependants: Vec<Dependancy>,
}

/// The mathematical value of an instruction set.
#[verifier::ext_equal]
pub struct AIInstructionSetView {
    pub name: Seq<char>,
    pub phase: usize,
    pub current_step: usize,
    pub complete: bool,
    pub steps: Seq<AIInstructionType>,
    pub dependants: Seq<Dependancy>,
}

impl View for AIInstructionSet {
    type V = AIInstructionSetView;

    open spec fn view(&self) -> AIInstructionSetView {
        AIInstructionSetView {
            name: self.name@,
            phase: self.phase,
            current_step: self.current_step,
            complete: self.complete,
            steps: self.steps@,
            dependants: self.dependants@,
        }
    }
}

impl AIInstructionSetView {
    /// The set has steps, and an unfinished set points at one of them.
    pub open spec fn wf(self) -> bool {
        &&& 0 < self.steps.len() <= usize::MAX
        &&& self.current_step <= self.steps.len()
        &&& !self.complete ==> self.current_step < self.steps.len()
    }

    /// The set counts as complete exactly when its current step is past the
    /// last one.
    pub open spec fn complete_exactly_at_end(self) -> bool {
        self.complete <==> self.current_step == self.steps.len()
    }
}

impl Default for AIInstructionSet {
    /// An unnamed, empty set for phase 0.
    fn default() -> (set: Self)
        ensures
            set@.name == Seq::<char>::empty(),
            set@.phase == 0,
            set@.current_step == 0,
            !set@.complete,
            set@.steps == Seq::<AIInstructionType>::empty(),
            set@.dependants == Seq::<Dependancy>::empty(),
    {
        AIInstructionSet {
            name: String::new(),
            phase: 0,
            current_step: 0,
            complete: false,
            steps: Vec::new(),
            dependants: Vec::new(),
        }
    }
}

/// The whole script of the computer player and the phase it is in.
pub struct AIInstructionSets {
    pub current_phase: usize,
    pub sets: Vec<AIInstructionSet>,
}

/// The mathematical value of the script.
#[verifier::ext_equal]
pub struct AIInstructionSetsView {
    pub current_phase: usize,
    pub sets: Seq<AIInstructionSetView>,
}

impl View for AIInstructionSets {
    type V = AIInstructionSetsView;

    open spec fn view(&self) -> AIInstructionSetsView {
        AIInstructionSetsView {
            current_phase: self.current_phase,
            sets: self.sets@.map_values(|s: AIInstructionSet| s@),
        }
    }
}

impl AIInstructionSetsView {
    /// The phase is one the script can be in, and every set is well formed.
    pub open spec fn wf(self) -> bool {
        &&& self.current_phase < AI_FINAL_PHASE
        &&& forall|i: int| 0 <= i < self.sets.len() ==> #[trigger] self.sets[i].wf()
    }
}

/// What the computer player can observe of one entity: whether it has an
/// idle flag, and whether it is a unit with a moving flag.
#[derive(Clone, Copy, PartialEq, Eq, Structural, Debug)]
pub struct EntityStatus {
    pub entity: u64,
    pub idle: Option<bool>,
    pub moving: Option<bool>,
}

/// The part of the game world the computer player reads and writes.
pub struct AiWorld {
    pub selected_units: Vec<u64>,
    pub selected_structures: Vec<u64>,
    pub statuses: Vec<EntityStatus>,
}

/// The mathematical value of the world the computer player sees.
#[verifier::ext_equal]
pub struct AiWorldView {
    pub selected_units: Seq<u64>,
    pub selected_structures: Seq<u64>,
    pub statuses: Seq<EntityStatus>,
}

impl View for AiWorld {
    type V = AiWorldView;

    open spec fn view(&self) -> AiWorldView {
        AiWorldView {
            selected_units: self.selected_units@,
            selected_structures: self.selected_structures@,
            statuses: self.statuses@,
        }
    }
}

/// `i` is the first position in `statuses` that describes `entity`.
pub open spec fn is_first_status(statuses: Seq<EntityStatus>, entity: u64, i: int) -> bool {
    &&& 0 <= i < statuses.len()
    &&& statuses[i].entity == entity
    &&& forall|j: int| 0 <= j < i ==> statuses[j].entity != entity
}

/// Where `entity` is described in `statuses`, or -1 when it is not.
pub open spec fn status_index(statuses: Seq<EntityStatus>, entity: u64) -> int {
    if exists|i: int| is_first_status(statuses, entity, i) {
        choose|i: int| is_first_status(statuses, entity, i)
    } else {
        -1
    }
}

/// The idle flag of `entity`, if it has one.
pub open spec fn idle_of(statuses: Seq<EntityStatus>, entity: u64) -> Option<bool> {
    let i = status_index(statuses, entity);
    if i >= 0 {
        statuses[i].idle
    } else {
        None
    }
}

/// The moving flag of `entity`, if it is a unit with one.
pub open spec fn moving_of(statuses: Seq<EntityStatus>, entity: u64) -> Option<bool> {
    let i = status_index(statuses, entity);
    if i >= 0 {
        statuses[i].moving
    } else {
        None
    }
}

proof fn lemma_first_status_unique(statuses: Seq<EntityStatus>, entity: u64, i: int)
    requires
        is_first_status(statuses, entity, i),
    ensures
        status_index(statuses, entity) == i,
{
    let k = status_index(statuses, entity);
    assert(is_first_status(statuses, entity, k));
    if k < i {
        assert(statuses[k].entity != entity);
    } else if i < k {
        assert(statuses[i].entity != entity);
    }
}

proof fn lemma_no_status(statuses: Seq<EntityStatus>, entity: u64)
    requires
        forall|j: int| 0 <= j < statuses.len() ==> statuses[j].entity != entity,
    ensures
        status_index(statuses, entity) == -1,
{
}

/// Finds the first description of `entity` in `statuses`.
fn find_status(statuses: &Vec<EntityStatus>, entity: u64) -> (found: Option<usize>)
    ensures
        match found {
            Some(i) => status_index(statuses@, entity) == i as int,
            None => status_index(statuses@, entity) == -1,
        },
{
    let mut i: usize = 0;
    while i < statuses.len()
        invariant
            i <= statuses@.len(),
            forall|j: int| 0 <= j < i ==> statuses@[j].entity != entity,
        decreases statuses@.len() - i,
    {
        if statuses[i].entity == entity {
            proof {
                lemma_first_status_unique(statuses@, entity, i as int);
            }
            return Some(i);
        }
        i = i + 1;
    }
    proof {
        lemma_no_status(statuses@, entity);
    }
    None
}

/// Waiting on `entities` to become idle again: every one of them that has an
/// idle flag becomes a dependant of the step and is marked busy, in order.
pub open spec fn establish_idle(
    entities: Seq<u64>,
    dependants: Seq<Dependancy>,
    statuses: Seq<EntityStatus>,
) -> (Seq<Dependancy>, Seq<EntityStatus>)
    decreases entities.len(),
{
    if entities.len() == 0 {
        (dependants, statuses)
    } else {
        let (d, s) = establish_idle(entities.drop_last(), dependants, statuses);
        let e = entities.last();
        let i = status_index(s, e);
        if idle_of(s, e) is Some {
            (
                d.push(Dependancy { entity: e, expectation: DependancyExpectation::Idle(true) }),
                s.update(i, EntityStatus { idle: Some(false), ..s[i] }),
            )
        } else {
            (d, s)
        }
    }
}

/// Waiting on `entities` to stop moving: every one of them that is a unit
/// with a moving flag becomes a dependant of the step and is marked as not
/// moving, in order.
pub open spec fn establish_moving(
    entities: Seq<u64>,
    dependants: Seq<Dependancy>,
    statuses: Seq<EntityStatus>,
) -> (Seq<Dependancy>, Seq<EntityStatus>)
    decreases entities.len(),
{
    if entities.len() == 0 {
        (dependants, statuses)
    } else {
        let (d, s) = establish_moving(entities.drop_last(), dependants, statuses);
        let e = entities.last();
        let i = status_index(s, e);
        if moving_of(s, e) is Some {
            (
                d.push(Dependancy { entity: e, expectation: DependancyExpectation::Moving(false) }),
                s.update(i, EntityStatus { moving: Some(false), ..s[i] }),
            )
        } else {
            (d, s)
        }
    }
}

/// Makes the step wait until each of `entities` that has an idle flag is idle
/// again, and marks those entities busy.
pub fn establish_idle_dependants(
    entities: &Vec<u64>,
    dependants: &mut Vec<Dependancy>,
    statuses: &mut Vec<EntityStatus>,
)
    ensures
        (final(dependants)@, final(statuses)@) == establish_idle(
            entities@,
            old(dependants)@,
            old(statuses)@,
        ),
{
    let ghost d0 = dependants@;
    let ghost s0 = statuses@;
    let n = entities.len();
    for i in 0..n
        invariant
            n == entities@.len(),
            (dependants@, statuses@) == establish_idle(entities@.take(i as int), d0, s0),
    {
        let e = entities[i];
        proof {
            assert(entities@.take(i + 1).drop_last() == entities@.take(i as int));
        }
        match find_status(statuses, e) {
            Some(k) => {
                if statuses[k].idle.is_some() {
                    dependants.push(
                        Dependancy { entity: e, expectation: DependancyExpectation::Idle(true) },
                    );
                    let mut status = statuses[k];
                    status.idle = Some(false);
                    statuses.set(k, status);
                }
            },
            None => {},
        }
    }
    proof {
        assert(entities@.take(n as int) == entities@);
    }
}

/// Makes the step wait until each of `entities` that is a unit with a moving
/// flag has stopped, and marks those entities as not moving.
pub fn establish_moving_dependants(
    entities: &Vec<u64>,
    dependants: &mut Vec<Dependancy>,
    statuses: &mut Vec<EntityStatus>,
)
    ensures
        (final(dependants)@, final(statuses)@) == establish_moving(
            entities@,
            old(dependants)@,
            old(statuses)@,
        ),
{
    let ghost d0 = dependants@;
    let ghost s0 = statuses@;
    let n = entities.len();
    for i in 0..n
        invariant
            n == entities@.len(),
            (dependants@, statuses@) == establish_moving(entities@.take(i as int), d0, s0),
    {
        let e = entities[i];
        proof {
            assert(entities@.take(i + 1).drop_last() == entities@.take(i as int));
        }
        match find_status(statuses, e) {
            Some(k) => {
                if statuses[k].moving.is_some() {
                    dependants.push(
                        Dependancy { entity: e, expectation: DependancyExpectation::Moving(false) },
                    );
                    let mut status = statuses[k];
                    status.moving = Some(false);
                    statuses.set(k, status);
                }
            },
            None => {},
        }
    }
    proof {
        assert(entities@.take(n as int) == entities@);
    }
}

/// Whether the entity behind `dependant` shows what the step waits for.
pub open spec fn satisfied(dependant: Dependancy, statuses: Seq<EntityStatus>) -> bool {
    match dependant.expectation {
        DependancyExpectation::Idle(b) => idle_of(statuses, dependant.entity) == Some(b),
        DependancyExpectation::Moving(b) => moving_of(statuses, dependant.entity) == Some(b),
    }
}

/// The positions, in increasing order, of the satisfied dependants among the
/// first `n`.
pub open spec fn satisfied_indices(
    dependants: Seq<Dependancy>,
    statuses: Seq<EntityStatus>,
    n: nat,
) -> Seq<int>
    decreases n,
{
    if n == 0 {
        Seq::empty()
    } else {
        let earlier = satisfied_indices(dependants, statuses, (n - 1) as nat);
        if satisfied(dependants[n - 1], statuses) {
            earlier.push(n - 1)
        } else {
            earlier
        }
    }
}

/// Removes the dependants at `indices` one after the other by swapping in
/// the last one, where the k-th removal takes the position `indices[k] - k`
/// of the list as it stands by then.
pub open spec fn swap_removals(dependants: Seq<Dependancy>, indices: Seq<int>) -> Seq<Dependancy>
    decreases indices.len(),
{
    if indices.len() == 0 {
        dependants
    } else {
        let d = swap_removals(dependants, indices.drop_last());
        let p = indices.last() - (indices.len() - 1);
        d.update(p, d.last()).drop_last()
    }
}

proof fn lemma_satisfied_indices(dependants: Seq<Dependancy>, statuses: Seq<EntityStatus>, n: nat)
    requires
        n <= dependants.len(),
    ensures
        satisfied_indices(dependants, statuses, n).len() <= n,
        forall|k: int|
            0 <= k < satisfied_indices(dependants, statuses, n).len() ==> k <= #[trigger] satisfied_indices(
                dependants,
                statuses,
                n,
            )[k] < n,
    decreases n,
{
    if n > 0 {
        lemma_satisfied_indices(dependants, statuses, (n - 1) as nat);
    }
}

proof fn lemma_swap_removals_len(dependants: Seq<Dependancy>, indices: Seq<int>)
    requires
        indices.len() <= dependants.len(),
        forall|k: int| 0 <= k < indices.len() ==> k <= #[trigger] indices[k] < dependants.len(),
    ensures
        swap_removals(dependants, indices).len() == dependants.len() - indices.len(),
    decreases indices.len(),
{
    if indices.len() > 0 {
        let rest = indices.drop_last();
        assert forall|k: int| 0 <= k < rest.len() implies k <= #[trigger] rest[k] < dependants.len() by {
            assert(rest[k] == indices[k]);
        }
        lemma_swap_removals_len(dependants, rest);
    }
}

/// Drops the dependants whose entities now show what their step waits for.
fn release_satisfied(dependants: &mut Vec<Dependancy>, statuses: &Vec<EntityStatus>)
    ensures
        final(dependants)@ == swap_removals(
            old(dependants)@,
            satisfied_indices(old(dependants)@, statuses@, old(dependants)@.len()),
        ),
{
    let ghost d0 = dependants@;
    let n = dependants.len();
    let mut removing: Vec<usize> = Vec::new();
    for index in 0..n
        invariant
            n == d0.len(),
            dependants@ == d0,
            removing@.map_values(|x: usize| x as int) == satisfied_indices(d0, statuses@, index as nat),
    {
        let dependant = dependants[index];
        let remove = match dependant.expectation {
            DependancyExpectation::Idle(b) => match find_status(statuses, dependant.entity) {
                Some(k) => match statuses[k].idle {
                    Some(v) => v == b,
                    None => false,
                },
                None => false,
            },
            DependancyExpectation::Moving(b) => match find_status(statuses, dependant.entity) {
                Some(k) => match statuses[k].moving {
                    Some(v) => v == b,
                    None => false,
                },
                None => false,
            },
        };
        if remove {
            removing.push(index);
        }
        proof {
            assert(removing@.map_values(|x: usize| x as int) =~= satisfied_indices(
                d0,
                statuses@,
                (index + 1) as nat,
            ));
        }
    }
    let ghost idx = satisfied_indices(d0, statuses@, n as nat);
    proof {
        lemma_satisfied_indices(d0, statuses@, n as nat);
    }
    let mut index_adjustment: usize = 0;
    let m = removing.len();
    for k in 0..m
        invariant
            m == removing@.len(),
            removing@.map_values(|x: usize| x as int) == idx,
            idx.len() <= d0.len(),
            forall|j: int| 0 <= j < idx.len() ==> j <= #[trigger] idx[j] < d0.len(),
            index_adjustment == k,
            dependants@ == swap_removals(d0, idx.take(k as int)),
    {
        let index = removing[k];
        proof {
            assert(idx[k as int] == index as int);
            let t = idx.take(k as int);
            assert forall|j: int| 0 <= j < t.len() implies j <= #[trigger] t[j] < d0.len() by {
                assert(t[j] == idx[j]);
            }
            lemma_swap_removals_len(d0, t);
            assert(idx.take(k + 1).drop_last() =~= t);
        }
        dependants.swap_remove(index - index_adjustment);
        index_adjustment = index_adjustment + 1;
    }
    proof {
        assert(idx.take(m as int) =~= idx);
    }
}

/// The dependants and entity statuses after a step has been issued: a
/// movement waits on the selected units to stop, a build on the selected
/// units to become idle, a production of at least one unit on the selected
/// structures to become idle, and a selection waits on nothing.
pub open spec fn step_outcome(
    step: AIInstructionType,
    dependants: Seq<Dependancy>,
    world: AiWorldView,
) -> (Seq<Dependancy>, Seq<EntityStatus>) {
    match step {
        AIInstructionType::Selection(_) => (dependants, world.statuses),
        AIInstructionType::Movement(_) => establish_moving(
            world.selected_units,
            dependants,
            world.statuses,
        ),
        AIInstructionType::Build { .. } => establish_idle(
            world.selected_units,
            dependants,
            world.statuses,
        ),
        AIInstructionType::Produce { count, .. } => if count > 0 {
            establish_idle(world.selected_structures, dependants, world.statuses)
        } else {
            (dependants, world.statuses)
        },
    }
}

/// What one turn does to one instruction set.
#[verifier::ext_equal]
pub struct SetTurn {
    pub set: AIInstructionSetView,
    pub world: AiWorldView,
    /// The step issued this turn, if any.
    pub issued: Option<AIInstructionType>,
    /// The set belongs to the current phase and is not complete.
    pub ongoing: bool,
    /// The set moved on to its next step.
    pub forwarded: bool,
}

/// One turn of one instruction set. A set of another phase, or a complete
/// one, is left alone. Otherwise, when nothing is pending its current step is
/// issued; then the dependants that are satisfied are dropped, and the set
/// moves on to its next step when none is left or when `forced`, becoming
/// complete after its last step.
pub open spec fn set_turn(
    set: AIInstructionSetView,
    current: usize,
    forced: bool,
    world: AiWorldView,
) -> SetTurn {
    if set.complete || set.phase != current {
        SetTurn { set, world, issued: None, ongoing: false, forwarded: false }
    } else {
        let executes = set.dependants.len() == 0;
        let step = set.steps[set.current_step as int];
        let (deps, statuses) = if executes {
            step_outcome(step, set.dependants, world)
        } else {
            (set.dependants, world.statuses)
        };
        let left = swap_removals(deps, satisfied_indices(deps, statuses, deps.len()));
        let advance = left.len() == 0 || forced;
        let next = if advance { set.current_step + 1 } else { set.current_step as int };
        SetTurn {
            set: AIInstructionSetView {
                dependants: left,
                current_step: next as usize,
                complete: advance && next == set.steps.len(),
                ..set
            },
            world: AiWorldView { statuses, ..world },
            issued: if executes { Some(step) } else { None },
            ongoing: true,
            forwarded: advance,
        }
    }
}

/// Runs one turn of one instruction set.
fn run_set(set: &mut AIInstructionSet, current: usize, forced: bool, world: &mut AiWorld) -> (r: (
    Option<AIInstructionType>,
    bool,
    bool,
))
    requires
        old(set)@.wf(),
    ensures
        final(set)@.wf(),
        set_turn(old(set)@, current, forced, old(world)@) == (SetTurn {
            set: final(set)@,
            world: final(world)@,
            issued: r.0,
            ongoing: r.1,
            forwarded: r.2,
        }),
{
    if set.complete || set.phase != current {
        return (None, false, false);
    }
    let ghost w0 = world@;
    let mut issued: Option<AIInstructionType> = None;
    if set.dependants.len() == 0 {
        let step = set.steps[set.current_step];
        match step {
            AIInstructionType::Selection(_) => {},
            AIInstructionType::Movement(_) => {
                establish_moving_dependants(
                    &world.selected_units,
                    &mut set.dependants,
                    &mut world.statuses,
                );
            },
            AIInstructionType::Build { .. } => {
                establish_idle_dependants(
                    &world.selected_units,
                    &mut set.dependants,
                    &mut world.statuses,
                );
            },
            AIInstructionType::Produce { count, .. } => {
                if count > 0 {
                    establish_idle_dependants(
                        &world.selected_structures,
                        &mut set.dependants,
                        &mut world.statuses,
                    );
                }
            },
        }
        issued = Some(step);
    }
    let ghost deps = set.dependants@;
    let ghost statuses = world.statuses@;
    release_satisfied(&mut set.dependants, &world.statuses);
    let advance = set.dependants.len() == 0 || forced;
    assert(set.current_step < set.steps.len());
    if advance {
        set.current_step = set.current_step + 1;
        if set.current_step == set.steps.len() {
            set.complete = true;
        }
    }
    proof {
        assert(world@ =~= AiWorldView { statuses: world.statuses@, ..w0 });
    }
    (issued, true, advance)
}

/// What one turn does to the first `n` instruction sets, taken in order.
#[verifier::ext_equal]
pub struct SetsTurn {
    pub sets: Seq<AIInstructionSetView>,
    pub world: AiWorldView,
    pub issued: Seq<AIInstructionType>,
    pub ongoing: bool,
    pub forwarded: bool,
}

/// One turn of the first `n` sets, in order: each set sees the world as the
/// sets before it left it; the issued steps are collected in order.
pub open spec fn sets_turn(
    sets: Seq<AIInstructionSetView>,
    n: nat,
    current: usize,
    forced: bool,
    world: AiWorldView,
) -> SetsTurn
    decreases n,
{
    if n == 0 {
        SetsTurn { sets, world, issued: Seq::empty(), ongoing: false, forwarded: false }
    } else {
        let before = sets_turn(sets, (n - 1) as nat, current, forced, world);
        let t = set_turn(before.sets[n - 1], current, forced, before.world);
        SetsTurn {
            sets: before.sets.update(n - 1, t.set),
            world: t.world,
            issued: match t.issued {
                Some(step) => before.issued.push(step),
                None => before.issued,
            },
            ongoing: before.ongoing || t.ongoing,
            forwarded: before.forwarded || t.forwarded,
        }
    }
}

/// Every set starts over from its first step.
pub open spec fn restart_all(sets: Seq<AIInstructionSetView>) -> Seq<AIInstructionSetView> {
    sets.map_values(|s: AIInstructionSetView| AIInstructionSetView { complete: false, current_step: 0, ..s })
}

/// What one turn of the computer player does.
#[verifier::ext_equal]
pub struct InstructionTurn {
    pub sets: AIInstructionSetsView,
    pub world: AiWorldView,
    pub issued: Seq<AIInstructionType>,
    pub forwarded: bool,
}

/// One turn of the computer player: every set of the current phase takes its
/// turn; when no set of the current phase is left unfinished, the script
/// moves to the next phase, and on reaching the final phase it restarts every
/// set and stays on the reset phase.
pub open spec fn instruction_turn(
    sets: AIInstructionSetsView,
    forced: bool,
    world: AiWorldView,
) -> InstructionTurn {
    let t = sets_turn(sets.sets, sets.sets.len(), sets.current_phase, forced, world);
    let next = if t.ongoing {
        AIInstructionSetsView { current_phase: sets.current_phase, sets: t.sets }
    } else if sets.current_phase + 1 == AI_FINAL_PHASE {
        AIInstructionSetsView { current_phase: AI_RESET_PHASE, sets: restart_all(t.sets) }
    } else {
        AIInstructionSetsView { current_phase: (sets.current_phase + 1) as usize, sets: t.sets }
    };
    InstructionTurn { sets: next, world: t.world, issued: t.issued, forwarded: t.forwarded }
}

/// The outcome of one turn of the computer player: the steps it issued, in
/// order, and whether any set moved on to its next step (which restarts the
/// countdown that forces the script forward).
pub struct AiTurn {
    pub issued: Vec<AIInstructionType>,
    pub forwarded: bool,
}

/// One turn of the computer player, taken once its step cooldown has run
/// out; `forced` tells that the countdown forcing the script forward has run
/// out as well. The turn reads and updates the flags of the entities it waits
/// on in `world`.
pub fn run_instruction(sets: &mut AIInstructionSets, forced: bool, world: &mut AiWorld) -> (turn:
    AiTurn)
    requires
        old(sets)@.wf(),
    ensures
        final(sets)@.wf(),
        instruction_turn(old(sets)@, forced, old(world)@) == (InstructionTurn {
            sets: final(sets)@,
            world: final(world)@,
            issued: turn.issued@,
            forwarded: turn.forwarded,
        }),
{
    let ghost orig = sets@.sets;
    let ghost w0 = world@;
    let current = sets.current_phase;
    let n = sets.sets.len();
    let mut phase_ongoing = false;
    let mut forwarded = false;
    let mut issued: Vec<AIInstructionType> = Vec::new();
    for i in 0..n
        invariant
            n == orig.len(),
            sets.sets@.len() == n,
            sets.current_phase == current,
            current < AI_FINAL_PHASE,
            sets@.sets == sets_turn(orig, i as nat, current, forced, w0).sets,
            world@ == sets_turn(orig, i as nat, current, forced, w0).world,
            issued@ == sets_turn(orig, i as nat, current, forced, w0).issued,
            phase_ongoing == sets_turn(orig, i as nat, current, forced, w0).ongoing,
            forwarded == sets_turn(orig, i as nat, current, forced, w0).forwarded,
            forall|j: int| 0 <= j < n ==> #[trigger] sets@.sets[j].wf(),
    {
        let ghost before = sets@.sets;
        assert(sets@.sets[i as int] == sets.sets@[i as int]@);
        let (step, ongoing, moved) = run_set(&mut sets.sets[i], current, forced, world);
        proof {
            assert(sets@.sets =~= before.update(i as int, sets.sets@[i as int]@));
        }
        match step {
            Some(st) => issued.push(st),
            None => {},
        }
        phase_ongoing = phase_ongoing || ongoing;
        forwarded = forwarded || moved;
    }
    if !phase_ongoing {
        sets.current_phase = current + 1;
        if sets.current_phase == AI_FINAL_PHASE {
            sets.current_phase = AI_RESET_PHASE;
            let ghost finished = sets@.sets;
            for i in 0..n
                invariant
                    n == finished.len(),
                    sets.sets@.len() == n,
                    sets.current_phase == AI_RESET_PHASE,
                    forall|j: int| 0 <= j < i ==> #[trigger] sets@.sets[j] == restart_all(finished)[j],
                    forall|j: int| i <= j < n ==> #[trigger] sets@.sets[j] == finished[j],
                    forall|j: int| 0 <= j < n ==> #[trigger] finished[j].wf(),
            {
                let ghost before = sets@.sets;
                let set = &mut sets.sets[i];
                set.complete = false;
                set.current_step = 0;
                proof {
                    assert(before[i as int] == finished[i as int]);
                    assert(sets.sets@[i as int].complete == false);
                    assert(sets.sets@[i as int].current_step == 0);
                    assert(sets.sets@[i as int].steps@ == finished[i as int].steps);
                    assert(sets.sets@[i as int]@ =~= restart_all(finished)[i as int]);
                    assert(sets@.sets =~= before.update(i as int, restart_all(finished)[i as int]));
                }
            }
            proof {
                assert(sets@.sets =~= restart_all(finished));
                assert forall|j: int| 0 <= j < n implies #[trigger] sets@.sets[j].wf() by {
                    assert(finished[j].wf());
                }
            }
        }
    }
    AiTurn { issued, forwarded }
}

/// The computer player's base corner: positions in its script are measured
/// back from here.
pub const CORNER_OFFSET: i64 = 5000;

/// The point `(CORNER_OFFSET - dx, CORNER_OFFSET - dy)`.
pub open spec fn from_corner(dx: i64, dy: i64) -> GridPoint {
    GridPoint { x: (CORNER_OFFSET - dx) as i64, y: (CORNER_OFFSET - dy) as i64 }
}

/// The square of half side `half` centred on `c`.
pub open spec fn square_around(c: GridPoint, half: i64) -> GridRect {
    GridRect {
        min: GridPoint { x: (c.x - half) as i64, y: (c.y - half) as i64 },
        max: GridPoint { x: (c.x + half) as i64, y: (c.y + half) as i64 },
    }
}

/// A fresh instruction set with a selection step followed by `action`.
pub open spec fn scripted_set(
    name: Seq<char>,
    phase: usize,
    selection: GridRect,
    action: AIInstructionType,
) -> AIInstructionSetView {
    AIInstructionSetView {
        name,
        phase,
        current_step: 0,
        complete: false,
        steps: seq![AIInstructionType::Selection(selection), action],
        dependants: Seq::empty(),
    }
}

/// The computer player's build order: two shrines, a producer, a worker, two
/// more shrines, three warriors, then, forever, an attack on the enemy base
/// together with five more warriors.
pub open spec fn script() -> Seq<AIInstructionSetView> {
    let generator_1 = from_corner(400, 400);
    let generator_2 = from_corner(400, 300);
    let generator_3 = from_corner(300, 400);
    let generator_4 = from_corner(300, 300);
    let producer_1 = from_corner(800, 800);
    seq![
        scripted_set(
            "build 1st generator"@,
            0,
            square_around(from_corner(600, 600), 10),
            AIInstructionType::Build {
                position: generator_1,
                structure: StructureType::SimpleShrine,
                cost: SIMPLE_SHRINE_COST,
            },
        ),
        scripted_set(
            "build 2nd generator"@,
            1,
            square_around(generator_1, 80),
            AIInstructionType::Build {
                position: generator_2,
                structure: StructureType::SimpleShrine,
                cost: SIMPLE_SHRINE_COST,
            },
        ),
        scripted_set(
            "build 1st producer"@,
            2,
            square_around(generator_2, 80),
            AIInstructionType::Build {
                position: producer_1,
                structure: StructureType::Producer,
                cost: PRODUCER_COST,
            },
        ),
        scripted_set(
            "produce 1st worker"@,
            3,
            square_around(producer_1, 0),
            AIInstructionType::Produce { production: ProductionType::Worker, count: 1 },
        ),
        scripted_set(
            "build 3rd generator"@,
            4,
            square_around(producer_1, 80),
            AIInstructionType::Build {
                position: generator_3,
                structure: StructureType::SimpleShrine,
                cost: SIMPLE_SHRINE_COST,
            },
        ),
        scripted_set(
            "build 4th generator"@,
            5,
            square_around(generator_3, 80),
            AIInstructionType::Build {
                position: generator_4,
                structure: StructureType::SimpleShrine,
                cost: SIMPLE_SHRINE_COST,
            },
        ),
        scripted_set(
            "create 3 warriors"@,
            6,
            square_around(producer_1, 0),
            AIInstructionType::Produce { production: ProductionType::Warrior, count: 3 },
        ),
        scripted_set(
            "send troops to enemy base"@,
            7,
            square_around(producer_1, 100),
            AIInstructionType::Movement(GridPoint { x: 700, y: 700 }),
        ),
        scripted_set(
            "create 5 warriors"@,
            7,
            square_around(producer_1, 0),
            AIInstructionType::Produce { production: ProductionType::Warrior, count: 5 },
        ),
    ]
}

/// A point measured back from the computer player's corner.
fn corner_minus(dx: i64, dy: i64) -> (p: GridPoint)
    requires
        0 <= dx <= CORNER_OFFSET,
        0 <= dy <= CORNER_OFFSET,
    ensures
        p == from_corner(dx, dy),
{
    GridPoint::new(CORNER_OFFSET - dx, CORNER_OFFSET - dy)
}

/// The square of half side `half` around `c`, built from its two corners.
fn square(c: GridPoint, half: i64) -> (r: GridRect)
    requires
        0 <= half <= 1000,
        -1_000_000 <= c.x <= 1_000_000,
        -1_000_000 <= c.y <= 1_000_000,
    ensures
        r == square_around(c, half),
{
    GridRect::from_corners(
        GridPoint::new(c.x - half, c.y - half),
        GridPoint::new(c.x + half, c.y + half),
    )
}

/// A fresh instruction set with a selection step followed by `action`.
fn two_step_set(name: &str, phase: usize, selection: GridRect, action: AIInstructionType) -> (set:
    AIInstructionSet)
    ensures
        set@ == scripted_set(name@, phase, selection, action),
{
    let mut steps: Vec<AIInstructionType> = Vec::new();
    steps.push(AIInstructionType::Selection(selection));
    steps.push(action);
    let set = AIInstructionSet {
        name: name.to_owned(),
        phase,
        current_step: 0,
        complete: false,
        steps,
        dependants: Vec::new(),
    };
    assert(set@ =~= scripted_set(name@, phase, selection, action));
    set
}

/// The computer player's script, at its start.
pub fn load_instructions() -> (sets: AIInstructionSets)
    ensures
        sets@.current_phase == 0,
        sets@.sets == script(),
        sets@.wf(),
        forall|i: int| 0 <= i < sets@.sets.len() ==> #[trigger] sets@.sets[i].complete_exactly_at_end(),
{
    let generator_1 = corner_minus(400, 400);
    let generator_2 = corner_minus(400, 300);
    let generator_3 = corner_minus(300, 400);
    let generator_4 = corner_minus(300, 300);
    let producer_1 = corner_minus(800, 800);
    let mut sets: Vec<AIInstructionSet> = Vec::new();
    sets.push(
        two_step_set(
            "build 1st generator",
            0,
            GridRect::from_corners(corner_minus(590, 590), corner_minus(610, 610)),
            AIInstructionType::Build {
                position: generator_1,
                structure: StructureType::SimpleShrine,
                cost: SIMPLE_SHRINE_COST,
            },
        ),
    );
    sets.push(
        two_step_set(
            "build 2nd generator",
            1,
            square(generator_1, 80),
            AIInstructionType::Build {
                position: generator_2,
                structure: StructureType::SimpleShrine,
                cost: SIMPLE_SHRINE_COST,
            },
        ),
    );
    sets.push(
        two_step_set(
            "build 1st producer",
            2,
            square(generator_2, 80),
            AIInstructionType::Build {
                position: producer_1,
                structure: StructureType::Producer,
                cost: PRODUCER_COST,
            },
        ),
    );
    sets.push(
        two_step_set(
            "produce 1st worker",
            3,
            square(producer_1, 0),
            AIInstructionType::Produce { production: ProductionType::Worker, count: 1 },
        ),
    );
    sets.push(
        two_step_set(
            "build 3rd generator",
            4,
            square(producer_1, 80),
            AIInstructionType::Build {
                position: generator_3,
                structure: StructureType::SimpleShrine,
                cost: SIMPLE_SHRINE_COST,
            },
        ),
    );
    sets.push(
        two_step_set(
            "build 4th generator",
            5,
            square(generator_3, 80),
            AIInstructionType::Build {
                position: generator_4,
                structure: StructureType::SimpleShrine,
                cost: SIMPLE_SHRINE_COST,
            },
        ),
    );
    sets.push(
        two_step_set(
            "create 3 warriors",
            6,
            square(producer_1, 0),
            AIInstructionType::Produce { production: ProductionType::Warrior, count: 3 },
        ),
    );
    sets.push(
        two_step_set(
            "send troops to enemy base",
            7,
            square(producer_1, 100),
            AIInstructionType::Movement(GridPoint::new(700, 700)),
        ),
    );
    sets.push(
        two_step_set(
            "create 5 warriors",
            7,
            square(producer_1, 0),
            AIInstructionType::Produce { production: ProductionType::Warrior, count: 5 },
        ),
    );
    let result = AIInstructionSets { current_phase: 0, sets };
    assert(result@.sets =~= script());
    result
}

/// `after` is `before` one turn later as far as its identity goes: same name,
/// phase and steps, and its step either stayed, moved on by one, or went back
/// to the first.
pub open spec fn one_step_at_most(before: AIInstructionSetView, after: AIInstructionSetView) -> bool {
    &&& after.name == before.name
    &&& after.phase == before.phase
    &&& after.steps == before.steps
    &&& (after.current_step == before.current_step || after.current_step == before.current_step + 1
        || after.current_step == 0)
}

proof fn lemma_set_turn(set: AIInstructionSetView, current: usize, forced: bool, world: AiWorldView)
    requires
        set.wf(),
    ensures
        one_step_at_most(set, set_turn(set, current, forced, world).set),
        set_turn(set, current, forced, world).set.wf(),
        set.phase != current ==> set_turn(set, current, forced, world).set == set,
        set.complete_exactly_at_end() ==> set_turn(set, current, forced, world).set.complete_exactly_at_end(),
{
}

proof fn lemma_sets_turn(
    sets: Seq<AIInstructionSetView>,
    n: nat,
    current: usize,
    forced: bool,
    world: AiWorldView,
)
    requires
        n <= sets.len(),
        forall|i: int| 0 <= i < sets.len() ==> #[trigger] sets[i].wf(),
    ensures
        sets_turn(sets, n, current, forced, world).sets.len() == sets.len(),
        forall|i: int|
            n <= i < sets.len() ==> #[trigger] sets_turn(sets, n, current, forced, world).sets[i]
                == sets[i],
        forall|i: int|
            0 <= i < n ==> {
                let after = #[trigger] sets_turn(sets, n, current, forced, world).sets[i];
                &&& one_step_at_most(sets[i], after)
                &&& after.wf()
                &&& sets[i].phase != current ==> after == sets[i]
                &&& sets[i].complete_exactly_at_end() ==> after.complete_exactly_at_end()
            },
    decreases n,
{
    if n > 0 {
        lemma_sets_turn(sets, (n - 1) as nat, current, forced, world);
        let before = sets_turn(sets, (n - 1) as nat, current, forced, world);
        lemma_set_turn(before.sets[n - 1], current, forced, before.world);
    }
}

/// Law: one turn of the computer player never sends its script back a phase,
/// and never past the final phase: the phase stays or moves on by one.
pub proof fn phase_never_goes_back(sets: AIInstructionSetsView, forced: bool, world: AiWorldView)
    requires
        sets.wf(),
    ensures
        sets.current_phase <= instruction_turn(sets, forced, world).sets.current_phase
            <= sets.current_phase + 1,
        instruction_turn(sets, forced, world).sets.current_phase < AI_FINAL_PHASE,
{
}

/// Law: in one turn every instruction set keeps its name, phase and steps,
/// and its current step stays, moves on by one, or goes back to the first
/// when the script loops; a set of another phase than the current one is
/// left alone unless the script loops.
pub proof fn sets_move_at_most_one_step(sets: AIInstructionSetsView, forced: bool, world: AiWorldView)
    requires
        sets.wf(),
    ensures
        instruction_turn(sets, forced, world).sets.sets.len() == sets.sets.len(),
        forall|i: int|
            0 <= i < sets.sets.len() ==> one_step_at_most(
                sets.sets[i],
                #[trigger] instruction_turn(sets, forced, world).sets.sets[i],
            ),
        forall|i: int|
            0 <= i < sets.sets.len() && sets.sets[i].phase != sets.current_phase
                && instruction_turn(sets, forced, world).sets.current_phase != AI_RESET_PHASE
                ==> #[trigger] instruction_turn(sets, forced, world).sets.sets[i] == sets.sets[i],
{
    lemma_sets_turn(sets.sets, sets.sets.len(), sets.current_phase, forced, world);
}

/// Law: a set counts as complete exactly when its current step is past the
/// last one; when that holds of every set before a turn of the computer
/// player, it holds of every set after it, including when the script loops.
pub proof fn complete_exactly_at_the_end(sets: AIInstructionSetsView, forced: bool, world: AiWorldView)
    requires
        sets.wf(),
        forall|i: int| 0 <= i < sets.sets.len() ==> #[trigger] sets.sets[i].complete_exactly_at_end(),
    ensures
        instruction_turn(sets, forced, world).sets.wf(),
        forall|i: int|
            0 <= i < instruction_turn(sets, forced, world).sets.sets.len()
                ==> #[trigger] instruction_turn(sets, forced, world).sets.sets[i].complete_exactly_at_end(),
{
    lemma_sets_turn(sets.sets, sets.sets.len(), sets.current_phase, forced, world);
    let t = sets_turn(sets.sets, sets.sets.len(), sets.current_phase, forced, world);
    assert forall|i: int| 0 <= i < t.sets.len() implies #[trigger] t.sets[i].complete_exactly_at_end()
        && t.sets[i].wf() by {
        assert(sets.sets[i].complete_exactly_at_end());
    }
}

/// Whether an unfinished set of the current phase moves on in a turn without
/// waiting: the turn is forced, or the set waits on nothing and its current
/// step is a selection, which gives it nothing to wait on.
pub open spec fn moves_without_waiting(set: AIInstructionSetView, forced: bool) -> bool {
    forced || (set.dependants.len() == 0 && set.steps[set.current_step as int] is Selection)
}

proof fn lemma_moving_sets_turn(
    sets: Seq<AIInstructionSetView>,
    n: nat,
    current: usize,
    forced: bool,
    world: AiWorldView,
)
    requires
        n <= sets.len(),
        forall|i: int| 0 <= i < sets.len() ==> #[trigger] sets[i].wf(),
    ensures
        forall|i: int|
            0 <= i < n && sets[i].phase == current && !sets[i].complete && moves_without_waiting(sets[i], forced)
                ==> {
                let after = #[trigger] sets_turn(sets, n, current, forced, world).sets[i];
                &&& after.current_step == sets[i].current_step + 1
                &&& after.complete == (sets[i].current_step + 1 == sets[i].steps.len())
                &&& sets_turn(sets, n, current, forced, world).ongoing
                &&& sets_turn(sets, n, current, forced, world).forwarded
            },
    decreases n,
{
    if n > 0 {
        lemma_moving_sets_turn(sets, (n - 1) as nat, current, forced, world);
        lemma_sets_turn(sets, (n - 1) as nat, current, forced, world);
        let before = sets_turn(sets, (n - 1) as nat, current, forced, world);
        let now = sets_turn(sets, n, current, forced, world);
        let t = set_turn(before.sets[n - 1], current, forced, before.world);
        assert(before.sets[n - 1] == sets[n - 1]);
        assert(now.sets == before.sets.update(n - 1, t.set));
        assert forall|i: int|
            0 <= i < n && sets[i].phase == current && !sets[i].complete && moves_without_waiting(sets[i], forced)
                implies {
                let after = #[trigger] sets_turn(sets, n, current, forced, world).sets[i];
                &&& after.current_step == sets[i].current_step + 1
                &&& after.complete == (sets[i].current_step + 1 == sets[i].steps.len())
                &&& sets_turn(sets, n, current, forced, world).ongoing
                &&& sets_turn(sets, n, current, forced, world).forwarded
            } by {
            if i < n - 1 {
                assert(now.sets[i] == before.sets[i]);
                assert(before.sets[i].current_step == sets[i].current_step + 1);
            } else {
                assert(sets[i].wf());
                if !forced {
                    let deps = sets[i].dependants;
                    assert(deps.len() == 0);
                    assert(satisfied_indices(deps, before.world.statuses, 0) =~= Seq::<int>::empty());
                    assert(swap_removals(deps, Seq::<int>::empty()) == deps);
                }
                assert(t.ongoing && t.forwarded);
            }
        }
    }
}

/// Law: a forced turn moves every unfinished set of the current phase on by
/// one step, whatever it is still waiting on and whether or not it issued a
/// step this turn; the set is complete exactly when that was its last step,
/// the turn reports that the script moved forward, and the phase stays.
pub proof fn forcing_moves_every_open_set_on(sets: AIInstructionSetsView, world: AiWorldView)
    requires
        sets.wf(),
    ensures
        forall|i: int|
            0 <= i < sets.sets.len() && sets.sets[i].phase == sets.current_phase && !sets.sets[i].complete
                ==> {
                let after = #[trigger] instruction_turn(sets, true, world).sets.sets[i];
                &&& after.current_step == sets.sets[i].current_step + 1
                &&& after.complete == (sets.sets[i].current_step + 1 == sets.sets[i].steps.len())
                &&& after.steps == sets.sets[i].steps
                &&& instruction_turn(sets, true, world).forwarded
                &&& instruction_turn(sets, true, world).sets.current_phase == sets.current_phase
            },
{
    lemma_moving_sets_turn(sets.sets, sets.sets.len(), sets.current_phase, true, world);
    lemma_sets_turn(sets.sets, sets.sets.len(), sets.current_phase, true, world);
}

/// Law: a selection step never holds its set up. In any turn, an unfinished
/// set of the current phase that waits on nothing and is at a selection step
/// moves on by one, and the turn reports that the script moved forward.
pub proof fn selections_never_wait(sets: AIInstructionSetsView, forced: bool, world: AiWorldView)
    requires
        sets.wf(),
    ensures
        forall|i: int|
            0 <= i < sets.sets.len() && sets.sets[i].phase == sets.current_phase && !sets.sets[i].complete
                && sets.sets[i].dependants.len() == 0 && sets.sets[i].steps[sets.sets[i].current_step as int] is Selection
                ==> {
                let after = #[trigger] instruction_turn(sets, forced, world).sets.sets[i];
                &&& after.current_step == sets.sets[i].current_step + 1
                &&& instruction_turn(sets, forced, world).forwarded
                &&& instruction_turn(sets, forced, world).sets.current_phase == sets.current_phase
            },
{
    lemma_moving_sets_turn(sets.sets, sets.sets.len(), sets.current_phase, forced, world);
    lemma_sets_turn(sets.sets, sets.sets.len(), sets.current_phase, forced, world);
}

} // verus!
