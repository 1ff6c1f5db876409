use animancer::ai::{
    load_instructions, run_instruction, AIInstructionSet, AIInstructionSets, AIInstructionType,
    AiWorld, Dependancy, DependancyExpectation, EntityStatus, AI_RESET_PHASE,
};
use animancer::geometry::{GridPoint, GridRect};
use animancer::producer::ProductionType;
use animancer::structure::StructureType;

fn status(entity: u64, idle: Option<bool>, moving: Option<bool>) -> EntityStatus {
    EntityStatus { entity, idle, moving }
}

fn empty_world() -> AiWorld {
    AiWorld { selected_units: vec![], selected_structures: vec![], statuses: vec![] }
}

#[test]
fn script_starts_with_first_generator() {
    let sets = load_instructions();
    assert_eq!(sets.current_phase, 0);
    assert_eq!(sets.sets.len(), 9);
    let first = &sets.sets[0];
    assert_eq!(first.name, "build 1st generator");
    assert_eq!(first.phase, 0);
    assert_eq!(
        first.steps[0],
        AIInstructionType::Selection(GridRect {
            min: GridPoint { x: 4390, y: 4390 },
            max: GridPoint { x: 4410, y: 4410 },
        })
    );
    assert_eq!(
        first.steps[1],
        AIInstructionType::Build {
            position: GridPoint { x: 4600, y: 4600 },
            structure: StructureType::SimpleShrine,
            cost: 60,
        }
    );
}

#[test]
fn script_phases_and_final_orders() {
    let sets = load_instructions();
    let phases: Vec<usize> = sets.sets.iter().map(|s| s.phase).collect();
    assert_eq!(phases, vec![0, 1, 2, 3, 4, 5, 6, 7, 7]);
    assert_eq!(sets.sets[7].steps[1], AIInstructionType::Movement(GridPoint { x: 700, y: 700 }));
    assert_eq!(
        sets.sets[8].steps[1],
        AIInstructionType::Produce { production: ProductionType::Warrior, count: 5 }
    );
    assert_eq!(
        sets.sets[2].steps[1],
        AIInstructionType::Build {
            position: GridPoint { x: 4200, y: 4200 },
            structure: StructureType::Producer,
            cost: 140,
        }
    );
    assert_eq!(
        sets.sets[3].steps[0],
        AIInstructionType::Selection(GridRect {
            min: GridPoint { x: 4200, y: 4200 },
            max: GridPoint { x: 4200, y: 4200 },
        })
    );
    for set in sets.sets.iter() {
        assert!(!set.complete);
        assert_eq!(set.current_step, 0);
        assert!(set.dependants.is_empty());
    }
}

#[test]
fn first_turn_issues_selection_and_moves_on() {
    let mut sets = load_instructions();
    let mut world = empty_world();
    let turn = run_instruction(&mut sets, false, &mut world);
    assert_eq!(turn.issued.len(), 1);
    assert!(matches!(turn.issued[0], AIInstructionType::Selection(_)));
    assert!(turn.forwarded);
    assert_eq!(sets.sets[0].current_step, 1);
    assert_eq!(sets.current_phase, 0);
}

#[test]
fn build_waits_for_busy_units_until_idle() {
    let mut sets = load_instructions();
    let mut world = AiWorld {
        selected_units: vec![7, 8],
        selected_structures: vec![],
        statuses: vec![status(7, Some(true), Some(false)), status(9, Some(true), None)],
    };
    run_instruction(&mut sets, false, &mut world);
    // the build step: unit 7 has an idle flag, unit 8 is unknown
    let turn = run_instruction(&mut sets, false, &mut world);
    assert_eq!(turn.issued.len(), 1);
    assert!(matches!(turn.issued[0], AIInstructionType::Build { .. }));
    assert!(!turn.forwarded);
    assert_eq!(world.statuses[0].idle, Some(false));
    assert_eq!(world.statuses[1].idle, Some(true));
    assert_eq!(
        sets.sets[0].dependants,
        vec![Dependancy { entity: 7, expectation: DependancyExpectation::Idle(true) }]
    );
    assert_eq!(sets.sets[0].current_step, 1);
    // still busy: nothing happens
    let turn = run_instruction(&mut sets, false, &mut world);
    assert!(turn.issued.is_empty());
    assert!(!turn.forwarded);
    // the unit finished building
    world.statuses[0].idle = Some(true);
    let turn = run_instruction(&mut sets, false, &mut world);
    assert!(turn.issued.is_empty());
    assert!(turn.forwarded);
    assert!(sets.sets[0].complete);
    assert!(sets.sets[0].dependants.is_empty());
    assert_eq!(sets.current_phase, 0);
    // no unfinished set in phase 0 is left: the script moves to phase 1
    let turn = run_instruction(&mut sets, false, &mut world);
    assert!(turn.issued.is_empty());
    assert_eq!(sets.current_phase, 1);
}

#[test]
fn forced_turn_moves_on_despite_dependants() {
    let mut sets = load_instructions();
    let mut world = AiWorld {
        selected_units: vec![7],
        selected_structures: vec![],
        statuses: vec![status(7, Some(true), None)],
    };
    run_instruction(&mut sets, false, &mut world);
    let turn = run_instruction(&mut sets, true, &mut world);
    assert!(turn.forwarded);
    assert!(sets.sets[0].complete);
    assert_eq!(sets.sets[0].dependants.len(), 1);
}

#[test]
fn movement_waits_on_moving_units_and_is_satisfied_at_once() {
    let mut sets = AIInstructionSets {
        current_phase: 0,
        sets: vec![AIInstructionSet {
            name: "march".to_string(),
            phase: 0,
            current_step: 0,
            complete: false,
            steps: vec![AIInstructionType::Movement(GridPoint { x: 1, y: 2 })],
            dependants: vec![],
        }],
    };
    let mut world = AiWorld {
        selected_units: vec![3],
        selected_structures: vec![],
        statuses: vec![status(3, None, Some(true))],
    };
    let turn = run_instruction(&mut sets, false, &mut world);
    assert_eq!(turn.issued, vec![AIInstructionType::Movement(GridPoint { x: 1, y: 2 })]);
    assert_eq!(world.statuses[0].moving, Some(false));
    assert!(turn.forwarded);
    assert!(sets.sets[0].complete);
}

#[test]
fn produce_waits_on_selected_structures() {
    let mut sets = AIInstructionSets {
        current_phase: 3,
        sets: vec![AIInstructionSet {
            name: "train".to_string(),
            phase: 3,
            current_step: 0,
            complete: false,
            steps: vec![AIInstructionType::Produce { production: ProductionType::Worker, count: 2 }],
            dependants: vec![],
        }],
    };
    let mut world = AiWorld {
        selected_units: vec![],
        selected_structures: vec![40],
        statuses: vec![status(40, Some(true), None)],
    };
    let turn = run_instruction(&mut sets, false, &mut world);
    assert_eq!(turn.issued.len(), 1);
    assert!(!turn.forwarded);
    assert_eq!(world.statuses[0].idle, Some(false));
    assert_eq!(sets.sets[0].dependants.len(), 1);
}

#[test]
fn satisfied_dependants_are_swap_removed_in_turn() {
    let dep = |entity| Dependancy { entity, expectation: DependancyExpectation::Idle(true) };
    let mut sets = AIInstructionSets {
        current_phase: 0,
        sets: vec![AIInstructionSet {
            name: "wait".to_string(),
            phase: 0,
            current_step: 0,
            complete: false,
            steps: vec![AIInstructionType::Selection(GridRect {
                min: GridPoint { x: 0, y: 0 },
                max: GridPoint { x: 0, y: 0 },
            })],
            dependants: vec![dep(1), dep(2), dep(3)],
        }],
    };
    let mut world = AiWorld {
        selected_units: vec![],
        selected_structures: vec![],
        statuses: vec![status(1, Some(true), None), status(2, Some(true), None), status(3, Some(false), None)],
    };
    let turn = run_instruction(&mut sets, false, &mut world);
    assert!(turn.issued.is_empty());
    // removing positions 0 then 1 - 1: the last dependant is swapped in and dropped instead
    assert_eq!(sets.sets[0].dependants, vec![dep(2)]);
    assert!(!turn.forwarded);
}

#[test]
fn script_loops_on_reset_phase() {
    let mut sets = load_instructions();
    let mut world = empty_world();
    let mut turns = 0;
    while sets.current_phase < AI_RESET_PHASE {
        run_instruction(&mut sets, false, &mut world);
        turns += 1;
        assert!(turns < 100);
    }
    for _ in 0..20 {
        run_instruction(&mut sets, false, &mut world);
        assert_eq!(sets.current_phase, AI_RESET_PHASE);
    }
}

#[test]
fn default_set_is_empty() {
    let set = AIInstructionSet::default();
    assert_eq!(set.name, "");
    assert_eq!(set.phase, 0);
    assert!(set.steps.is_empty());
    assert!(!set.complete);
}

#[test]
fn sets_are_complete_exactly_past_their_last_step() {
    let mut sets = load_instructions();
    let mut world = empty_world();
    let mut looped = false;
    for _ in 0..60 {
        let first_was_complete = sets.sets[0].complete;
        run_instruction(&mut sets, true, &mut world);
        if first_was_complete && !sets.sets[0].complete {
            assert_eq!(sets.current_phase, AI_RESET_PHASE);
            assert_eq!(sets.sets[0].current_step, 0);
            looped = true;
        }
        for set in sets.sets.iter() {
            assert_eq!(set.complete, set.current_step == set.steps.len());
        }
    }
    assert!(looped);
}
