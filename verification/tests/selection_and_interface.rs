use animancer::inputs::{
    build_button_pressed, click_selection, handle_click, handle_mouse_wheel, set_selection_state,
    BoxSelector, BuildSelection, ClickAction, MouseButtons, UnitAim,
};
use animancer::movement::Formation;
use animancer::selectable::{
    select_entities, set_selected_structure_type, set_selected_unit_type, unit_action_selection,
    ActionCandidate, BoxSelection, SelectionCandidate, SelectionSignal, SelectionStateChanged,
    SelectionType, StructureKinds, UnitKinds, UnitOrder,
};
use animancer::structure::StructureType;
use animancer::teams::{TeamBasedValues, TeamType};
use animancer::ui::{build_cost, update_ui, CurrentUI, UIType, UiSignals};
use std::cmp::Ordering;

fn cand(entity: u64, team: TeamType, hit: bool) -> SelectionCandidate {
    SelectionCandidate { entity, team, hit }
}

fn buttons() -> MouseButtons {
    MouseButtons {
        left_pressed: false,
        left_just_released: false,
        right_just_pressed: false,
        right_pressed: false,
        right_just_released: false,
    }
}

#[test]
fn units_take_priority_over_structures() {
    let mut units: TeamBasedValues<u64> = TeamBasedValues::default();
    let mut structures: TeamBasedValues<u64> = TeamBasedValues::default();
    structures.push(&TeamType::Human, 99);
    let mut producer_selected = true;
    let selections = vec![BoxSelection {
        team: TeamType::Human,
        units: vec![cand(1, TeamType::Human, true), cand(2, TeamType::CPU, true), cand(3, TeamType::Human, false)],
        structures: vec![cand(10, TeamType::Human, true)],
    }];
    let signals = select_entities(&selections, &mut units, &mut structures, &mut producer_selected);
    assert_eq!(signals, vec![SelectionSignal::UnitsSelected(TeamType::Human)]);
    assert_eq!(units.human, vec![1]);
    assert!(structures.human.is_empty());
    assert!(producer_selected);
}

#[test]
fn structures_selected_when_no_unit_hit() {
    let mut units: TeamBasedValues<u64> = TeamBasedValues::default();
    let mut structures: TeamBasedValues<u64> = TeamBasedValues::default();
    units.push(&TeamType::CPU, 50);
    let mut producer_selected = false;
    let selections = vec![BoxSelection {
        team: TeamType::Human,
        units: vec![cand(1, TeamType::Human, false)],
        structures: vec![cand(10, TeamType::Human, true), cand(11, TeamType::CPU, true)],
    }];
    let signals = select_entities(&selections, &mut units, &mut structures, &mut producer_selected);
    assert_eq!(signals, vec![SelectionSignal::StructuresSelected(TeamType::Human)]);
    assert_eq!(structures.human, vec![10]);
    assert_eq!(units.cpu, vec![50]);
}

#[test]
fn empty_box_clears_and_closes_producer_panel() {
    let mut units: TeamBasedValues<u64> = TeamBasedValues::default();
    let mut structures: TeamBasedValues<u64> = TeamBasedValues::default();
    units.push(&TeamType::Human, 5);
    let mut producer_selected = true;
    let selections = vec![BoxSelection { team: TeamType::Human, units: vec![], structures: vec![] }];
    let signals = select_entities(&selections, &mut units, &mut structures, &mut producer_selected);
    assert_eq!(
        signals,
        vec![SelectionSignal::Changed(SelectionStateChanged {
            new_type: SelectionType::Nothing,
            team: TeamType::Human,
        })]
    );
    assert!(units.human.is_empty());
    assert!(!producer_selected);
}

#[test]
fn selections_after_a_unit_selection_are_dropped() {
    let mut units: TeamBasedValues<u64> = TeamBasedValues::default();
    let mut structures: TeamBasedValues<u64> = TeamBasedValues::default();
    let mut producer_selected = false;
    let selections = vec![
        BoxSelection { team: TeamType::CPU, units: vec![cand(7, TeamType::CPU, true)], structures: vec![] },
        BoxSelection { team: TeamType::Human, units: vec![cand(1, TeamType::Human, true)], structures: vec![] },
    ];
    let signals = select_entities(&selections, &mut units, &mut structures, &mut producer_selected);
    assert_eq!(signals.len(), 1);
    assert_eq!(units.cpu, vec![7]);
    assert!(units.human.is_empty());
}

#[test]
fn each_team_keeps_its_latest_selection() {
    let mut units: TeamBasedValues<u64> = TeamBasedValues::default();
    let mut structures: TeamBasedValues<u64> = TeamBasedValues::default();
    units.push(&TeamType::Human, 3);
    let mut producer_selected = true;
    let selections = vec![
        BoxSelection { team: TeamType::CPU, units: vec![], structures: vec![cand(20, TeamType::CPU, true)] },
        BoxSelection { team: TeamType::Human, units: vec![], structures: vec![cand(21, TeamType::Human, true)] },
        BoxSelection { team: TeamType::CPU, units: vec![], structures: vec![] },
    ];
    let signals = select_entities(&selections, &mut units, &mut structures, &mut producer_selected);
    assert_eq!(
        signals,
        vec![
            SelectionSignal::StructuresSelected(TeamType::CPU),
            SelectionSignal::StructuresSelected(TeamType::Human),
            SelectionSignal::Changed(SelectionStateChanged { new_type: SelectionType::Nothing, team: TeamType::CPU }),
        ]
    );
    assert!(units.human.is_empty());
    assert_eq!(structures.human, vec![21]);
    assert!(structures.cpu.is_empty());
    assert!(!producer_selected);
}

#[test]
fn unit_kinds_decide_selection_type() {
    let worker = UnitKinds { is_worker: true, is_priest: false, is_warrior: false };
    let priest = UnitKinds { is_worker: false, is_priest: true, is_warrior: false };
    let both = UnitKinds { is_worker: true, is_priest: true, is_warrior: false };
    let plain = UnitKinds { is_worker: false, is_priest: false, is_warrior: false };
    let t = |kinds: Vec<UnitKinds>| set_selected_unit_type(TeamType::Human, &kinds).new_type;
    assert_eq!(t(vec![worker, worker]), SelectionType::Worker);
    assert_eq!(t(vec![priest]), SelectionType::Priest);
    assert_eq!(t(vec![worker, priest]), SelectionType::Unit);
    assert_eq!(t(vec![both]), SelectionType::Worker);
    assert_eq!(t(vec![worker, both]), SelectionType::Unit);
    assert_eq!(t(vec![plain]), SelectionType::Nothing);
    assert_eq!(t(vec![]), SelectionType::Nothing);
    assert_eq!(set_selected_unit_type(TeamType::CPU, &vec![worker]).team, TeamType::CPU);
}

#[test]
fn structure_kinds_decide_selection_type() {
    let generator = StructureKinds { is_generator: true, is_producer: false };
    let producer = StructureKinds { is_generator: false, is_producer: true };
    let mut producer_selected = false;
    let change = set_selected_structure_type(TeamType::Human, &vec![producer, producer], &mut producer_selected);
    assert_eq!(change.new_type, SelectionType::Producer);
    assert!(producer_selected);
    let change = set_selected_structure_type(TeamType::Human, &vec![generator], &mut producer_selected);
    assert_eq!(change.new_type, SelectionType::Generator);
    assert!(!producer_selected);
    producer_selected = true;
    let change = set_selected_structure_type(TeamType::Human, &vec![generator, producer], &mut producer_selected);
    assert_eq!(change.new_type, SelectionType::Nothing);
    assert!(producer_selected);
}

#[test]
fn right_click_orders_in_fixed_order() {
    let a = |entity, team, hit| ActionCandidate { entity, team, hit };
    let orders = unit_action_selection(
        &vec![a(1, TeamType::Human, true), a(2, TeamType::CPU, true)],
        &vec![a(3, TeamType::Human, false), a(4, TeamType::Human, true)],
        &vec![a(5, TeamType::CPU, true), a(6, TeamType::Human, true)],
        &vec![a(7, TeamType::CPU, true)],
    );
    assert_eq!(
        orders,
        vec![UnitOrder::Construct(1), UnitOrder::Generate(4), UnitOrder::Attack(5), UnitOrder::Convert(7)]
    );
}

#[test]
fn interface_follows_selection() {
    let mut state = SelectionType::Nothing;
    let mut ui = CurrentUI { focused: false, ui_type: UIType::Nothing };
    let change = |t| SelectionStateChanged { new_type: t, team: TeamType::Human };
    let s = update_ui(change(SelectionType::Worker), &mut state, &mut ui);
    assert_eq!(s, UiSignals { remove_worker_ui: false, display_worker_ui: true, remove_producer_ui: false, display_producer_ui: false });
    assert_eq!(ui.ui_type, UIType::Worker);
    assert_eq!(state, SelectionType::Worker);
    let s = update_ui(change(SelectionType::Producer), &mut state, &mut ui);
    assert_eq!(s, UiSignals { remove_worker_ui: true, display_worker_ui: false, remove_producer_ui: false, display_producer_ui: true });
    assert_eq!(ui.ui_type, UIType::Producer);
    let s = update_ui(change(SelectionType::Producer), &mut state, &mut ui);
    assert_eq!(s, UiSignals { remove_worker_ui: false, display_worker_ui: false, remove_producer_ui: false, display_producer_ui: false });
    let s = update_ui(change(SelectionType::Warrior), &mut state, &mut ui);
    assert!(!s.remove_producer_ui);
    assert_eq!(ui.ui_type, UIType::Producer);
    assert_eq!(state, SelectionType::Warrior);
    let s = update_ui(change(SelectionType::Generator), &mut state, &mut ui);
    assert!(s.remove_producer_ui && !s.display_worker_ui);
    assert_eq!(ui.ui_type, UIType::Generator);
    let s = update_ui(change(SelectionType::Nothing), &mut state, &mut ui);
    assert_eq!(s, UiSignals { remove_worker_ui: false, display_worker_ui: false, remove_producer_ui: false, display_producer_ui: false });
    assert_eq!(ui.ui_type, UIType::Nothing);
}

#[test]
fn computer_selections_do_not_touch_interface() {
    let mut state = SelectionType::Unit;
    let mut ui = CurrentUI { focused: false, ui_type: UIType::Worker };
    let s = update_ui(
        SelectionStateChanged { new_type: SelectionType::Nothing, team: TeamType::CPU },
        &mut state,
        &mut ui,
    );
    assert!(!s.remove_worker_ui);
    assert_eq!(state, SelectionType::Unit);
    assert_eq!(ui.ui_type, UIType::Worker);
}

#[test]
fn mouse_wheel_cycles_formations() {
    assert_eq!(handle_mouse_wheel(Ordering::Less, Formation::Ringed), Formation::Line);
    assert_eq!(handle_mouse_wheel(Ordering::Less, Formation::Line), Formation::Box);
    assert_eq!(handle_mouse_wheel(Ordering::Less, Formation::Box), Formation::Ringed);
    assert_eq!(handle_mouse_wheel(Ordering::Greater, Formation::Ringed), Formation::Box);
    assert_eq!(handle_mouse_wheel(Ordering::Greater, Formation::Box), Formation::Line);
    assert_eq!(handle_mouse_wheel(Ordering::Equal, Formation::Box), Formation::Box);
    for f in [Formation::Ringed, Formation::Line, Formation::Box] {
        assert_eq!(handle_mouse_wheel(Ordering::Greater, handle_mouse_wheel(Ordering::Less, f)), f);
    }
    assert_eq!(Formation::default(), Formation::Ringed);
}

#[test]
fn dragging_a_box() {
    let mut b = BoxSelector { selecting: false, start: (0, 0), current: (0, 0), formation: Formation::Line };
    let press = MouseButtons { left_pressed: true, ..buttons() };
    assert_eq!(click_selection((1, 2), (0, 0), press, &mut b), None);
    assert!(b.selecting);
    assert_eq!(b.start, (1, 2));
    assert_eq!(click_selection((5, 6), (0, 0), press, &mut b), None);
    assert_eq!(b.current, (5, 6));
    let release = MouseButtons { left_just_released: true, ..buttons() };
    assert_eq!(click_selection((7, 7), (0, 0), release, &mut b), Some(((1, 2), (5, 6))));
    assert!(!b.selecting);
    assert_eq!(b.start, (0, 0));
    assert_eq!(b.current, (0, 0));
}

#[test]
fn a_click_without_drag_selects_at_the_cursor() {
    let mut b = BoxSelector { selecting: false, start: (0, 0), current: (0, 0), formation: Formation::Line };
    let press = MouseButtons { left_pressed: true, ..buttons() };
    assert_eq!(click_selection((10, 20), (0, 0), press, &mut b), None);
    assert_eq!(b.start, (10, 20));
    assert_eq!(b.current, (10, 20));
    let release = MouseButtons { left_just_released: true, ..buttons() };
    assert_eq!(click_selection((10, 20), (0, 0), release, &mut b), Some(((10, 20), (10, 20))));
    assert!(!b.selecting);
    assert_eq!(b.start, (0, 0));
    assert_eq!(b.current, (0, 0));
}

#[test]
fn an_aim_held_without_drag_keeps_its_far_end() {
    let mut b = BoxSelector { selecting: false, start: (0, 0), current: (0, 0), formation: Formation::Ringed };
    let mut aim = UnitAim { aiming: false, start: (0, 0), current: (0, 0) };
    let hold = MouseButtons { right_pressed: true, ..buttons() };
    handle_click(false, SelectionType::Unit, hold, (8, 5), (0, 0), false, &mut b, &mut aim);
    assert_eq!(aim, UnitAim { aiming: true, start: (8, 5), current: (0, 0) });
    let up = MouseButtons { right_just_released: true, ..buttons() };
    let actions = handle_click(false, SelectionType::Unit, up, (8, 5), (0, 0), false, &mut b, &mut aim);
    assert_eq!(actions, vec![ClickAction::MoveUnits { start: (8, 5), end: (0, 0), formation: Formation::Ringed }]);
}

#[test]
fn clicks_with_units_selected() {
    let mut b = BoxSelector { selecting: false, start: (0, 0), current: (0, 0), formation: Formation::Box };
    let mut aim = UnitAim { aiming: false, start: (0, 0), current: (0, 0) };
    let r = MouseButtons { right_just_pressed: true, ..buttons() };
    let actions = handle_click(false, SelectionType::Worker, r, (3, 3), (0, 0), false, &mut b, &mut aim);
    assert_eq!(actions, vec![ClickAction::UnitAction((3, 3))]);
    let hold = MouseButtons { right_pressed: true, ..buttons() };
    handle_click(false, SelectionType::Unit, hold, (4, 4), (0, 0), false, &mut b, &mut aim);
    handle_click(false, SelectionType::Unit, hold, (9, 9), (0, 0), false, &mut b, &mut aim);
    let up = MouseButtons { right_just_released: true, ..buttons() };
    let actions = handle_click(false, SelectionType::Unit, up, (9, 9), (0, 0), false, &mut b, &mut aim);
    assert_eq!(actions, vec![ClickAction::MoveUnits { start: (4, 4), end: (9, 9), formation: Formation::Box }]);
    assert!(!aim.aiming);
    let actions = handle_click(true, SelectionType::Unit, r, (1, 1), (0, 0), false, &mut b, &mut aim);
    assert!(actions.is_empty());
}

#[test]
fn clicks_while_placing_and_with_structures() {
    let mut b = BoxSelector { selecting: false, start: (0, 0), current: (0, 0), formation: Formation::Ringed };
    let mut aim = UnitAim { aiming: false, start: (0, 0), current: (0, 0) };
    let up = MouseButtons { left_just_released: true, ..buttons() };
    let actions = handle_click(false, SelectionType::Construction, up, (2, 2), (0, 0), true, &mut b, &mut aim);
    assert_eq!(actions, vec![ClickAction::PlaceSite((2, 2))]);
    let actions = handle_click(false, SelectionType::Construction, up, (2, 2), (0, 0), false, &mut b, &mut aim);
    assert!(actions.is_empty());
    let r = MouseButtons { right_just_pressed: true, ..buttons() };
    let actions = handle_click(false, SelectionType::Producer, r, (6, 1), (0, 0), false, &mut b, &mut aim);
    assert_eq!(actions, vec![ClickAction::SetPostSpawn((6, 1))]);
}

#[test]
fn selection_state_follows_buttons() {
    let up_left = MouseButtons { left_just_released: true, ..buttons() };
    let up_right = MouseButtons { right_just_released: true, ..buttons() };
    assert_eq!(set_selection_state(false, SelectionType::Construction, up_right, false, false), Some(SelectionType::Unit));
    assert_eq!(set_selection_state(false, SelectionType::Construction, up_left, true, false), Some(SelectionType::Unit));
    assert_eq!(set_selection_state(false, SelectionType::Construction, up_left, true, true), None);
    assert_eq!(set_selection_state(false, SelectionType::Construction, up_left, false, false), None);
    assert_eq!(set_selection_state(false, SelectionType::Generator, up_left, false, false), Some(SelectionType::Nothing));
    assert_eq!(set_selection_state(true, SelectionType::Generator, up_left, false, false), None);
    assert_eq!(set_selection_state(false, SelectionType::Unit, up_left, true, false), None);
}

#[test]
fn build_buttons_select_structures_at_cost() {
    let mut selection = BuildSelection { is_selected: false, structure_type: StructureType::SimpleShrine, cost: 0 };
    build_button_pressed(&mut selection, StructureType::Producer, build_cost(StructureType::Producer));
    assert_eq!(selection, BuildSelection { is_selected: true, structure_type: StructureType::Producer, cost: 140 });
    assert_eq!(build_cost(StructureType::SimpleShrine), 60);
}
