use animancer::crew::Crew;
use animancer::producer::{
    display_producer_ui, initial_productions, produce, queue_label, Producer, Production, ProductionType,
};
use animancer::teams::{TeamBasedValues, TeamType};
use animancer::ui::{CurrentUI, UIType};

#[test]
fn crew_for_site_takes_team_selection() {
    let mut selected: TeamBasedValues<u64> = TeamBasedValues::default();
    selected.push(&TeamType::Human, 1);
    selected.push(&TeamType::CPU, 9);
    selected.push(&TeamType::Human, 2);
    let crew = Crew::for_site(TeamType::Human, &selected);
    assert_eq!(crew.assigned, vec![1, 2]);
    assert!(crew.working.is_empty());
    let crew = Crew::for_site(TeamType::CPU, &selected);
    assert_eq!(crew.assigned, vec![9]);
}

#[test]
fn assign_appends_in_order() {
    let mut crew = Crew::new(vec![1]);
    crew.assign(&vec![5, 6]);
    assert_eq!(crew.assigned, vec![1, 5, 6]);
    assert!(crew.working.is_empty());
}

#[test]
fn near_units_start_working_in_reverse_order() {
    let mut crew = Crew { assigned: vec![1, 2, 3, 4], working: vec![9] };
    crew.engage_near(&vec![true, false, true, false]);
    assert_eq!(crew.assigned, vec![2, 4]);
    assert_eq!(crew.working, vec![9, 3, 1]);
}

#[test]
fn engaging_loses_no_unit() {
    let mut crew = Crew { assigned: vec![4, 5, 6, 7, 8], working: vec![] };
    crew.engage_near(&vec![true, true, false, true, true]);
    let mut all: Vec<u64> = crew.assigned.iter().chain(crew.working.iter()).copied().collect();
    all.sort();
    assert_eq!(all, vec![4, 5, 6, 7, 8]);
    assert_eq!(crew.assigned, vec![6]);
}

#[test]
fn one_far_unit_goes_back_to_assigned() {
    let mut crew = Crew { assigned: vec![1], working: vec![10, 20, 30] };
    let far = vec![false, true, false];
    assert!(crew.release_is_safe(&far));
    crew.release_far(&far);
    assert_eq!(crew.assigned, vec![1, 20]);
    assert_eq!(crew.working, vec![10, 30]);
}

#[test]
fn two_far_units_remove_by_stale_positions() {
    let mut crew = Crew { assigned: vec![], working: vec![10, 20, 30] };
    let far = vec![true, true, false];
    assert!(crew.release_is_safe(&far));
    crew.release_far(&far);
    assert_eq!(crew.assigned, vec![10, 20]);
    // position 0 is removed, then position 1 of what is left
    assert_eq!(crew.working, vec![20]);
}

#[test]
fn release_out_of_range_is_detected() {
    let crew = Crew { assigned: vec![], working: vec![10, 20, 30] };
    assert!(!crew.release_is_safe(&vec![false, true, true]));
    assert!(crew.release_is_safe(&vec![false, false, false]));
}

#[test]
fn producing_shifts_the_queue() {
    let mut producer = Producer {
        current_production: ProductionType::Worker,
        queue: vec![ProductionType::Worker, ProductionType::Warrior],
    };
    let mut line = Production { production_type: ProductionType::Worker, cost: 10, queue: 1 };
    let made = produce(&mut producer, &mut line);
    assert_eq!(made, ProductionType::Worker);
    assert_eq!(line.queue, 0);
    assert_eq!(producer.queue, vec![ProductionType::Warrior]);
    assert_eq!(producer.current_production, ProductionType::Warrior);
    let mut warriors = Production { production_type: ProductionType::Warrior, cost: 14, queue: 1 };
    let made = produce(&mut producer, &mut warriors);
    assert_eq!(made, ProductionType::Warrior);
    assert!(producer.queue.is_empty());
    assert_eq!(producer.current_production, ProductionType::Nothing);
}

#[test]
fn new_producer_lines() {
    let lines = initial_productions();
    assert_eq!(lines.len(), 3);
    assert_eq!(lines[0], Production { production_type: ProductionType::Worker, cost: 10, queue: 0 });
    assert_eq!(lines[1], Production { production_type: ProductionType::Priest, cost: 18, queue: 0 });
    assert_eq!(lines[2], Production { production_type: ProductionType::Warrior, cost: 14, queue: 0 });
    let producer = Producer::default();
    assert_eq!(producer.current_production, ProductionType::Nothing);
    assert!(producer.queue.is_empty());
    let copy = Producer { current_production: ProductionType::Priest, queue: vec![ProductionType::Priest] }.clone();
    assert_eq!(copy.queue, vec![ProductionType::Priest]);
    assert_eq!(copy.current_production, ProductionType::Priest);
}

#[test]
fn producer_panel_comes_up_for_selected_structures() {
    let mut selected: TeamBasedValues<u64> = TeamBasedValues::default();
    let mut ui = CurrentUI { focused: false, ui_type: UIType::Nothing };
    assert!(!display_producer_ui(&selected, &mut ui));
    assert_eq!(ui.ui_type, UIType::Nothing);
    selected.push(&TeamType::Human, 3);
    assert!(display_producer_ui(&selected, &mut ui));
    assert_eq!(ui.ui_type, UIType::Producer);
    let mut ui = CurrentUI { focused: true, ui_type: UIType::Worker };
    assert!(!display_producer_ui(&selected, &mut ui));
    assert_eq!(ui.ui_type, UIType::Worker);
}

#[test]
fn team_values_are_kept_apart() {
    let mut values: TeamBasedValues<u64> = TeamBasedValues::default();
    values.push(&TeamType::Human, 1);
    values.push(&TeamType::CPU, 2);
    values.push(&TeamType::CPU, 3);
    assert_eq!(values.len(&TeamType::Human), 1);
    assert_eq!(values.len(&TeamType::CPU), 2);
    let cpu: Vec<u64> = values.iter(&TeamType::CPU).copied().collect();
    assert_eq!(cpu, vec![2, 3]);
    values.clear(&TeamType::CPU);
    assert_eq!(values.len(&TeamType::CPU), 0);
    assert_eq!(values.len(&TeamType::Human), 1);
    assert_eq!(TeamType::default(), TeamType::Human);
}

#[test]
fn queue_label_shows_waiting_units_only() {
    assert_eq!(queue_label(3), "3");
    assert_eq!(queue_label(12), "12");
    assert_eq!(queue_label(0), "");
    assert_eq!(queue_label(-1), "");
}
