use animancer::combat::{assign_attackers, break_attack_pursuit, pursue_prey, CombatEngagement};
use animancer::conversion::{self, ConversionStep};
use animancer::detection::{detect_target, DetectorReading};
use animancer::geometry::{GridPoint, GridRect};
use animancer::helpers::debug_text;
use animancer::map::{build_map, BattleMap, MAP_SIDE};
use animancer::movement::Formation;
use animancer::producer::ProductionType;
use animancer::selectable::SelectionType;
use animancer::structure::{spawn_structure, structure_asset_path, StructureRole, StructureType};
use animancer::teams::TeamType;
use animancer::test_scene::{squad_profile, squad_slot, team_side};
use animancer::ui::UIType;
use animancer::unit::{spawn_hero, spawn_unit, UnitRole};

#[test]
fn warriors_set_on_existing_prey_only() {
    let mut e = vec![Some(CombatEngagement::Nothing), None, Some(CombatEngagement::Pursuing { target: 3 })];
    assign_attackers(false, 9, &mut e);
    assert_eq!(e[0], Some(CombatEngagement::Nothing));
    assign_attackers(true, 9, &mut e);
    assert_eq!(
        e,
        vec![Some(CombatEngagement::Attacking { target: 9 }), None, Some(CombatEngagement::Attacking { target: 9 })]
    );
    break_attack_pursuit(&mut e);
    assert_eq!(e, vec![Some(CombatEngagement::Nothing), None, Some(CombatEngagement::Nothing)]);
}

#[test]
fn pursuit_frames() {
    let p = CombatEngagement::Pursuing { target: 4 };
    assert_eq!(pursue_prey(p, true, true), (p, Some(4)));
    assert_eq!(pursue_prey(p, true, false), (CombatEngagement::Attacking { target: 4 }, None));
    assert_eq!(pursue_prey(p, false, true), (CombatEngagement::Nothing, None));
    let a = CombatEngagement::Attacking { target: 4 };
    assert_eq!(pursue_prey(a, false, true), (a, None));
}

#[test]
fn priest_steps() {
    assert_eq!(conversion::pursue_prey(false, true), ConversionStep::GiveUp);
    assert_eq!(conversion::pursue_prey(true, true), ConversionStep::Chase);
    assert_eq!(conversion::pursue_prey(true, false), ConversionStep::Convert);
}

#[test]
fn detection_skips_self_own_team_and_far() {
    let d = |entity, team, in_range| DetectorReading { entity, team, in_range };
    let found = detect_target(
        1,
        TeamType::Human,
        &vec![d(1, TeamType::CPU, true), d(2, TeamType::Human, true), d(3, TeamType::CPU, false), d(4, TeamType::CPU, true)],
    );
    assert_eq!(found, Some(vec![4]));
    assert_eq!(detect_target(1, TeamType::Human, &vec![d(2, TeamType::Human, true)]), None);
}

#[test]
fn unit_profiles() {
    let w = spawn_unit(ProductionType::Worker);
    assert_eq!((w.name, w.speed), ("Worker", 100));
    let p = spawn_unit(ProductionType::Priest);
    assert_eq!((p.name, p.speed), ("Priest", 85));
    let k = spawn_unit(ProductionType::Warrior);
    assert_eq!((k.name, k.speed), ("Warrior", 120));
    let h = spawn_hero();
    assert_eq!((h.role, h.name, h.speed, h.health, h.faith), (UnitRole::Worker, "Hero", 120, 120, 160));
}

#[test]
fn test_squad_profiles() {
    let w = squad_profile(ProductionType::Worker);
    assert_eq!((w.role, w.name, w.speed, w.health, w.faith), (UnitRole::Worker, "Worker", 100, 24, 44));
    let p = squad_profile(ProductionType::Priest);
    assert_eq!((p.role, p.name, p.speed, p.health, p.faith), (UnitRole::Priest, "Priest", 85, 16, 76));
    let k = squad_profile(ProductionType::Warrior);
    assert_eq!((k.role, k.name, k.speed, k.health, k.faith), (UnitRole::Warrior, "Warrior", 85, 42, 32));
}

#[test]
fn structure_blueprints() {
    let s = spawn_structure(StructureType::SimpleShrine);
    assert_eq!((s.asset_path, s.health, s.name, s.role), ("harvester.png", 660, "SimpleShrine", StructureRole::Generator));
    let p = spawn_structure(StructureType::Producer);
    assert_eq!((p.asset_path, p.health, p.name, p.role), ("worker producer.png", 1400, "Producer", StructureRole::Producer));
    assert_eq!(structure_asset_path(StructureType::Producer), "worker producer.png");
    assert_eq!(StructureType::default(), StructureType::SimpleShrine);
}

#[test]
fn debug_overlay_texts() {
    let l = debug_text(Formation::Box, StructureType::Producer, true, false, UIType::Nothing, SelectionType::Construction);
    assert_eq!(l.formation, "Box");
    assert_eq!(l.structure, "WorkerProducer - ");
    assert_eq!(l.build_selected, "is selected");
    assert_eq!(l.producer_selected, "is not selected");
    assert_eq!(l.ui_type, "None");
    assert_eq!(l.selection_state, "Construction");
}

#[test]
fn battle_map_layout() {
    let map = build_map();
    assert_eq!(map.size, GridPoint { x: 5000, y: 5000 });
    assert_eq!(map.starting_points.len(), 2);
    assert_eq!(map.starting_points[0].position, GridPoint { x: 600, y: 600 });
    assert_eq!(map.starting_points[1].team, TeamType::CPU);
    assert_eq!(map.resources.len(), 9);
    assert_eq!(map.resources[8].amount, 4600);
    let total: u32 = map.resources.iter().map(|r| r.amount).sum();
    assert_eq!(total, 16600);
    assert_eq!(map.obstacles.len(), 28);
    assert_eq!(map.obstacles[5].radius, 700);
    assert_eq!(map.obstacles[5].segments, 16);
    for i in 0..28 {
        let o = map.obstacles[i];
        let m = map.obstacles[(i + 14) % 28];
        assert_eq!(m.start, GridPoint { x: MAP_SIDE - o.start.x, y: MAP_SIDE - o.start.y });
        assert_eq!(m.end, GridPoint { x: MAP_SIDE - o.end.x, y: MAP_SIDE - o.end.y });
    }
    let empty = BattleMap::default();
    assert!(empty.obstacles.is_empty());
}

#[test]
fn rectangles_from_corners() {
    let r = GridRect::from_corners(GridPoint::new(5, -1), GridPoint::new(2, 3));
    assert_eq!(r, GridRect { min: GridPoint { x: 2, y: -1 }, max: GridPoint { x: 5, y: 3 } });
}

#[test]
fn test_scene_slots() {
    assert_eq!(squad_slot(0), GridPoint { x: 0, y: 0 });
    assert_eq!(squad_slot(3), GridPoint { x: 30, y: 30 });
    assert_eq!(squad_slot(9), GridPoint { x: 30, y: 120 });
    assert_eq!(team_side(true), -1);
    assert_eq!(team_side(false), 1);
}
