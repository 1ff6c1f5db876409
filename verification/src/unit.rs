use vstd::prelude::*;
use crate::producer::ProductionType;

verus! {

/// The trade of a unit, which decides its extra ability: workers put in
/// effort, priests persuade, warriors strike.
#[derive(Clone, Copy, PartialEq, Eq, Structural, Debug)]
pub enum UnitRole {
    Worker,
    Priest,
    Warrior,
}

/// The whole-number statistics a unit is spawned with.
#[derive(Clone, Copy, Debug)]
pub struct UnitProfile {
    pub role: UnitRole,
    pub name: &'static str,
    pub speed: u32,
    pub health: u32,
    /// Faith the unit starts with, which is also its base faith.
    pub faith: u32,
}

pub const WORKER_SPEED: u32 = 100;
pub const PRIEST_SPEED: u32 = 85;
pub const WARRIOR_SPEED: u32 = 120;

/// What a unit that leaves a producer is spawned with besides the common unit
/// parts: its name and its speed. A produced unit is given no trade, health
/// or faith of its own.
#[derive(Clone, Copy, Debug)]
pub struct ProducedUnit {
    pub name: &'static str,
    pub speed: u32,
}

/// The unit a finished production spawns: a worker (speed 100), a priest
/// (speed 85) or a warrior (speed 120).
pub fn spawn_unit(production: ProductionType) -> (unit: ProducedUnit)
    requires
        production != ProductionType::Nothing,
    ensures
        production == ProductionType::Worker ==> unit.name@ == "Worker"@ && unit.speed == WORKER_SPEED,
        production == ProductionType::Priest ==> unit.name@ == "Priest"@ && unit.speed == PRIEST_SPEED,
        production == ProductionType::Warrior ==> unit.name@ == "Warrior"@ && unit.speed == WARRIOR_SPEED,
{
    match production {
        ProductionType::Worker => ProducedUnit { name: "Worker", speed: WORKER_SPEED },
        ProductionType::Priest => ProducedUnit { name: "Priest", speed: PRIEST_SPEED },
        _ => ProducedUnit { name: "Warrior", speed: WARRIOR_SPEED },
    }
}

pub const HERO_ASSET_PATH: &'static str = "character.png";

/// The hero each player starts with: a sturdy, fast worker (speed 120,
/// health 120, faith 160).
pub fn spawn_hero() -> (profile: UnitProfile)
    ensures
        profile.role == UnitRole::Worker,
        profile.name@ == "Hero"@,
        profile.speed == 120,
        profile.health == 120,
        profile.faith == 160,
{
    UnitProfile { role: UnitRole::Worker, name: "Hero", speed: 120, health: 120, faith: 160 }
}

} // verus!
