use vstd::prelude::*;
use crate::geometry::GridPoint;
use crate::producer::ProductionType;
use crate::unit::{UnitProfile, UnitRole};

verus! {

/// The n-th slot of a test squad: two columns 30 apart, rows 30 apart.
pub fn squad_slot(n: u32) -> (offset: GridPoint)
    ensures
        offset.x == 30 * (n % 2),
        offset.y == 30 * (n / 2),
{
    GridPoint { x: 30 * ((n % 2) as i64), y: 30 * ((n / 2) as i64) }
}

/// Which way from the centre a team's test squads stand: the player's below
/// it, the computer's above.
pub fn team_side(is_human: bool) -> (side: i64)
    ensures
        side == (if is_human { -1i64 } else { 1i64 }),
{
    if is_human {
        -1
    } else {
        1
    }
}

/// The units of a test squad: workers (speed 100, health 24, faith 44),
/// priests (speed 85, health 16, faith 76) or warriors (speed 85, health 42,
/// faith 32).
pub fn squad_profile(production: ProductionType) -> (profile: UnitProfile)
    requires
        production != ProductionType::Nothing,
    ensures
        production == ProductionType::Worker ==> profile.role == UnitRole::Worker
            && profile.name@ == "Worker"@ && profile.speed == 100 && profile.health == 24
            && profile.faith == 44,
        production == ProductionType::Priest ==> profile.role == UnitRole::Priest
            && profile.name@ == "Priest"@ && profile.speed == 85 && profile.health == 16
            && profile.faith == 76,
        production == ProductionType::Warrior ==> profile.role == UnitRole::Warrior
            && profile.name@ == "Warrior"@ && profile.speed == 85 && profile.health == 42
            && profile.faith == 32,
{
    match production {
        ProductionType::Worker => UnitProfile { role: UnitRole::Worker, name: "Worker", speed: 100, health: 24, faith: 44 },
        ProductionType::Priest => UnitProfile { role: UnitRole::Priest, name: "Priest", speed: 85, health: 16, faith: 76 },
        _ => UnitProfile { role: UnitRole::Warrior, name: "Warrior", speed: 85, health: 42, faith: 32 },
    }
}

} // verus!
