use vstd::prelude::*;

verus! {

/// The buildings a worker crew can raise.
#[derive(Clone, Copy, PartialEq, Eq, Structural, Debug)]
pub enum StructureType {
    SimpleShrine,
    Producer,
}

impl Default for StructureType {
    /// The shrine is the first thing a player builds.
    fn default() -> (structure: Self)
        ensures
            structure == StructureType::SimpleShrine,
    {
        StructureType::SimpleShrine
    }
}

pub const SIMPLE_SHRINE_ASSET_PATH: &'static str = "harvester.png";
pub const PRODUCER_ASSET_PATH: &'static str = "worker producer.png";
pub const POST_SPAWN_MARKER_PATH: &'static str = "marker.png";
/// Side length of the square a structure occupies and is selected by.
pub const SELECTION_SIZE: u32 = 64;
pub const SIMPLE_SHRINE_HEALTH: u32 = 660;
pub const PRODUCER_HEALTH: u32 = 1400;

/// What a finished structure of a given type is made of.
#[derive(Clone, Copy, PartialEq, Eq, Structural, Debug)]
pub enum StructureRole {
    /// Generates energy while workers tend it.
    Generator,
    /// Trains units, with a rally marker and one production line per unit type.
    Producer,
}

/// Everything `spawn_structure` needs to know about a structure type.
pub struct StructureBlueprint {
    pub asset_path: &'static str,
    pub health: u32,
    pub name: &'static str,
    pub role: StructureRole,
}

/// The picture of a structure type.
pub open spec fn structure_asset(structure: StructureType) -> Seq<char> {
    match structure {
        StructureType::SimpleShrine => SIMPLE_SHRINE_ASSET_PATH@,
        StructureType::Producer => PRODUCER_ASSET_PATH@,
    }
}

/// The picture drawn for a structure type, also used for its construction site
/// and its silhouette while placing it.
pub fn structure_asset_path(structure: StructureType) -> (path: &'static str)
    ensures
        path@ == structure_asset(structure),
{
    match structure {
        StructureType::SimpleShrine => SIMPLE_SHRINE_ASSET_PATH,
        StructureType::Producer => PRODUCER_ASSET_PATH,
    }
}

/// The blueprint of a structure type: a shrine is a generator with 660 health,
/// a producer trains units and has 1400 health.
pub fn spawn_structure(structure: StructureType) -> (blueprint: StructureBlueprint)
    ensures
        blueprint.asset_path@ == structure_asset(structure),
        structure == StructureType::SimpleShrine ==> {
            &&& blueprint.health == SIMPLE_SHRINE_HEALTH
            &&& blueprint.name@ == "SimpleShrine"@
            &&& blueprint.role == StructureRole::Generator
        },
        structure == StructureType::Producer ==> {
            &&& blueprint.health == PRODUCER_HEALTH
            &&& blueprint.name@ == "Producer"@
            &&& blueprint.role == StructureRole::Producer
        },
{
    let asset_path = structure_asset_path(structure);
    match structure {
        StructureType::SimpleShrine => StructureBlueprint {
            asset_path,
            health: SIMPLE_SHRINE_HEALTH,
            name: "SimpleShrine",
            role: StructureRole::Generator,
        },
        StructureType::Producer => StructureBlueprint {
            asset_path,
            health: PRODUCER_HEALTH,
            name: "Producer",
            role: StructureRole::Producer,
        },
    }
}

} // verus!
