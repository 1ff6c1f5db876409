use vstd::prelude::*;
use crate::geometry::GridPoint;
use crate::teams::TeamType;

verus! {

/// Where a player starts.
#[derive(Clone, Copy, PartialEq, Eq, Structural, Debug)]
pub struct PlayerStart {
    pub position: GridPoint,
    pub team: TeamType,
}

/// A deposit of resources on the map.
#[derive(Clone, Copy, PartialEq, Eq, Structural, Debug)]
pub struct MapResource {
    pub position: GridPoint,
    pub amount: u32,
}

/// A wall on the map, drawn as an arc of `segments` pieces with the given
/// radius from `start` to `end` (a straight piece when `segments` is 1).
#[derive(Clone, Copy, PartialEq, Eq, Structural, Debug)]
pub struct MapObstacle {
    pub start: GridPoint,
    pub end: GridPoint,
    pub radius: u32,
    pub segments: usize,
}

/// The battle map: its size, where the players start, its resources and its walls.
pub struct BattleMap {
    pub size: GridPoint,
    pub starting_points: Vec<PlayerStart>,
    pub resources: Vec<MapResource>,
    pub obstacles: Vec<MapObstacle>,
}

impl Default for BattleMap {
    /// An empty map of no size.
    fn default() -> (map: Self)
        ensures
            map.size == (GridPoint { x: 0, y: 0 }),
            map.starting_points@ == Seq::<PlayerStart>::empty(),
            map.resources@ == Seq::<MapResource>::empty(),
            map.obstacles@ == Seq::<MapObstacle>::empty(),
    {
        BattleMap {
            size: GridPoint { x: 0, y: 0 },
            starting_points: Vec::new(),
            resources: Vec::new(),
            obstacles: Vec::new(),
        }
    }
}

/// Side length of the square battle map.
pub const MAP_SIDE: i64 = 5000;

pub open spec fn resource(x: i64, y: i64, amount: u32) -> MapResource {
    MapResource { position: GridPoint { x, y }, amount }
}

pub open spec fn obstacle(sx: i64, sy: i64, ex: i64, ey: i64, radius: u32, segments: usize) -> MapObstacle {
    MapObstacle { start: GridPoint { x: sx, y: sy }, end: GridPoint { x: ex, y: ey }, radius, segments }
}

/// The human player starts in the south-west corner, the computer in the
/// north-east one.
pub open spec fn battle_map_starts() -> Seq<PlayerStart> {
    seq![
        PlayerStart { position: GridPoint { x: 600, y: 600 }, team: TeamType::Human },
        PlayerStart { position: GridPoint { x: 4400, y: 4400 }, team: TeamType::CPU },
    ]
}

/// Deposits in the four corners, on the four middle lanes and a large one
/// in the centre.
pub open spec fn battle_map_resources() -> Seq<MapResource> {
    seq![
        resource(300, 300, 1800),
        resource(4700, 300, 1800),
        resource(4700, 4700, 1800),
        resource(300, 4700, 1800),
        resource(2500, 800, 1200),
        resource(4200, 2500, 1200),
        resource(2500, 4200, 1200),
        resource(800, 2500, 1200),
        resource(2500, 2500, 4600),
    ]
}

/// Walls around each corner base, an inner and an outer ring per corner, in
/// the order south-west, south-east, north-east, north-west.
pub open spec fn battle_map_obstacles() -> Seq<MapObstacle> {
    seq![
        obstacle(0, 1400, 300, 1400, 1, 1),
        obstacle(500, 1400, 1000, 1200, 1400, 12),
        obstacle(1200, 1000, 1400, 500, 1400, 12),
        obstacle(1400, 300, 1400, 0, 1, 1),
        obstacle(1200, 2200, 400, 2200, 1800, 12),
        obstacle(1500, 2000, 2000, 1500, 700, 16),
        obstacle(2200, 400, 2200, 1200, 1800, 12),
        obstacle(3600, 0, 3600, 300, 1, 1),
        obstacle(3600, 500, 3800, 1000, 1400, 16),
        obstacle(4000, 1200, 4500, 1400, 1400, 16),
        obstacle(4700, 1400, 5000, 1400, 1, 1),
        obstacle(2800, 1200, 2800, 400, 2400, 12),
        obstacle(3000, 1500, 3500, 2000, 700, 16),
        obstacle(4600, 2200, 3800, 2200, 2400, 12),
        obstacle(5000, 3600, 4700, 3600, 1, 1),
        obstacle(4500, 3600, 4000, 3800, 1400, 16),
        obstacle(3800, 4000, 3600, 4500, 1400, 16),
        obstacle(3600, 4700, 3600, 5000, 1, 1),
        obstacle(3800, 2800, 4600, 2800, 2400, 12),
        obstacle(3500, 3000, 3000, 3500, 700, 16),
        obstacle(2800, 4600, 2800, 3800, 2400, 12),
        obstacle(1400, 5000, 1400, 4700, 1, 1),
        obstacle(1400, 4500, 1200, 4000, 1400, 16),
        obstacle(1000, 3800, 500, 3600, 1400, 16),
        obstacle(300, 3600, 0, 3600, 1, 1),
        obstacle(2200, 3800, 2200, 4600, 2400, 12),
        obstacle(2000, 3500, 1500, 3000, 700, 16),
        obstacle(400, 2800, 1200, 2800, 2400, 12),
    ]
}

/// The battle map the game is played on.
pub fn build_map() -> (map: BattleMap)
    ensures
        map.size == (GridPoint { x: MAP_SIDE, y: MAP_SIDE }),
        map.starting_points@ == battle_map_starts(),
        map.resources@ == battle_map_resources(),
        map.obstacles@ == battle_map_obstacles(),
{
    let mut starting_points: Vec<PlayerStart> = Vec::new();
    starting_points.push(PlayerStart { position: GridPoint { x: 600, y: 600 }, team: TeamType::Human });
    starting_points.push(PlayerStart { position: GridPoint { x: 4400, y: 4400 }, team: TeamType::CPU });
    let mut resources: Vec<MapResource> = Vec::new();
    resources.push(MapResource { position: GridPoint { x: 300, y: 300 }, amount: 1800 });
    resources.push(MapResource { position: GridPoint { x: 4700, y: 300 }, amount: 1800 });
    resources.push(MapResource { position: GridPoint { x: 4700, y: 4700 }, amount: 1800 });
    resources.push(MapResource { position: GridPoint { x: 300, y: 4700 }, amount: 1800 });
    resources.push(MapResource { position: GridPoint { x: 2500, y: 800 }, amount: 1200 });
    resources.push(MapResource { position: GridPoint { x: 4200, y: 2500 }, amount: 1200 });
    resources.push(MapResource { position: GridPoint { x: 2500, y: 4200 }, amount: 1200 });
    resources.push(MapResource { position: GridPoint { x: 800, y: 2500 }, amount: 1200 });
    resources.push(MapResource { position: GridPoint { x: 2500, y: 2500 }, amount: 4600 });
    let mut obstacles: Vec<MapObstacle> = Vec::new();
    obstacles.push(MapObstacle { start: GridPoint { x: 0, y: 1400 }, end: GridPoint { x: 300, y: 1400 }, radius: 1, segments: 1 });
    obstacles.push(MapObstacle { start: GridPoint { x: 500, y: 1400 }, end: GridPoint { x: 1000, y: 1200 }, radius: 1400, segments: 12 });
    obstacles.push(MapObstacle { start: GridPoint { x: 1200, y: 1000 }, end: GridPoint { x: 1400, y: 500 }, radius: 1400, segments: 12 });
    obstacles.push(MapObstacle { start: GridPoint { x: 1400, y: 300 }, end: GridPoint { x: 1400, y: 0 }, radius: 1, segments: 1 });
    obstacles.push(MapObstacle { start: GridPoint { x: 1200, y: 2200 }, end: GridPoint { x: 400, y: 2200 }, radius: 1800, segments: 12 });
    obstacles.push(MapObstacle { start: GridPoint { x: 1500, y: 2000 }, end: GridPoint { x: 2000, y: 1500 }, radius: 700, segments: 16 });
    obstacles.push(MapObstacle { start: GridPoint { x: 2200, y: 400 }, end: GridPoint { x: 2200, y: 1200 }, radius: 1800, segments: 12 });
    obstacles.push(MapObstacle { start: GridPoint { x: 3600, y: 0 }, end: GridPoint { x: 3600, y: 300 }, radius: 1, segments: 1 });
    obstacles.push(MapObstacle { start: GridPoint { x: 3600, y: 500 }, end: GridPoint { x: 3800, y: 1000 }, radius: 1400, segments: 16 });
    obstacles.push(MapObstacle { start: GridPoint { x: 4000, y: 1200 }, end: GridPoint { x: 4500, y: 1400 }, radius: 1400, segments: 16 });
    obstacles.push(MapObstacle { start: GridPoint { x: 4700, y: 1400 }, end: GridPoint { x: 5000, y: 1400 }, radius: 1, segments: 1 });
    obstacles.push(MapObstacle { start: GridPoint { x: 2800, y: 1200 }, end: GridPoint { x: 2800, y: 400 }, radius: 2400, segments: 12 });
    obstacles.push(MapObstacle { start: GridPoint { x: 3000, y: 1500 }, end: GridPoint { x: 3500, y: 2000 }, radius: 700, segments: 16 });
    obstacles.push(MapObstacle { start: GridPoint { x: 4600, y: 2200 }, end: GridPoint { x: 3800, y: 2200 }, radius: 2400, segments: 12 });
    obstacles.push(MapObstacle { start: GridPoint { x: 5000, y: 3600 }, end: GridPoint { x: 4700, y: 3600 }, radius: 1, segments: 1 });
    obstacles.push(MapObstacle { start: GridPoint { x: 4500, y: 3600 }, end: GridPoint { x: 4000, y: 3800 }, radius: 1400, segments: 16 });
    obstacles.push(MapObstacle { start: GridPoint { x: 3800, y: 4000 }, end: GridPoint { x: 3600, y: 4500 }, radius: 1400, segments: 16 });
    obstacles.push(MapObstacle { start: GridPoint { x: 3600, y: 4700 }, end: GridPoint { x: 3600, y: 5000 }, radius: 1, segments: 1 });
    obstacles.push(MapObstacle { start: GridPoint { x: 3800, y: 2800 }, end: GridPoint { x: 4600, y: 2800 }, radius: 2400, segments: 12 });
    obstacles.push(MapObstacle { start: GridPoint { x: 3500, y: 3000 }, end: GridPoint { x: 3000, y: 3500 }, radius: 700, segments: 16 });
    obstacles.push(MapObstacle { start: GridPoint { x: 2800, y: 4600 }, end: GridPoint { x: 2800, y: 3800 }, radius: 2400, segments: 12 });
    obstacles.push(MapObstacle { start: GridPoint { x: 1400, y: 5000 }, end: GridPoint { x: 1400, y: 4700 }, radius: 1, segments: 1 });
    obstacles.push(MapObstacle { start: GridPoint { x: 1400, y: 4500 }, end: GridPoint { x: 1200, y: 4000 }, radius: 1400, segments: 16 });
    obstacles.push(MapObstacle { start: GridPoint { x: 1000, y: 3800 }, end: GridPoint { x: 500, y: 3600 }, radius: 1400, segments: 16 });
    obstacles.push(MapObstacle { start: GridPoint { x: 300, y: 3600 }, end: GridPoint { x: 0, y: 3600 }, radius: 1, segments: 1 });
    obstacles.push(MapObstacle { start: GridPoint { x: 2200, y: 3800 }, end: GridPoint { x: 2200, y: 4600 }, radius: 2400, segments: 12 });
    obstacles.push(MapObstacle { start: GridPoint { x: 2000, y: 3500 }, end: GridPoint { x: 1500, y: 3000 }, radius: 700, segments: 16 });
    obstacles.push(MapObstacle { start: GridPoint { x: 400, y: 2800 }, end: GridPoint { x: 1200, y: 2800 }, radius: 2400, segments: 12 });
    proof {
        assert(starting_points@ =~= battle_map_starts());
        assert(resources@ =~= battle_map_resources());
        assert(obstacles@ =~= battle_map_obstacles());
    }
    BattleMap { size: GridPoint { x: MAP_SIDE, y: MAP_SIDE }, starting_points, resources, obstacles }
}

/// The point opposite `p` across the centre of the map.
pub open spec fn opposite(p: GridPoint) -> GridPoint {
    GridPoint { x: (MAP_SIDE - p.x) as i64, y: (MAP_SIDE - p.y) as i64 }
}

/// `p` lies on the map, edges included.
pub open spec fn on_map(p: GridPoint) -> bool {
    0 <= p.x <= MAP_SIDE && 0 <= p.y <= MAP_SIDE
}

/// Which deposit lies opposite the i-th: the corner deposits and the lane
/// deposits face each other in pairs, the central one faces itself.
pub open spec fn opposite_deposit(i: int) -> int {
    if i < 8 {
        if i % 4 < 2 {
            i + 2
        } else {
            i - 2
        }
    } else {
        8
    }
}

/// Law: the map is fair to both players. Their starts lie opposite each
/// other across the centre; every deposit has a deposit of the same size
/// opposite it; every wall has a wall opposite it, joining the opposite
/// points of its ends. Everything lies on the map.
pub proof fn battle_map_is_fair()
    ensures
        battle_map_starts()[1].position == opposite(battle_map_starts()[0].position),
        battle_map_starts()[0].team != battle_map_starts()[1].team,
        forall|i: int|
            0 <= i < battle_map_resources().len() ==> {
                let r = #[trigger] battle_map_resources()[i];
                let m = battle_map_resources()[opposite_deposit(i)];
                &&& m.position == opposite(r.position)
                &&& m.amount == r.amount
            },
        forall|i: int|
            0 <= i < battle_map_obstacles().len() ==> {
                let o = #[trigger] battle_map_obstacles()[i];
                let m = battle_map_obstacles()[(i + 14) % 28];
                &&& m.start == opposite(o.start)
                &&& m.end == opposite(o.end)
            },
        forall|i: int|
            0 <= i < battle_map_resources().len() ==> on_map(#[trigger] battle_map_resources()[i].position),
        forall|i: int|
            0 <= i < battle_map_obstacles().len() ==> on_map(#[trigger] battle_map_obstacles()[i].start)
                && on_map(battle_map_obstacles()[i].end),
{
    let r = battle_map_resources();
    let o = battle_map_obstacles();
    assert(r.len() == 9);
    assert(o.len() == 28);
    assert forall|i: int| 0 <= i < r.len() implies {
        let m = r[opposite_deposit(i)];
        &&& m.position == opposite(#[trigger] r[i].position)
        &&& m.amount == r[i].amount
        &&& on_map(r[i].position)
    } by {
        assert(i == 0 || i == 1 || i == 2 || i == 3 || i == 4 || i == 5 || i == 6 || i == 7 || i == 8);
    }
    assert forall|i: int| 0 <= i < o.len() implies {
        let m = o[(i + 14) % 28];
        &&& m.start == opposite(#[trigger] o[i].start)
        &&& m.end == opposite(o[i].end)
        &&& on_map(o[i].start)
        &&& on_map(o[i].end)
    } by {
        assert(i == 0 || i == 1 || i == 2 || i == 3 || i == 4 || i == 5 || i == 6 || i == 7 || i == 8 || i == 9
            || i == 10 || i == 11 || i == 12 || i == 13 || i == 14 || i == 15 || i == 16 || i == 17 || i == 18
            || i == 19 || i == 20 || i == 21 || i == 22 || i == 23 || i == 24 || i == 25 || i == 26 || i == 27);
    }
}

} // verus!
