//! The tutorial scenarios: who enters the map where, and where they go.

use crate::ids::IntersectionID;
use crate::time::Duration;
use vstd::prelude::*;

verus! {

/// Milliseconds over which the agents of a tutorial scenario enter.
pub const SPAWN_WINDOW_MILLIS: u64 = 300_000;

/// Agents that enter the map at one border intersection over a span of time,
/// all bound for another.
#[derive(Clone, Copy, PartialEq, Eq, Structural, Debug)]
pub struct BorderSpawnOverTime {
    pub num_peds: usize,
    pub num_cars: usize,
    pub num_bikes: usize,
    pub start_time: Duration,
    pub stop_time: Duration,
    /// The border intersection at which the agents enter.
    pub start_from_border: IntersectionID,
    /// The border intersection at which they leave.
    pub goal: IntersectionID,
}

#[derive(Debug)]
pub struct Scenario {
    pub scenario_name: String,
    pub border_spawn_over_time: Vec<BorderSpawnOverTime>,
}

/// The agents that a tutorial scenario sends from `from` to `to`.
pub open spec fn spawn_of(
    from: IntersectionID,
    to: IntersectionID,
    num_cars: usize,
    num_peds: usize,
) -> BorderSpawnOverTime {
    BorderSpawnOverTime {
        num_peds,
        num_cars,
        num_bikes: 0,
        start_time: Duration { millis: 0 },
        stop_time: Duration { millis: SPAWN_WINDOW_MILLIS },
        start_from_border: from,
        goal: to,
    }
}

/// Cars only.
pub open spec fn driving(from: IntersectionID, to: IntersectionID) -> BorderSpawnOverTime {
    spawn_of(from, to, 100, 0)
}

/// Pedestrians only.
pub open spec fn walking(from: IntersectionID, to: IntersectionID) -> BorderSpawnOverTime {
    spawn_of(from, to, 0, 100)
}

/// The traffic of the first tutorial level: between each two of the four
/// borders, both ways.
pub open spec fn lvl1_spawns() -> Seq<BorderSpawnOverTime> {
    let north = IntersectionID(2);
    let south = IntersectionID(3);
    let left = IntersectionID(1);
    let right = IntersectionID(0);
    seq![
        driving(south, north),
        driving(north, south),
        driving(south, left),
        driving(north, right),
        driving(south, right),
        driving(north, left),
        driving(left, right),
        driving(right, left),
        driving(left, south),
        driving(right, north),
        driving(left, north),
        driving(right, south),
    ]
}

/// What the second tutorial level adds to the first: pedestrians.
pub open spec fn lvl2_extra_spawns() -> Seq<BorderSpawnOverTime> {
    let north = IntersectionID(3);
    let south = IntersectionID(3);
    let left = IntersectionID(1);
    let right = IntersectionID(0);
    seq![walking(south, north), walking(north, south), walking(left, right), walking(right, left)]
}

/// The first level sends a hundred cars each way between every two borders,
/// and nobody on foot or by bike.
pub proof fn lemma_lvl1_is_all_cars()
    ensures
        lvl1_spawns().len() == 12,
        forall|i: int|
            0 <= i < 12 ==> {
                let s = #[trigger] lvl1_spawns()[i];
                &&& s.num_cars == 100
                &&& s.num_peds == 0
                &&& s.num_bikes == 0
                &&& s.start_from_border != s.goal
                &&& s.start_time.millis < s.stop_time.millis
            },
        forall|i: int, j: int|
            0 <= i < j < 12 ==> {
                ||| (#[trigger] lvl1_spawns()[i]).start_from_border != (
                #[trigger] lvl1_spawns()[j]).start_from_border
                ||| lvl1_spawns()[i].goal != lvl1_spawns()[j].goal
            },
{
}

fn spawn(
    s: &mut Scenario,
    from: IntersectionID,
    to: IntersectionID,
    num_cars: usize,
    num_peds: usize,
)
    ensures
        final(s).scenario_name == old(s).scenario_name,
        final(s).border_spawn_over_time@ == old(s).border_spawn_over_time@.push(
            spawn_of(from, to, num_cars, num_peds),
        ),
{
    s.border_spawn_over_time.push(
        BorderSpawnOverTime {
            num_peds,
            num_cars,
            num_bikes: 0,
            start_time: Duration::start_of_day(),
            stop_time: Duration::millis(SPAWN_WINDOW_MILLIS),
            start_from_border: from,
            goal: to,
        },
    );
}

fn heavy(s: &mut Scenario, from: IntersectionID, to: IntersectionID)
    ensures
        final(s).scenario_name == old(s).scenario_name,
        final(s).border_spawn_over_time@ == old(s).border_spawn_over_time@.push(driving(from, to)),
{
    spawn(s, from, to, 100, 0);
}

fn heavy_peds(s: &mut Scenario, from: IntersectionID, to: IntersectionID)
    ensures
        final(s).scenario_name == old(s).scenario_name,
        final(s).border_spawn_over_time@ == old(s).border_spawn_over_time@.push(walking(from, to)),
{
    spawn(s, from, to, 0, 100);
}

fn medium(s: &mut Scenario, from: IntersectionID, to: IntersectionID)
    ensures
        final(s).scenario_name == old(s).scenario_name,
        final(s).border_spawn_over_time@ == old(s).border_spawn_over_time@.push(driving(from, to)),
{
    spawn(s, from, to, 100, 0);
}

fn light(s: &mut Scenario, from: IntersectionID, to: IntersectionID)
    ensures
        final(s).scenario_name == old(s).scenario_name,
        final(s).border_spawn_over_time@ == old(s).border_spawn_over_time@.push(driving(from, to)),
{
    spawn(s, from, to, 100, 0);
}

/// The first tutorial level: traffic that calls for a left turn phase of its
/// own on the main road.
pub fn tutorial_scenario_lvl1() -> (s: Scenario)
    ensures
        s.scenario_name@ == "tutorial lvl1"@,
        s.border_spawn_over_time@ == lvl1_spawns(),
{
    let north = IntersectionID(2);
    let south = IntersectionID(3);
    let left = IntersectionID(1);
    let right = IntersectionID(0);

    let mut s = Scenario {
        scenario_name: String::from_str("tutorial lvl1"),
        border_spawn_over_time: Vec::new(),
    };

    // Main road, straight on
    heavy(&mut s, south, north);
    heavy(&mut s, north, south);
    // Main road, left turns
    medium(&mut s, south, left);
    medium(&mut s, north, right);
    // Main road, right turns
    light(&mut s, south, right);
    light(&mut s, north, left);

    // Side road, straight on
    medium(&mut s, left, right);
    medium(&mut s, right, left);
    // Side road, right turns
    medium(&mut s, left, south);
    medium(&mut s, right, north);
    // Side road, left turns
    light(&mut s, left, north);
    light(&mut s, right, south);

    assert(s.border_spawn_over_time@ =~= lvl1_spawns());
    s
}

/// The second tutorial level: the first, with pedestrians enough to call for
/// a phase in which they alone cross.
pub fn tutorial_scenario_lvl2() -> (s: Scenario)
    ensures
        s.scenario_name@ == "tutorial lvl2"@,
        s.border_spawn_over_time@ == lvl1_spawns() + lvl2_extra_spawns(),
{
    let north = IntersectionID(3);
    let south = IntersectionID(3);
    let left = IntersectionID(1);
    let right = IntersectionID(0);

    let mut s = tutorial_scenario_lvl1();
    s.scenario_name = String::from_str("tutorial lvl2");

    heavy_peds(&mut s, south, north);
    heavy_peds(&mut s, north, south);
    heavy_peds(&mut s, left, right);
    heavy_peds(&mut s, right, left);

    assert(s.border_spawn_over_time@ =~= lvl1_spawns() + lvl2_extra_spawns());
    s
}

} // verus!
