//! Identifiers of map objects and agents. They are opaque keys: the library
//! only compares them.

use vstd::prelude::*;

verus! {

/// A road.
#[derive(Clone, Copy, PartialEq, Eq, Structural, Debug, Hash)]
pub struct RoadID(pub usize);

/// A lane of a road.
#[derive(Clone, Copy, PartialEq, Eq, Structural, Debug, Hash)]
pub struct LaneID(pub usize);

/// An intersection.
#[derive(Clone, Copy, PartialEq, Eq, Structural, Debug, Hash)]
pub struct IntersectionID(pub usize);

/// A movement through an intersection, from one lane to another.
#[derive(Clone, Copy, PartialEq, Eq, Structural, Debug, Hash)]
pub struct TurnID {
    pub parent: IntersectionID,
    pub src: LaneID,
    pub dst: LaneID,
}

/// A building.
#[derive(Clone, Copy, PartialEq, Eq, Structural, Debug, Hash)]
pub struct BuildingID(pub usize);

/// A shape drawn on the map that is not part of it.
#[derive(Clone, Copy, PartialEq, Eq, Structural, Debug, Hash)]
pub struct ExtraShapeID(pub usize);

/// A bus stop.
#[derive(Clone, Copy, PartialEq, Eq, Structural, Debug, Hash)]
pub struct BusStopID(pub usize);

/// An area, such as a park or a lake.
#[derive(Clone, Copy, PartialEq, Eq, Structural, Debug, Hash)]
pub struct AreaID(pub usize);

/// A trip of an agent.
#[derive(Clone, Copy, PartialEq, Eq, Structural, Debug, Hash)]
pub struct TripID(pub usize);

/// A car.
#[derive(Clone, Copy, PartialEq, Eq, Structural, Debug, Hash)]
pub struct CarID(pub usize);

/// A pedestrian.
#[derive(Clone, Copy, PartialEq, Eq, Structural, Debug, Hash)]
pub struct PedestrianID(pub usize);

/// A bus route.
#[derive(Clone, Copy, PartialEq, Eq, Structural, Debug, Hash)]
pub struct BusRouteID(pub usize);

/// Something an agent can be on: a lane, or a turn between two lanes.
#[derive(Clone, Copy, PartialEq, Eq, Structural, Debug, Hash)]
pub enum Traversable {
    Lane(LaneID),
    Turn(TurnID),
}

/// An object of the map or the simulation that the user can select.
#[derive(Clone, Copy, PartialEq, Eq, Structural, Debug, Hash)]
pub enum ID {
    Road(RoadID),
    Lane(LaneID),
    Intersection(IntersectionID),
    Turn(TurnID),
    Building(BuildingID),
    Car(CarID),
    Pedestrian(PedestrianID),
    ExtraShape(ExtraShapeID),
    BusStop(BusStopID),
    Area(AreaID),
    Trip(TripID),
}

} // verus!
