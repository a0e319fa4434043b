//! A small stand-in world for the simulation: a handful of cars, each running
//! down one lane at a steady speed. Where every car is at a given time follows
//! from the plan alone, so the world can be asked about any time, in any
//! order, and always gives the same answer.

use crate::ids::{CarID, PedestrianID, Traversable};
use crate::seqs::{lemma_filter_of_none, lemma_filter_one_more, lemma_take_all};
use crate::time::Duration;
use vstd::prelude::*;

verus! {

/// A length along a lane or a turn, in millimetres.
#[derive(Clone, Copy, PartialEq, Eq, Structural, PartialOrd, Ord, Debug, Hash)]
pub struct Distance {
    pub millimeters: u64,
}

/// A speed, in millimetres per second.
#[derive(Clone, Copy, PartialEq, Eq, Structural, PartialOrd, Ord, Debug, Hash)]
pub struct Speed {
    pub millimeters_per_second: u64,
}

/// Where a car is at one moment.
#[derive(Clone, Copy, PartialEq, Eq, Structural, Debug)]
pub struct DrawCarInput {
    pub id: CarID,
    /// What the car is on.
    pub on: Traversable,
    /// How far along it the front of the car is.
    pub front: Distance,
}

/// Where a pedestrian is at one moment.
#[derive(Clone, Copy, PartialEq, Eq, Structural, Debug)]
pub struct DrawPedestrianInput {
    pub id: PedestrianID,
    /// What the pedestrian is on.
    pub on: Traversable,
    /// How far along it the pedestrian is.
    pub pos: Distance,
}

/// The plan of one car: it appears at `start_time`, `start_dist` along `on`,
/// runs at `speed` to the end, and stays there.
#[derive(Clone, Copy, PartialEq, Eq, Structural, Debug)]
pub struct Car {
    pub id: CarID,
    pub on: Traversable,
    /// The length of what the car is on.
    pub length: Distance,
    pub start_time: Duration,
    pub start_dist: Distance,
    pub speed: Speed,
}

/// Whether the car has appeared by time `t`, in milliseconds.
pub open spec fn is_present(car: Car, t: nat) -> bool {
    car.start_time.millis <= t
}

/// How far along the front of the car is at time `t`, in millimetres.
pub open spec fn position_at(car: Car, t: nat) -> nat
    recommends
        is_present(car, t),
{
    let gone = car.speed.millimeters_per_second as nat * ((t - car.start_time.millis) as nat)
        / 1000;
    if car.start_dist.millimeters + gone >= car.length.millimeters {
        car.length.millimeters as nat
    } else {
        car.start_dist.millimeters as nat + gone
    }
}

/// Where the car is at time `t`.
pub open spec fn car_at(car: Car, t: nat) -> DrawCarInput {
    DrawCarInput {
        id: car.id,
        on: car.on,
        front: Distance { millimeters: position_at(car, t) as u64 },
    }
}

/// Where the car is at time `t`, where it has appeared by then.
pub open spec fn shown_at(car: Car, t: nat) -> Option<DrawCarInput> {
    if is_present(car, t) {
        Some(car_at(car, t))
    } else {
        None
    }
}

/// Where the cars that have appeared by time `t` are, in the order of the
/// plan.
pub open spec fn snapshot(cars: Seq<Car>, t: nat) -> Seq<DrawCarInput> {
    cars.filter(|c: Car| is_present(c, t)).map_values(|c: Car| car_at(c, t))
}

/// `found` is what a search for the first car with `id` gives.
pub open spec fn is_first_with_id(
    cars: Seq<DrawCarInput>,
    id: CarID,
    found: Option<DrawCarInput>,
) -> bool {
    match found {
        Some(car) => exists|i: int|
            {
                &&& 0 <= i < cars.len()
                &&& #[trigger] cars[i] == car
                &&& car.id == id
                &&& forall|j: int| 0 <= j < i ==> (#[trigger] cars[j]).id != id
            },
        None => forall|j: int| 0 <= j < cars.len() ==> (#[trigger] cars[j]).id != id,
    }
}

/// Those of `cars` that are on `on`, in their order.
pub open spec fn cars_on(cars: Seq<DrawCarInput>, on: Traversable) -> Seq<DrawCarInput> {
    cars.filter(|c: DrawCarInput| c.on == on)
}

/// A car never goes backwards, and never past the end of what it is on.
pub proof fn lemma_position_grows(car: Car, earlier: nat, later: nat)
    requires
        is_present(car, earlier),
        earlier <= later,
    ensures
        position_at(car, earlier) <= position_at(car, later) <= car.length.millimeters,
{
    let speed = car.speed.millimeters_per_second as int;
    let a = (earlier - car.start_time.millis) as int;
    let b = (later - car.start_time.millis) as int;
    assert(speed * a <= speed * b) by (nonlinear_arith)
        requires
            0 <= speed,
            0 <= a <= b,
    ;
    assert(speed * a / 1000 <= speed * b / 1000) by {
        vstd::arithmetic::div_mod::lemma_div_is_ordered(speed * a, speed * b, 1000);
    }
}

/// What the world shows depends on the plan and the time alone: two answers
/// for the same time are the same, car for car, whatever was asked between.
pub proof fn lemma_same_time_same_cars(
    cars: Seq<Car>,
    t: nat,
    first: Seq<DrawCarInput>,
    second: Seq<DrawCarInput>,
)
    requires
        first == snapshot(cars, t),
        second == snapshot(cars, t),
    ensures
        first == second,
        first.len() == second.len(),
        forall|i: int| 0 <= i < first.len() ==> first[i] == second[i],
{
}

/// Every car that is shown is a car of the plan, where the plan puts it at
/// that time; and no car is shown before it appears.
pub proof fn lemma_shown_cars_follow_the_plan(cars: Seq<Car>, t: nat, i: int)
    requires
        0 <= i < snapshot(cars, t).len(),
    ensures
        exists|k: int|
            0 <= k < cars.len() && is_present(#[trigger] cars[k], t) && snapshot(cars, t)[i]
                == car_at(cars[k], t),
        snapshot(cars, t).len() <= cars.len(),
{
    let present = |c: Car| is_present(c, t);
    let kept = cars.filter(present);
    cars.lemma_filter_len(present);
    cars.lemma_filter_pred(present, i);
    cars.lemma_filter_contains_rev(present, kept[i]);
    let k = choose|k: int| 0 <= k < cars.len() && cars[k] == kept[i];
    assert(is_present(cars[k], t));
}

/// A car that has appeared stays.
pub proof fn lemma_presence_lasts(car: Car, earlier: nat, later: nat)
    requires
        is_present(car, earlier),
        earlier <= later,
    ensures
        is_present(car, later),
{
}

/// A search has one outcome: two answers to the same question agree.
pub proof fn lemma_first_with_id_is_unique(
    cars: Seq<DrawCarInput>,
    id: CarID,
    a: Option<DrawCarInput>,
    b: Option<DrawCarInput>,
)
    requires
        is_first_with_id(cars, id, a),
        is_first_with_id(cars, id, b),
    ensures
        a == b,
{
    if a is Some && b is Some {
        let i = choose|i: int|
            {
                &&& 0 <= i < cars.len()
                &&& #[trigger] cars[i] == a->0
                &&& (a->0).id == id
                &&& forall|j: int| 0 <= j < i ==> (#[trigger] cars[j]).id != id
            };
        let k = choose|k: int|
            {
                &&& 0 <= k < cars.len()
                &&& #[trigger] cars[k] == b->0
                &&& (b->0).id == id
                &&& forall|j: int| 0 <= j < k ==> (#[trigger] cars[j]).id != id
            };
        if i < k {
            assert(cars[i].id != id);
        } else if k < i {
            assert(cars[k].id != id);
        }
    } else if a is Some {
        let i = choose|i: int|
            {
                &&& 0 <= i < cars.len()
                &&& #[trigger] cars[i] == a->0
                &&& (a->0).id == id
                &&& forall|j: int| 0 <= j < i ==> (#[trigger] cars[j]).id != id
            };
        assert(cars[i].id != id);
    } else if b is Some {
        let k = choose|k: int|
            {
                &&& 0 <= k < cars.len()
                &&& #[trigger] cars[k] == b->0
                &&& (b->0).id == id
                &&& forall|j: int| 0 <= j < k ==> (#[trigger] cars[j]).id != id
            };
        assert(cars[k].id != id);
    }
}

impl Car {
    /// Where the car is at `time`; nowhere before it appears.
    pub fn at(&self, time: Duration) -> (shown: Option<DrawCarInput>)
        ensures
            shown == shown_at(*self, time.millis as nat),
    {
        if time.millis < self.start_time.millis {
            return None;
        }
        let elapsed: u128 = (time.millis - self.start_time.millis) as u128;
        let speed: u128 = self.speed.millimeters_per_second as u128;
        assert(speed * elapsed <= 0xffff_ffff_ffff_ffff * 0xffff_ffff_ffff_ffff)
            by (nonlinear_arith)
            requires
                speed <= 0xffff_ffff_ffff_ffff,
                elapsed <= 0xffff_ffff_ffff_ffff,
        ;
        let gone: u128 = speed * elapsed / 1000;
        let reached: u128 = self.start_dist.millimeters as u128 + gone;
        let front = if reached >= self.length.millimeters as u128 {
            self.length
        } else {
            Distance { millimeters: reached as u64 }
        };
        Some(DrawCarInput { id: self.id, on: self.on, front })
    }
}

/// The stand-in world.
#[derive(Debug)]
pub struct World {
    cars: Vec<Car>,
}

impl View for World {
    type V = Seq<Car>;

    closed spec fn view(&self) -> Seq<Car> {
        self.cars@
    }
}

impl World {
    /// A world of the given cars.
    pub fn new(cars: Vec<Car>) -> (world: World)
        ensures
            world@ == cars@,
    {
        World { cars }
    }

    /// Where the cars are at `time`: every car that has appeared by then, in
    /// the order of the plan.
    pub fn get_draw_cars(&self, time: Duration) -> (shown: Vec<DrawCarInput>)
        ensures
            shown@ == snapshot(self@, time.millis as nat),
    {
        let ghost t = time.millis as nat;
        let ghost present = |c: Car| is_present(c, t);
        let ghost place = |c: Car| car_at(c, t);
        let mut shown: Vec<DrawCarInput> = Vec::new();
        let mut i: usize = 0;
        proof {
            lemma_filter_of_none(self.cars@, present);
            assert(shown@ =~= self.cars@.take(0).filter(present).map_values(place));
        }
        while i < self.cars.len()
            invariant
                i <= self.cars.len(),
                t == time.millis,
                present == |c: Car| is_present(c, t),
                place == |c: Car| car_at(c, t),
                shown@ == self.cars@.take(i as int).filter(present).map_values(place),
            decreases self.cars.len() - i,
        {
            let car = self.cars[i];
            proof {
                lemma_filter_one_more(self.cars@, i as int, present);
            }
            match car.at(time) {
                Some(there) => {
                    shown.push(there);
                    assert(shown@ =~= self.cars@.take(i + 1).filter(present).map_values(place));
                },
                None => {},
            }
            i += 1;
        }
        proof {
            lemma_take_all(self.cars@);
        }
        shown
    }
}

/// The first of `cars` with the given id.
pub fn find_car(cars: &Vec<DrawCarInput>, id: CarID) -> (found: Option<DrawCarInput>)
    ensures
        is_first_with_id(cars@, id, found),
{
    let mut i: usize = 0;
    while i < cars.len()
        invariant
            i <= cars.len(),
            forall|j: int| 0 <= j < i ==> (#[trigger] cars@[j]).id != id,
        decreases cars.len() - i,
    {
        if cars[i].id == id {
            return Some(cars[i]);
        }
        i += 1;
    }
    None
}

/// Those of `cars` that are on `on`, in their order.
pub fn filter_cars_on(cars: &Vec<DrawCarInput>, on: Traversable) -> (kept: Vec<DrawCarInput>)
    ensures
        kept@ == cars_on(cars@, on),
{
    let ghost there = |c: DrawCarInput| c.on == on;
    let mut kept: Vec<DrawCarInput> = Vec::new();
    let mut i: usize = 0;
    proof {
        lemma_filter_of_none(cars@, there);
    }
    while i < cars.len()
        invariant
            i <= cars.len(),
            there == |c: DrawCarInput| c.on == on,
            kept@ == cars@.take(i as int).filter(there),
        decreases cars.len() - i,
    {
        proof {
            lemma_filter_one_more(cars@, i as int, there);
        }
        if cars[i].on == on {
            kept.push(cars[i]);
        }
        i += 1;
    }
    proof {
        lemma_take_all(cars@);
    }
    kept
}

} // verus!
