use traffic_replay::ids::{CarID, IntersectionID, LaneID, Traversable, TurnID};
use traffic_replay::replay::{
    filter_cars_on, find_car, Car, Distance, DrawCarInput, Speed, World,
};
use traffic_replay::time::{Duration, Tick};

fn lane(n: usize) -> Traversable {
    Traversable::Lane(LaneID(n))
}

fn car(id: usize, on: Traversable, start_seconds: u32, start_dist: u64, speed: u64) -> Car {
    Car {
        id: CarID(id),
        on,
        length: Distance { millimeters: 10_000 },
        start_time: Duration::seconds(start_seconds),
        start_dist: Distance { millimeters: start_dist },
        speed: Speed { millimeters_per_second: speed },
    }
}

fn shown(id: usize, on: Traversable, front: u64) -> DrawCarInput {
    DrawCarInput { id: CarID(id), on, front: Distance { millimeters: front } }
}

fn front(car: &Car, time: Duration) -> u64 {
    car.at(time).unwrap().front.millimeters
}

fn small_world() -> World {
    World::new(vec![
        car(1, lane(7), 0, 0, 1_000),
        car(2, lane(8), 1, 500, 2_000),
        car(3, lane(7), 5, 9_000, 100),
    ])
}

#[test]
fn car_runs_at_its_speed() {
    let c = car(2, lane(8), 1, 500, 2_000);
    assert_eq!(c.at(Duration::seconds(1)), Some(shown(2, lane(8), 500)));
    assert_eq!(c.at(Duration::millis(2_500)), Some(shown(2, lane(8), 3_500)));
    assert_eq!(c.at(Duration::millis(1_001)), Some(shown(2, lane(8), 502)));
}

#[test]
fn car_is_nowhere_before_it_appears() {
    let c = car(2, lane(8), 1, 500, 2_000);
    assert_eq!(c.at(Duration::zero()), None);
    assert_eq!(c.at(Duration::millis(999)), None);
    assert!(c.at(Duration::millis(1_000)).is_some());
}

#[test]
fn car_position_is_rounded_down() {
    let c = car(1, lane(8), 0, 0, 3);
    assert_eq!(front(&c, Duration::millis(333)), 0);
    assert_eq!(front(&c, Duration::millis(334)), 1);
    assert_eq!(front(&c, Duration::millis(500)), 1);
    assert_eq!(front(&c, Duration::millis(999)), 2);
    assert_eq!(front(&c, Duration::millis(1_000)), 3);
}

#[test]
fn car_stops_at_the_end() {
    let c = car(2, lane(8), 1, 500, 2_000);
    assert_eq!(front(&c, Duration::millis(5_749)), 9_998);
    assert_eq!(front(&c, Duration::millis(5_750)), 10_000);
    assert_eq!(front(&c, Duration::seconds(10)), 10_000);
    assert_eq!(front(&c, Duration::millis(u64::MAX)), 10_000);
}

#[test]
fn car_that_starts_past_the_end_is_put_at_the_end() {
    let c = car(2, lane(8), 0, 20_000, 0);
    assert_eq!(front(&c, Duration::seconds(0)), 10_000);
}

#[test]
fn car_position_takes_the_largest_values() {
    let c = Car {
        id: CarID(1),
        on: lane(1),
        length: Distance { millimeters: u64::MAX },
        start_time: Duration::zero(),
        start_dist: Distance { millimeters: u64::MAX - 1 },
        speed: Speed { millimeters_per_second: u64::MAX },
    };
    assert_eq!(front(&c, Duration::millis(u64::MAX)), u64::MAX);
    assert_eq!(front(&c, Duration::zero()), u64::MAX - 1);
    let slow = Car { speed: Speed { millimeters_per_second: 0 }, ..c };
    assert_eq!(front(&slow, Duration::millis(u64::MAX)), u64::MAX - 1);
}

#[test]
fn car_never_goes_backwards() {
    let c = car(2, lane(8), 1, 500, 1_234);
    let mut last = 0;
    for millis in (1_000u64..12_000).step_by(37) {
        let reached = front(&c, Duration::millis(millis));
        assert!(reached >= last);
        assert!(reached <= 10_000);
        last = reached;
    }
}

#[test]
fn world_shows_the_cars_that_have_appeared() {
    let world = small_world();
    assert_eq!(world.get_draw_cars(Duration::zero()), vec![shown(1, lane(7), 0)]);
    assert_eq!(
        world.get_draw_cars(Duration::seconds(2)),
        vec![shown(1, lane(7), 2_000), shown(2, lane(8), 2_500)]
    );
    assert_eq!(
        world.get_draw_cars(Duration::seconds(6)),
        vec![shown(1, lane(7), 6_000), shown(2, lane(8), 10_000), shown(3, lane(7), 9_100)]
    );
    assert_eq!(
        world.get_draw_cars(Duration::millis(4_999)),
        vec![shown(1, lane(7), 4_999), shown(2, lane(8), 8_498)]
    );
}

#[test]
fn empty_world_shows_nothing() {
    assert_eq!(World::new(Vec::new()).get_draw_cars(Duration::seconds(3)), Vec::new());
    let late = World::new(vec![car(1, lane(7), 10, 0, 1)]);
    assert_eq!(late.get_draw_cars(Duration::millis(9_999)), Vec::new());
}

#[test]
fn same_time_gives_the_same_cars() {
    let world = small_world();
    for tick in [0u32, 1, 10, 49, 50, 51, 1_000, u32::MAX] {
        let time = Tick(tick).as_time();
        let first = world.get_draw_cars(time);
        let second = world.get_draw_cars(time);
        assert_eq!(first, second);
    }
}

#[test]
fn world_can_be_asked_in_any_order() {
    let world = small_world();
    let times = [0u64, 100, 2_000, 6_000, 600_000];
    let forwards: Vec<_> = times.iter().map(|t| world.get_draw_cars(Duration::millis(*t))).collect();
    let mut backwards: Vec<_> =
        times.iter().rev().map(|t| world.get_draw_cars(Duration::millis(*t))).collect();
    backwards.reverse();
    assert_eq!(forwards, backwards);
    assert_eq!(world.get_draw_cars(Duration::millis(2_000)), forwards[2]);
}

#[test]
fn find_car_gives_the_first_match() {
    let cars = vec![shown(1, lane(7), 10), shown(2, lane(8), 20), shown(1, lane(9), 30)];
    assert_eq!(find_car(&cars, CarID(1)), Some(shown(1, lane(7), 10)));
    assert_eq!(find_car(&cars, CarID(2)), Some(shown(2, lane(8), 20)));
    assert_eq!(find_car(&cars, CarID(3)), None);
    assert_eq!(find_car(&Vec::new(), CarID(1)), None);
}

#[test]
fn filter_keeps_the_cars_on_the_lane() {
    let turn = Traversable::Turn(TurnID {
        parent: IntersectionID(1),
        src: LaneID(7),
        dst: LaneID(8),
    });
    let cars = vec![
        shown(1, lane(7), 10),
        shown(2, lane(8), 20),
        shown(3, lane(7), 30),
        shown(4, turn, 40),
    ];
    assert_eq!(filter_cars_on(&cars, lane(7)), vec![shown(1, lane(7), 10), shown(3, lane(7), 30)]);
    assert_eq!(filter_cars_on(&cars, lane(8)), vec![shown(2, lane(8), 20)]);
    assert_eq!(filter_cars_on(&cars, turn), vec![shown(4, turn, 40)]);
    assert_eq!(filter_cars_on(&cars, lane(9)), Vec::new());
    assert_eq!(filter_cars_on(&Vec::new(), lane(7)), Vec::new());
}
