use traffic_replay::time::{time_to_tick, Duration, Tick, END_OF_DAY_MILLIS, TIMESTEP_MILLIS};

#[test]
fn tick_starts_at_zero() {
    assert_eq!(Tick::zero(), Tick(0));
    assert!(Tick::zero().is_zero());
    assert!(!Tick(1).is_zero());
}

#[test]
fn next_is_one_more() {
    assert_eq!(Tick(0).next(), Tick(1));
    assert_eq!(Tick(41).next(), Tick(42));
    assert_eq!(Tick(u32::MAX - 1).next(), Tick(u32::MAX));
}

#[test]
fn prev_undoes_next() {
    for t in [0u32, 1, 2, 99, 1_000_000, u32::MAX - 1] {
        assert_eq!(Tick(t).next().prev(), Tick(t));
        assert!(Tick(t).next().0 >= t + 1);
    }
}

#[test]
fn prev_is_one_less() {
    assert_eq!(Tick(1).prev(), Tick(0));
    assert_eq!(Tick(u32::MAX).prev(), Tick(u32::MAX - 1));
}

#[test]
fn tick_as_time_counts_whole_steps() {
    assert_eq!(TIMESTEP_MILLIS, 100);
    assert_eq!(Tick(0).as_time(), Duration { millis: 0 });
    assert_eq!(Tick(7).as_time(), Duration { millis: 700 });
    assert_eq!(Tick(u32::MAX).as_time(), Duration { millis: 429_496_729_500 });
}

#[test]
fn time_to_tick_recovers_every_tick() {
    for t in [0u32, 1, 7, 600, 863_999, u32::MAX] {
        assert_eq!(time_to_tick(Tick(t).as_time()), Some(Tick(t)));
    }
}

#[test]
fn aligned_time_round_trips() {
    for millis in [0u64, 100, 700, 86_400_000] {
        let tick = time_to_tick(Duration::millis(millis)).unwrap();
        assert_eq!(tick.as_time(), Duration::millis(millis));
    }
}

#[test]
fn time_to_tick_rounds_down_within_a_step() {
    assert_eq!(time_to_tick(Duration::millis(99)), Some(Tick(0)));
    assert_eq!(time_to_tick(Duration::millis(100)), Some(Tick(1)));
    assert_eq!(time_to_tick(Duration::millis(799)), Some(Tick(7)));
}

#[test]
fn time_to_tick_stops_where_the_clock_ends() {
    let last = Tick(u32::MAX).as_time();
    assert_eq!(time_to_tick(Duration::millis(last.millis + 99)), Some(Tick(u32::MAX)));
    assert_eq!(time_to_tick(Duration::millis(last.millis + 100)), None);
    assert_eq!(time_to_tick(Duration::millis(u64::MAX)), None);
}

#[test]
fn durations_are_built_in_milliseconds() {
    assert_eq!(Duration::zero().millis, 0);
    assert_eq!(Duration::millis(1234).millis, 1234);
    assert_eq!(Duration::seconds(30).millis, 30_000);
    assert_eq!(Duration::seconds(u32::MAX).millis, 4_294_967_295_000);
    assert_eq!(Duration::start_of_day().millis, 0);
    assert_eq!(Duration::end_of_day().millis, END_OF_DAY_MILLIS);
    assert_eq!(END_OF_DAY_MILLIS, 24 * 60 * 60 * 1000);
}

#[test]
fn durations_are_written_in_seconds() {
    assert_eq!(Duration::seconds(0).to_text(), "0s");
    assert_eq!(Duration::seconds(35).to_text(), "35s");
    assert_eq!(Duration::seconds(120).to_text(), "120s");
    assert_eq!(Duration::millis(1250).to_text(), "1.250s");
    assert_eq!(Duration::millis(7).to_text(), "0.007s");
    assert_eq!(Duration::millis(60_040).to_text(), "60.040s");
    assert_eq!(Duration::millis(u64::MAX).to_text(), "18446744073709551.615s");
}

#[test]
fn ticks_and_durations_are_ordered_by_their_count() {
    assert!(Tick(3) < Tick(4));
    assert!(Tick(0) <= Tick::zero());
    assert!(Tick(u32::MAX) > Tick(0));
    assert!(Duration::seconds(1) < Duration::millis(1_001));
    assert!(Duration::end_of_day() > Duration::start_of_day());
    assert_eq!(Duration::millis(5).max(Duration::millis(7)), Duration::millis(7));
    let mut ticks = vec![Tick(5), Tick(1), Tick(3)];
    ticks.sort();
    assert_eq!(ticks, vec![Tick(1), Tick(3), Tick(5)]);
}
