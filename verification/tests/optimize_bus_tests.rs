use traffic_replay::gameplay::{Comparison, StatSnapshot, Statistic};
use traffic_replay::ids::BusRouteID;
use traffic_replay::optimize_bus::{
    bus_route_delays, bus_route_panel, BusFrame, OptimizeBus, StopDelay, StopLine,
};
use traffic_replay::time::Duration;

fn arrivals(max_seconds: u32) -> Option<StatSnapshot> {
    Some(StatSnapshot {
        count: 4,
        min: Duration::seconds(1),
        mean: Duration::seconds(2),
        p50: Duration::seconds(3),
        p90: Duration::seconds(4),
        p99: Duration::seconds(5),
        max: Duration::seconds(max_seconds),
    })
}

#[test]
fn panel_has_a_line_for_each_stop() {
    let now = vec![arrivals(60), arrivals(90), None, arrivals(30)];
    let baseline = vec![arrivals(60), None, arrivals(10), arrivals(45)];
    assert_eq!(
        bus_route_delays(Statistic::Max, &now, &baseline),
        vec![
            StopLine { from: 1, to: 2, delay: StopDelay::Measured(Duration::seconds(90)) },
            StopLine { from: 2, to: 3, delay: StopDelay::NoArrivals },
            StopLine {
                from: 3,
                to: 4,
                delay: StopDelay::Compared(
                    Duration::seconds(30),
                    Comparison::Faster(Duration::seconds(15))
                ),
            },
            StopLine {
                from: 4,
                to: 1,
                delay: StopDelay::Compared(Duration::seconds(60), Comparison::Same),
            },
        ]
    );
}

#[test]
fn panel_of_a_route_with_one_stop_loops_to_itself() {
    let lines = bus_route_delays(Statistic::Max, &vec![arrivals(50)], &vec![arrivals(20)]);
    assert_eq!(
        lines,
        vec![StopLine {
            from: 1,
            to: 1,
            delay: StopDelay::Compared(
                Duration::seconds(50),
                Comparison::Slower(Duration::seconds(30))
            ),
        }]
    );
}

#[test]
fn panel_of_a_route_without_stops_is_empty() {
    assert_eq!(bus_route_delays(Statistic::Max, &Vec::new(), &Vec::new()), Vec::new());
    assert_eq!(
        bus_route_panel(Statistic::Mean, &Vec::new(), &Vec::new()),
        vec!["mean delay between stops".to_string()]
    );
}

#[test]
fn panel_goes_by_the_statistic_asked_for() {
    let lines = bus_route_delays(Statistic::P50, &vec![arrivals(50), arrivals(70)], &vec![None, None]);
    assert_eq!(lines[0].delay, StopDelay::Measured(Duration::seconds(3)));
    assert_eq!(lines[1].delay, StopDelay::Measured(Duration::seconds(3)));
}

#[test]
fn every_stop_is_reached_once() {
    for stops in 1usize..8 {
        let now: Vec<Option<StatSnapshot>> = vec![None; stops];
        let lines = bus_route_delays(Statistic::Max, &now, &now);
        let mut reached: Vec<usize> = lines.iter().map(|l| l.to).collect();
        reached.sort();
        assert_eq!(reached, (1..=stops).collect::<Vec<_>>());
        let left: Vec<usize> = lines.iter().map(|l| l.from).collect();
        assert_eq!(left, (1..=stops).collect::<Vec<_>>());
    }
}

#[test]
fn panel_is_written_out() {
    let now = vec![arrivals(60), arrivals(90), None, arrivals(30)];
    let baseline = vec![arrivals(60), None, arrivals(10), arrivals(45)];
    assert_eq!(
        bus_route_panel(Statistic::Max, &now, &baseline),
        vec![
            "maximum delay between stops".to_string(),
            "Stop 1->2: 90s".to_string(),
            "Stop 2->3: no arrivals yet".to_string(),
            "Stop 3->4: 30s (15s faster)".to_string(),
            "Stop 4->1: 60s (same as baseline)".to_string(),
        ]
    );
}

#[test]
fn stop_lines_are_written_out() {
    let line = StopLine {
        from: 12,
        to: 13,
        delay: StopDelay::Compared(
            Duration::millis(61_500),
            Comparison::Slower(Duration::millis(1_500)),
        ),
    };
    assert_eq!(line.text(), "Stop 12->13: 61.500s (1.500s slower)");
    assert_eq!(StopDelay::NoArrivals.text(), "no arrivals yet");
    assert_eq!(StopDelay::Measured(Duration::seconds(5)).text(), "5s");
    let far = StopLine { from: usize::MAX, to: 1, delay: StopDelay::NoArrivals };
    assert_eq!(far.text(), format!("Stop {}->1: no arrivals yet", usize::MAX));
}

#[test]
fn bus_challenge_starts_with_the_longest_delays() {
    let challenge = OptimizeBus::new(BusRouteID(5));
    assert_eq!(
        challenge,
        OptimizeBus { route: BusRouteID(5), time: Duration::start_of_day(), stat: Statistic::Max }
    );
}

#[test]
fn bus_challenge_refreshes_the_panel_when_time_moves() {
    let mut challenge = OptimizeBus::new(BusRouteID(5));
    assert_eq!(
        challenge.event(Duration::zero(), false),
        BusFrame { refresh_panel: false, choose_statistic: false }
    );
    assert_eq!(
        challenge.event(Duration::seconds(3), false),
        BusFrame { refresh_panel: true, choose_statistic: false }
    );
    assert_eq!(challenge.time, Duration::seconds(3));
    assert_eq!(
        challenge.event(Duration::seconds(3), true),
        BusFrame { refresh_panel: false, choose_statistic: true }
    );
    assert_eq!(challenge.route, BusRouteID(5));
    assert_eq!(challenge.stat, Statistic::Max);
}

#[test]
fn new_statistic_fills_the_panel_again() {
    let mut challenge = OptimizeBus::new(BusRouteID(5));
    challenge.event(Duration::seconds(3), false);
    challenge.statistic_chosen(Statistic::P90);
    assert_eq!(
        challenge,
        OptimizeBus { route: BusRouteID(5), time: Duration::start_of_day(), stat: Statistic::P90 }
    );
    assert!(challenge.event(Duration::seconds(3), false).refresh_panel);
    assert_eq!(challenge.stat, Statistic::P90);
}

#[test]
fn baseline_may_speak_of_fewer_stops() {
    let now = vec![arrivals(60), arrivals(90), arrivals(30)];
    let baseline = vec![arrivals(50)];
    assert_eq!(
        bus_route_panel(Statistic::Max, &now, &baseline),
        vec![
            "maximum delay between stops".to_string(),
            "Stop 1->2: 90s".to_string(),
            "Stop 2->3: 30s".to_string(),
            "Stop 3->1: 60s (10s slower)".to_string(),
        ]
    );
    let longer = vec![arrivals(50), None, None, arrivals(1), arrivals(2)];
    assert_eq!(bus_route_delays(Statistic::Max, &now, &longer).len(), 3);
    assert_eq!(bus_route_delays(Statistic::Max, &Vec::new(), &longer), Vec::new());
}
