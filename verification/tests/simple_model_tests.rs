use traffic_replay::ids::{CarID, LaneID, PedestrianID, Traversable};
use traffic_replay::replay::{Car, Distance, DrawCarInput, Speed, World};
use traffic_replay::simple_model::{
    AutoMode, EventLoopMode, Frame, GetDrawAgents, Input, SimpleModelController,
};
use traffic_replay::time::{Duration, Tick};

fn lane(n: usize) -> Traversable {
    Traversable::Lane(LaneID(n))
}

fn car(id: usize, on: Traversable, start_seconds: u32, speed: u64) -> Car {
    Car {
        id: CarID(id),
        on,
        length: Distance { millimeters: 10_000 },
        start_time: Duration::seconds(start_seconds),
        start_dist: Distance { millimeters: 0 },
        speed: Speed { millimeters_per_second: speed },
    }
}

fn shown(id: usize, on: Traversable, front: u64) -> DrawCarInput {
    DrawCarInput { id: CarID(id), on, front: Distance { millimeters: front } }
}

fn world() -> World {
    World::new(vec![car(1, lane(7), 0, 1_000), car(2, lane(8), 0, 2_000), car(3, lane(7), 1, 500)])
}

fn controller() -> SimpleModelController {
    SimpleModelController::new(true, world()).unwrap()
}

fn waits() -> Frame {
    Frame { keep_open: true, mode: EventLoopMode::InputOnly }
}

fn animates() -> Frame {
    Frame { keep_open: true, mode: EventLoopMode::Animation }
}

fn run(c: &mut SimpleModelController, inputs: &[Input]) {
    for input in inputs {
        assert!(c.can_take(*input));
        c.blocking_event(*input);
    }
}

#[test]
fn controller_opens_only_when_asked() {
    assert!(SimpleModelController::new(false, world()).is_none());
    let c = controller();
    assert_eq!(c.tick(), Tick(0));
    assert_eq!(c.mode(), AutoMode::Off);
    assert!(!c.show_tooltips());
}

#[test]
fn stopped_clock_steps_by_hand() {
    let mut c = controller();
    assert_eq!(c.blocking_event(Input::Forwards), waits());
    assert_eq!(c.tick(), Tick(1));
    assert_eq!(c.blocking_event(Input::Forwards), waits());
    assert_eq!(c.tick(), Tick(2));
    assert_eq!(c.blocking_event(Input::Rewind), waits());
    assert_eq!(c.tick(), Tick(1));
    assert_eq!(c.mode(), AutoMode::Off);
}

#[test]
fn stopped_clock_cannot_rewind_below_zero() {
    let mut c = controller();
    assert_eq!(c.blocking_event(Input::Rewind), waits());
    assert_eq!(c.tick(), Tick(0));
    assert_eq!(c.mode(), AutoMode::Off);
}

#[test]
fn stopped_clock_ignores_the_animation_pulse() {
    let mut c = controller();
    run(&mut c, &[Input::Forwards, Input::Update, Input::Other, Input::Update]);
    assert_eq!(c.tick(), Tick(1));
    assert_eq!(c.mode(), AutoMode::Off);
}

#[test]
fn forwards_play_steps_on_every_pulse() {
    let mut c = controller();
    assert_eq!(c.blocking_event(Input::ToggleForwardsPlay), animates());
    assert_eq!(c.mode(), AutoMode::Forwards);
    assert_eq!(c.tick(), Tick(0));
    for n in 1..=5 {
        assert_eq!(c.blocking_event(Input::Update), animates());
        assert_eq!(c.tick(), Tick(n));
    }
    assert_eq!(c.blocking_event(Input::Other), animates());
    assert_eq!(c.blocking_event(Input::Forwards), animates());
    assert_eq!(c.blocking_event(Input::Rewind), animates());
    assert_eq!(c.blocking_event(Input::ToggleBackwardsPlay), animates());
    assert_eq!(c.tick(), Tick(5));
    assert_eq!(c.mode(), AutoMode::Forwards);
    assert_eq!(c.blocking_event(Input::ToggleForwardsPlay), animates());
    assert_eq!(c.mode(), AutoMode::Off);
    assert_eq!(c.tick(), Tick(5));
    assert_eq!(c.blocking_event(Input::Update), waits());
    assert_eq!(c.tick(), Tick(5));
}

#[test]
fn backwards_play_stops_at_zero() {
    let mut c = controller();
    run(&mut c, &[Input::Forwards, Input::Forwards, Input::Forwards]);
    assert_eq!(c.blocking_event(Input::ToggleBackwardsPlay), animates());
    assert_eq!(c.mode(), AutoMode::Backwards);
    assert_eq!(c.tick(), Tick(3));
    for n in [2, 1, 0] {
        assert_eq!(c.blocking_event(Input::Update), animates());
        assert_eq!(c.tick(), Tick(n));
        assert_eq!(c.mode(), AutoMode::Backwards);
    }
    assert_eq!(c.blocking_event(Input::Update), animates());
    assert_eq!(c.tick(), Tick(0));
    assert_eq!(c.mode(), AutoMode::Off);
    assert_eq!(c.blocking_event(Input::Update), waits());
    assert_eq!(c.tick(), Tick(0));
}

#[test]
fn backwards_play_at_zero_stops_at_once() {
    let mut c = controller();
    assert_eq!(c.blocking_event(Input::ToggleBackwardsPlay), animates());
    assert_eq!(c.mode(), AutoMode::Backwards);
    assert_eq!(c.blocking_event(Input::Other), animates());
    assert_eq!(c.mode(), AutoMode::Off);
    assert_eq!(c.tick(), Tick(0));
}

#[test]
fn backwards_play_stops_on_request() {
    let mut c = controller();
    run(&mut c, &[Input::Forwards, Input::Forwards, Input::ToggleBackwardsPlay, Input::Update]);
    assert_eq!(c.tick(), Tick(1));
    assert_eq!(c.blocking_event(Input::ToggleForwardsPlay), animates());
    assert_eq!(c.mode(), AutoMode::Backwards);
    assert_eq!(c.blocking_event(Input::ToggleBackwardsPlay), animates());
    assert_eq!(c.mode(), AutoMode::Off);
    assert_eq!(c.tick(), Tick(1));
}

#[test]
fn quit_closes_in_every_mode() {
    let closed = |mode| Frame { keep_open: false, mode };
    let mut c = controller();
    assert_eq!(c.blocking_event(Input::Quit), closed(EventLoopMode::InputOnly));
    let mut c = controller();
    run(&mut c, &[Input::ToggleForwardsPlay]);
    assert_eq!(c.blocking_event(Input::Quit), closed(EventLoopMode::Animation));
    assert_eq!(c.mode(), AutoMode::Forwards);
    let mut c = controller();
    run(&mut c, &[Input::Forwards, Input::ToggleBackwardsPlay]);
    assert_eq!(c.blocking_event(Input::Quit), closed(EventLoopMode::Animation));
    assert_eq!(c.tick(), Tick(1));
    let mut c = controller();
    run(&mut c, &[Input::ToggleBackwardsPlay]);
    assert_eq!(c.blocking_event(Input::Quit), closed(EventLoopMode::Animation));
    assert_eq!(c.mode(), AutoMode::Off);
}

#[test]
fn tooltips_toggle_on_their_own() {
    let mut c = controller();
    run(&mut c, &[Input::Forwards, Input::ToggleForwardsPlay]);
    assert_eq!(c.blocking_event(Input::ToggleTooltips), animates());
    assert!(c.show_tooltips());
    assert_eq!(c.tick(), Tick(1));
    assert_eq!(c.mode(), AutoMode::Forwards);
    run(&mut c, &[Input::Update, Input::ToggleForwardsPlay]);
    assert!(c.show_tooltips());
    assert_eq!(c.blocking_event(Input::ToggleTooltips), waits());
    assert!(!c.show_tooltips());
    assert_eq!(c.tick(), Tick(2));
    assert_eq!(c.mode(), AutoMode::Off);
}

#[test]
fn controller_hears_what_its_mode_asks_for() {
    let all = [
        Input::Rewind,
        Input::Forwards,
        Input::ToggleForwardsPlay,
        Input::ToggleBackwardsPlay,
        Input::Quit,
        Input::ToggleTooltips,
        Input::Update,
        Input::Other,
    ];
    let heard = |c: &SimpleModelController| -> Vec<Input> {
        all.iter().copied().filter(|i| c.listens_for(*i)).collect()
    };
    let mut c = controller();
    assert_eq!(
        heard(&c),
        vec![
            Input::Forwards,
            Input::ToggleForwardsPlay,
            Input::ToggleBackwardsPlay,
            Input::Quit,
            Input::ToggleTooltips
        ]
    );
    run(&mut c, &[Input::Forwards]);
    assert!(c.listens_for(Input::Rewind));
    run(&mut c, &[Input::ToggleForwardsPlay]);
    assert_eq!(
        heard(&c),
        vec![Input::ToggleForwardsPlay, Input::Quit, Input::ToggleTooltips, Input::Update]
    );
    run(&mut c, &[Input::ToggleForwardsPlay, Input::ToggleBackwardsPlay]);
    assert_eq!(
        heard(&c),
        vec![Input::ToggleBackwardsPlay, Input::Quit, Input::ToggleTooltips, Input::Update]
    );
    run(&mut c, &[Input::Update]);
    assert_eq!(c.tick(), Tick(0));
    assert_eq!(heard(&c), vec![Input::Quit, Input::ToggleTooltips]);
}

#[test]
fn unheard_input_changes_nothing() {
    let all = [
        Input::Rewind,
        Input::Forwards,
        Input::ToggleForwardsPlay,
        Input::ToggleBackwardsPlay,
        Input::Update,
    ];
    let setups: [&[Input]; 4] = [
        &[],
        &[Input::Forwards, Input::ToggleForwardsPlay],
        &[Input::Forwards, Input::ToggleBackwardsPlay],
        &[Input::ToggleBackwardsPlay],
    ];
    for setup in setups {
        for input in all {
            let mut one = controller();
            let mut other = controller();
            run(&mut one, setup);
            run(&mut other, setup);
            if !one.listens_for(input) {
                let frame = one.blocking_event(input);
                assert_eq!(frame, other.blocking_event(Input::Other));
                assert_eq!(one.tick(), other.tick());
                assert_eq!(one.mode(), other.mode());
            }
        }
    }
}

#[test]
fn controller_shows_the_cars_of_its_tick() {
    let mut c = controller();
    assert_eq!(c.get_all_draw_cars(), vec![shown(1, lane(7), 0), shown(2, lane(8), 0)]);
    run(&mut c, &[Input::Forwards; 15]);
    assert_eq!(c.tick(), Tick(15));
    assert_eq!(
        c.get_all_draw_cars(),
        vec![shown(1, lane(7), 1_500), shown(2, lane(8), 3_000), shown(3, lane(7), 250)]
    );
    assert_eq!(c.get_draw_cars(lane(7)), vec![shown(1, lane(7), 1_500), shown(3, lane(7), 250)]);
    assert_eq!(c.get_draw_cars(lane(8)), vec![shown(2, lane(8), 3_000)]);
    assert_eq!(c.get_draw_cars(lane(9)), Vec::new());
    assert_eq!(c.get_draw_car(CarID(3)), Some(shown(3, lane(7), 250)));
    assert_eq!(c.get_draw_car(CarID(4)), None);
    run(&mut c, &[Input::Rewind; 6]);
    assert_eq!(c.get_draw_car(CarID(3)), None);
    assert_eq!(c.get_draw_car(CarID(2)), Some(shown(2, lane(8), 1_800)));
}

#[test]
fn rewinding_shows_what_was_shown_before() {
    let mut c = controller();
    let mut seen = Vec::new();
    for _ in 0..20 {
        seen.push(c.get_all_draw_cars());
        run(&mut c, &[Input::Forwards]);
    }
    for n in (0..20).rev() {
        run(&mut c, &[Input::Rewind]);
        assert_eq!(c.tick(), Tick(n));
        assert_eq!(c.get_all_draw_cars(), seen[n as usize]);
        assert_eq!(c.get_all_draw_cars(), seen[n as usize]);
    }
}

#[test]
fn controller_has_no_pedestrians() {
    let mut c = controller();
    run(&mut c, &[Input::Forwards; 3]);
    assert_eq!(c.get_draw_ped(PedestrianID(1)), None);
    assert_eq!(c.get_draw_peds(lane(7)), Vec::new());
    assert_eq!(c.get_all_draw_peds(), Vec::new());
}

#[test]
fn tooltips_label_the_cars_shown() {
    let mut c = controller();
    run(&mut c, &[Input::Forwards; 10]);
    assert_eq!(c.draw(), Vec::new());
    run(&mut c, &[Input::ToggleTooltips]);
    assert_eq!(c.draw(), c.get_all_draw_cars());
    assert_eq!(c.draw().len(), 3);
    run(&mut c, &[Input::ToggleTooltips]);
    assert_eq!(c.draw(), Vec::new());
}

#[test]
fn controller_takes_every_input_within_reach() {
    let mut c = controller();
    for input in [Input::Forwards, Input::Update, Input::Rewind, Input::Quit, Input::Other] {
        assert!(c.can_take(input));
    }
    run(&mut c, &[Input::ToggleForwardsPlay]);
    assert!(c.can_take(Input::Update));
    assert!(c.can_take(Input::Forwards));
}
