//! The controller of the replay: a clock that the user steps or lets run,
//! forwards or backwards, over the stand-in world, and the source of cars to
//! draw that the renderer sees in it.

use crate::ids::{CarID, PedestrianID, Traversable};
use crate::replay::{
    cars_on, filter_cars_on, find_car, is_first_with_id, snapshot, Car, DrawCarInput,
    DrawPedestrianInput, World,
};
use crate::time::{next_of, prev_of, time_of_tick, Tick};
use vstd::prelude::*;

verus! {

/// Whether the clock runs by itself, and which way.
#[derive(Clone, Copy, PartialEq, Eq, Structural, Debug)]
pub enum AutoMode {
    Off,
    Forwards,
    Backwards,
}

/// What came in for one frame.
#[derive(Clone, Copy, PartialEq, Eq, Structural, Debug)]
pub enum Input {
    /// Step back by one tick.
    Rewind,
    /// Step forward by one tick.
    Forwards,
    ToggleForwardsPlay,
    ToggleBackwardsPlay,
    Quit,
    ToggleTooltips,
    /// The pulse of an animation frame.
    Update,
    /// Anything else.
    Other,
}

/// How the host is to wait for the next frame.
#[derive(Clone, Copy, PartialEq, Eq, Structural, Debug)]
pub enum EventLoopMode {
    /// Until there is input.
    InputOnly,
    /// No longer than an animation frame.
    Animation,
}

/// What the host is to do after a frame.
#[derive(Clone, Copy, PartialEq, Eq, Structural, Debug)]
pub struct Frame {
    /// Whether the controller goes on; otherwise it is to be closed.
    pub keep_open: bool,
    pub mode: EventLoopMode,
}

/// The state of the controller, but for the world.
#[derive(Clone, Copy, PartialEq, Eq, Structural, Debug)]
pub struct Playback {
    pub tick: Tick,
    pub mode: AutoMode,
    pub show_tooltips: bool,
}

/// Whether a frame moves the clock one tick forward.
pub open spec fn steps_forward(state: Playback, input: Input) -> bool {
    match state.mode {
        AutoMode::Off => input == Input::Forwards,
        AutoMode::Forwards => input == Input::Update,
        AutoMode::Backwards => false,
    }
}

/// Whether a frame moves the clock one tick back.
pub open spec fn steps_back(state: Playback, input: Input) -> bool {
    match state.mode {
        AutoMode::Off => input == Input::Rewind && state.tick.0 != 0,
        AutoMode::Forwards => false,
        AutoMode::Backwards => input == Input::Update && state.tick.0 != 0,
    }
}

/// The mode after a frame.
pub open spec fn next_mode(state: Playback, input: Input) -> AutoMode {
    match state.mode {
        AutoMode::Off => if steps_back(state, input) {
            AutoMode::Off
        } else if input == Input::ToggleForwardsPlay {
            AutoMode::Forwards
        } else if input == Input::ToggleBackwardsPlay {
            AutoMode::Backwards
        } else {
            AutoMode::Off
        },
        AutoMode::Forwards => if input == Input::ToggleForwardsPlay {
            AutoMode::Off
        } else {
            AutoMode::Forwards
        },
        AutoMode::Backwards => if state.tick.0 == 0 || input == Input::ToggleBackwardsPlay {
            AutoMode::Off
        } else {
            AutoMode::Backwards
        },
    }
}

/// The state after a frame.
pub open spec fn step(state: Playback, input: Input) -> Playback {
    Playback {
        tick: if steps_forward(state, input) {
            Tick(next_of(state.tick.0 as nat) as u32)
        } else if steps_back(state, input) {
            Tick(prev_of(state.tick.0 as nat) as u32)
        } else {
            state.tick
        },
        mode: next_mode(state, input),
        show_tooltips: if input == Input::ToggleTooltips {
            !state.show_tooltips
        } else {
            state.show_tooltips
        },
    }
}

/// Whether the host is asked for animation frames after a frame: while the
/// clock runs by itself, and when it has just been set running.
pub open spec fn animates(state: Playback, input: Input) -> bool {
    state.mode != AutoMode::Off || next_mode(state, input) != AutoMode::Off
}

/// Whether the controller looks at `input` in this state. What it does not
/// look at, the host need not ask the user for.
pub open spec fn listens(state: Playback, input: Input) -> bool {
    match input {
        Input::Rewind => state.mode == AutoMode::Off && state.tick.0 != 0,
        Input::Forwards => state.mode == AutoMode::Off,
        Input::ToggleForwardsPlay => state.mode != AutoMode::Backwards,
        Input::ToggleBackwardsPlay => state.mode == AutoMode::Off || (state.mode
            == AutoMode::Backwards && state.tick.0 != 0),
        Input::Update => state.mode == AutoMode::Forwards || (state.mode == AutoMode::Backwards
            && state.tick.0 != 0),
        Input::Quit => true,
        Input::ToggleTooltips => true,
        Input::Other => false,
    }
}

/// The state after `pulses` animation frames without other input.
pub open spec fn after_pulses(state: Playback, pulses: nat) -> Playback
    decreases pulses,
{
    if pulses == 0 {
        state
    } else {
        step(after_pulses(state, (pulses - 1) as nat), Input::Update)
    }
}

/// Running backwards stops when the clock is at zero or the user stops it,
/// and not otherwise; a frame never takes the clock below zero.
pub proof fn lemma_backwards_stops_at_zero(state: Playback, input: Input)
    requires
        state.mode == AutoMode::Backwards,
    ensures
        step(state, input).mode == AutoMode::Off <==> state.tick.0 == 0 || input
            == Input::ToggleBackwardsPlay,
        step(state, input).mode == AutoMode::Off || step(state, input).mode
            == AutoMode::Backwards,
        state.tick.0 == 0 ==> step(state, input).tick.0 == 0,
        step(state, input).tick.0 <= state.tick.0,
        state.tick.0 - step(state, input).tick.0 <= 1,
{
}

/// Left running backwards from tick n, the clock shows tick n - k after k
/// frames, up to n; in the frame after that it stops, at zero.
pub proof fn lemma_backwards_runs_down(state: Playback, pulses: nat)
    requires
        state.mode == AutoMode::Backwards,
    ensures
        pulses <= state.tick.0 ==> after_pulses(state, pulses) == (Playback {
            tick: Tick((state.tick.0 - pulses) as u32),
            ..state
        }),
        pulses > state.tick.0 ==> after_pulses(state, pulses) == (Playback {
            tick: Tick(0),
            mode: AutoMode::Off,
            ..state
        }),
    decreases pulses,
{
    reveal_with_fuel(after_pulses, 2);
    if pulses > 0 {
        lemma_backwards_runs_down(state, (pulses - 1) as nat);
    }
}

/// Input that the controller does not look at changes nothing: the frame
/// goes as if nothing had come in.
pub proof fn lemma_unheard_input_is_ignored(state: Playback, input: Input)
    requires
        !listens(state, input),
    ensures
        step(state, input) == step(state, Input::Other),
        animates(state, input) == animates(state, Input::Other),
{
}

/// With the clock stopped, a step forward and a step back leave it where it
/// was.
pub proof fn lemma_rewind_undoes_forwards(state: Playback)
    requires
        state.mode == AutoMode::Off,
        state.tick.0 < u32::MAX,
    ensures
        step(step(state, Input::Forwards), Input::Rewind) == state,
        step(state, Input::Forwards).tick.0 == state.tick.0 + 1,
{
}

/// Something that can say where the agents to draw are: the simulation, or
/// anything that stands in for it.
pub trait GetDrawAgents {
    /// The tick that is shown.
    spec fn shown_tick(&self) -> Tick;

    /// The cars at that tick.
    spec fn shown_cars(&self) -> Seq<DrawCarInput>;

    /// The pedestrians at that tick.
    spec fn shown_peds(&self) -> Seq<DrawPedestrianInput>;

    fn tick(&self) -> (tick: Tick)
        ensures
            tick == self.shown_tick(),
    ;

    /// The car with the given id, where there is one.
    fn get_draw_car(&self, id: CarID) -> (car: Option<DrawCarInput>)
        ensures
            is_first_with_id(self.shown_cars(), id, car),
    ;

    /// The pedestrian with the given id, where there is one.
    fn get_draw_ped(&self, id: PedestrianID) -> (ped: Option<DrawPedestrianInput>)
        ensures
            match ped {
                Some(p) => self.shown_peds().contains(p) && p.id == id,
                None => forall|i: int|
                    0 <= i < self.shown_peds().len() ==> (#[trigger] self.shown_peds()[i]).id
                        != id,
            },
    ;

    /// The cars on the given lane or turn.
    fn get_draw_cars(&self, on: Traversable) -> (cars: Vec<DrawCarInput>)
        ensures
            cars@ == cars_on(self.shown_cars(), on),
    ;

    /// The pedestrians on the given lane or turn.
    fn get_draw_peds(&self, on: Traversable) -> (peds: Vec<DrawPedestrianInput>)
        ensures
            peds@ == self.shown_peds().filter(|p: DrawPedestrianInput| p.on == on),
    ;

    fn get_all_draw_cars(&self) -> (cars: Vec<DrawCarInput>)
        ensures
            cars@ == self.shown_cars(),
    ;

    fn get_all_draw_peds(&self) -> (peds: Vec<DrawPedestrianInput>)
        ensures
            peds@ == self.shown_peds(),
    ;
}

/// The controller of the replay.
#[derive(Debug)]
pub struct SimpleModelController {
    current_tick: Tick,
    world: World,
    mode: AutoMode,
    show_tooltips: bool,
}

impl View for SimpleModelController {
    type V = Playback;

    closed spec fn view(&self) -> Playback {
        Playback { tick: self.current_tick, mode: self.mode, show_tooltips: self.show_tooltips }
    }
}

impl SimpleModelController {
    /// The cars of the world that is replayed.
    pub closed spec fn plan(&self) -> Seq<Car> {
        self.world@
    }

    /// A controller over `world`, where the user has asked for one: stopped,
    /// at tick zero, without tooltips.
    pub fn new(start_chosen: bool, world: World) -> (controller: Option<SimpleModelController>)
        ensures
            controller is Some <==> start_chosen,
            controller matches Some(c) ==> {
                &&& c@ == (Playback {
                    tick: Tick(0),
                    mode: AutoMode::Off,
                    show_tooltips: false,
                })
                &&& c.plan() == world@
            },
    {
        if start_chosen {
            return Some(
                SimpleModelController {
                    current_tick: Tick::zero(),
                    world,
                    mode: AutoMode::Off,
                    show_tooltips: false,
                },
            );
        }
        None
    }

    pub fn mode(&self) -> (mode: AutoMode)
        ensures
            mode == self@.mode,
    {
        self.mode
    }

    pub fn show_tooltips(&self) -> (shown: bool)
        ensures
            shown == self@.show_tooltips,
    {
        self.show_tooltips
    }

    /// Whether `blocking_event` can take `input` now: it cannot where the
    /// frame would count past the last tick.
    pub fn can_take(&self, input: Input) -> (ok: bool)
        ensures
            ok == !(steps_forward(self@, input) && self@.tick.0 == u32::MAX),
    {
        let forward = match self.mode {
            AutoMode::Off => input == Input::Forwards,
            AutoMode::Forwards => input == Input::Update,
            AutoMode::Backwards => false,
        };
        !(forward && self.current_tick.0 == u32::MAX)
    }

    /// Whether `blocking_event` looks at `input` now.
    pub fn listens_for(&self, input: Input) -> (heard: bool)
        ensures
            heard == listens(self@, input),
    {
        let at_zero = self.current_tick.is_zero();
        match input {
            Input::Rewind => self.mode == AutoMode::Off && !at_zero,
            Input::Forwards => self.mode == AutoMode::Off,
            Input::ToggleForwardsPlay => !(self.mode == AutoMode::Backwards),
            Input::ToggleBackwardsPlay => self.mode == AutoMode::Off || (self.mode
                == AutoMode::Backwards && !at_zero),
            Input::Update => self.mode == AutoMode::Forwards || (self.mode
                == AutoMode::Backwards && !at_zero),
            Input::Quit => true,
            Input::ToggleTooltips => true,
            Input::Other => false,
        }
    }

    fn get_cars(&self) -> (cars: Vec<DrawCarInput>)
        ensures
            cars@ == snapshot(self.plan(), time_of_tick(self@.tick.0 as nat)),
    {
        self.world.get_draw_cars(self.current_tick.as_time())
    }

    /// One frame: takes the input, moves the clock and the mode, and says
    /// whether to go on and how the host is to wait.
    pub fn blocking_event(&mut self, input: Input) -> (frame: Frame)
        requires
            steps_forward(old(self)@, input) ==> old(self)@.tick.0 < u32::MAX,
        ensures
            final(self)@ == step(old(self)@, input),
            final(self).plan() == old(self).plan(),
            frame.keep_open == (input != Input::Quit),
            frame.mode == if animates(old(self)@, input) {
                EventLoopMode::Animation
            } else {
                EventLoopMode::InputOnly
            },
    {
        let mut mode = EventLoopMode::InputOnly;
        match self.mode {
            AutoMode::Off => {
                if !self.current_tick.is_zero() && input == Input::Rewind {
                    self.current_tick = self.current_tick.prev();
                } else if input == Input::Forwards {
                    self.current_tick = self.current_tick.next();
                } else if input == Input::ToggleForwardsPlay {
                    self.mode = AutoMode::Forwards;
                    mode = EventLoopMode::Animation;
                } else if input == Input::ToggleBackwardsPlay {
                    self.mode = AutoMode::Backwards;
                    mode = EventLoopMode::Animation;
                }
            },
            AutoMode::Forwards => {
                mode = EventLoopMode::Animation;
                if input == Input::ToggleForwardsPlay {
                    self.mode = AutoMode::Off;
                } else if input == Input::Update {
                    self.current_tick = self.current_tick.next();
                }
            },
            AutoMode::Backwards => {
                mode = EventLoopMode::Animation;
                if self.current_tick.is_zero() || input == Input::ToggleBackwardsPlay {
                    self.mode = AutoMode::Off;
                } else if input == Input::Update {
                    self.current_tick = self.current_tick.prev();
                }
            },
        }
        if input == Input::Quit {
            return Frame { keep_open: false, mode };
        }
        if input == Input::ToggleTooltips {
            self.show_tooltips = !self.show_tooltips;
        }
        Frame { keep_open: true, mode }
    }

    /// The cars whose tooltips are to be drawn: all that are shown, where
    /// tooltips are on.
    pub fn draw(&self) -> (labelled: Vec<DrawCarInput>)
        ensures
            labelled@ == if self@.show_tooltips {
                snapshot(self.plan(), time_of_tick(self@.tick.0 as nat))
            } else {
                Seq::empty()
            },
    {
        if self.show_tooltips {
            self.get_cars()
        } else {
            Vec::new()
        }
    }
}

impl GetDrawAgents for SimpleModelController {
    open spec fn shown_tick(&self) -> Tick {
        self@.tick
    }

    open spec fn shown_cars(&self) -> Seq<DrawCarInput> {
        snapshot(self.plan(), time_of_tick(self@.tick.0 as nat))
    }

    open spec fn shown_peds(&self) -> Seq<DrawPedestrianInput> {
        Seq::empty()
    }

    fn tick(&self) -> (tick: Tick) {
        self.current_tick
    }

    fn get_draw_car(&self, id: CarID) -> (car: Option<DrawCarInput>) {
        find_car(&self.get_cars(), id)
    }

    fn get_draw_ped(&self, _id: PedestrianID) -> (ped: Option<DrawPedestrianInput>)
        ensures
            ped is None,
    {
        None
    }

    fn get_draw_cars(&self, on: Traversable) -> (cars: Vec<DrawCarInput>) {
        filter_cars_on(&self.get_cars(), on)
    }

    fn get_draw_peds(&self, _on: Traversable) -> (peds: Vec<DrawPedestrianInput>)
        ensures
            peds@.len() == 0,
    {
        let peds: Vec<DrawPedestrianInput> = Vec::new();
        proof {
            reveal(Seq::filter);
        }
        peds
    }

    fn get_all_draw_cars(&self) -> (cars: Vec<DrawCarInput>) {
        self.get_cars()
    }

    fn get_all_draw_peds(&self) -> (peds: Vec<DrawPedestrianInput>)
        ensures
            peds@.len() == 0,
    {
        Vec::new()
    }
}

} // verus!
