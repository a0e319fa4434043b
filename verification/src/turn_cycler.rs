//! What to highlight for the object under the cursor: the turns that lead out
//! of a lane, all at once or one at a time, or the state of an intersection's
//! signal or stop sign.

use crate::ids::{IntersectionID, LaneID, TurnID, ID};
use crate::signal::{
    remaining_in_phase, showing_phase, timer_fill, timer_fill_height, SignalCycle,
};
use crate::time::Duration;
use piston::input::Key;
use vstd::prelude::*;

verus! {

/// A key of the keyboard, as `piston::input::Key` names it. Nothing is said
/// of what is inside: a key is taken in and handed out again, never looked
/// at.
#[verifier::external_type_specification]
#[verifier::external_body]
pub struct ExKey(piston::input::Key);

/// Width of the countdown box of a signal, in screen units.
pub const TIMER_WIDTH: u32 = 50;

/// Height of the countdown box of a signal, in screen units.
pub const TIMER_HEIGHT: u32 = 100;

/// What is highlighted.
#[derive(Clone, Copy, PartialEq, Eq, Structural, Debug)]
pub enum State {
    Inactive,
    /// All the turns out of the lane.
    ShowLane(LaneID),
    /// One turn out of the lane. The count runs on with each key press; which
    /// turn it names is decided against the turns the lane has when drawing.
    CycleTurns(LaneID, usize),
    ShowIntersection(IntersectionID),
}

/// The kind of a turn.
#[derive(Clone, Copy, PartialEq, Eq, Structural, Debug)]
pub enum TurnType {
    SharedSidewalkCorner,
    Crosswalk,
    Straight,
    Right,
    Left,
}

/// An entry of the colour scheme.
#[derive(Clone, Copy, PartialEq, Eq, Structural, Debug)]
pub enum Paint {
    SharedSidewalkCornerTurn,
    CrosswalkTurn,
    StraightTurn,
    RightTurn,
    LeftTurn,
    CurrentSelectedTurn,
    TimerForeground,
    TimerBackground,
}

/// One thing for the renderer to draw.
#[derive(Clone, Copy, PartialEq, Eq, Structural, Debug)]
pub enum DrawCommand {
    /// The turn at `index` among the turns of the highlighted lane, in full.
    Turn { index: usize, paint: Paint, translucent: bool },
    /// The turns of the phase at `phase` in the signal's cycle.
    SignalPhase { phase: usize },
    /// A box in the top-left corner of the screen.
    TimerBox { paint: Paint, width: u32, height: u32 },
    /// The stop sign of the intersection.
    StopSign,
}

/// What the map holds about the intersection under the cursor.
#[derive(Debug)]
pub struct Junction {
    pub signal: Option<SignalCycle>,
    pub has_stop_sign: bool,
    /// The crosswalks of the intersection.
    pub crosswalks: Vec<TurnID>,
}

/// What the renderer is to leave out or add for this frame.
#[derive(Debug, PartialEq, Eq)]
pub struct Hints {
    /// The intersection whose icon is not drawn.
    pub suppress_intersection_icon: Option<IntersectionID>,
    /// Crosswalks that are not drawn.
    pub hide_crosswalks: Vec<TurnID>,
    /// Whether the stop sign of the intersection is to give its own hints.
    pub stop_sign: bool,
}

/// The colour in which a turn of the given kind is drawn.
pub open spec fn paint_of(turn_type: TurnType) -> Paint {
    match turn_type {
        TurnType::SharedSidewalkCorner => Paint::SharedSidewalkCornerTurn,
        TurnType::Crosswalk => Paint::CrosswalkTurn,
        TurnType::Straight => Paint::StraightTurn,
        TurnType::Right => Paint::RightTurn,
        TurnType::Left => Paint::LeftTurn,
    }
}

/// Whether the cycling key is looked at in this frame.
pub open spec fn key_matters(prev: State, selection: Option<ID>) -> bool {
    match selection {
        Some(ID::Lane(l)) => match prev {
            State::CycleTurns(current, _) => current == l,
            _ => true,
        },
        _ => false,
    }
}

/// The state after a frame in which `selection` is under the cursor.
pub open spec fn next_state(prev: State, selection: Option<ID>, key_pressed: bool) -> State {
    match selection {
        Some(ID::Intersection(i)) => State::ShowIntersection(i),
        Some(ID::Lane(l)) => match prev {
            State::CycleTurns(current, idx) => if current != l {
                State::ShowLane(l)
            } else if key_pressed {
                State::CycleTurns(l, (idx + 1) as usize)
            } else {
                prev
            },
            _ => if key_pressed {
                State::CycleTurns(l, 0)
            } else {
                State::ShowLane(l)
            },
        },
        _ => State::Inactive,
    }
}

/// Whether a frame would count past what the cycle count can hold.
pub open spec fn count_runs_out(prev: State, selection: Option<ID>, key_pressed: bool) -> bool {
    prev matches State::CycleTurns(current, idx) && selection == Some(ID::Lane(current))
        && key_pressed && idx == usize::MAX
}

/// The crosswalks of `junction` that its signal does not let go at `now`.
pub open spec fn crosswalks_held(junction: Junction, now: nat) -> Seq<TurnID>
    recommends
        junction.signal is Some,
{
    let cycle = junction.signal->0;
    let showing = cycle@[showing_phase(cycle@, now)];
    junction.crosswalks@.filter(|t: TurnID| !showing.permitted@.contains(t))
}

/// Whether a signalled intersection is under the cursor.
pub open spec fn signal_selected(selection: Option<ID>, junction: Junction) -> bool {
    selection matches Some(ID::Intersection(_)) && junction.signal is Some
}

/// The intersection whose icon gives way to the drawing of its signal.
pub open spec fn icon_suppressed(selection: Option<ID>, junction: Junction) -> Option<
    IntersectionID,
> {
    match selection {
        Some(ID::Intersection(i)) => if junction.signal is Some {
            Some(i)
        } else {
            None
        },
        _ => None,
    }
}

/// The crosswalks that are not drawn: under a signalled intersection, those
/// that its signal does not let go at `now`.
pub open spec fn crosswalks_hidden(selection: Option<ID>, junction: Junction, now: nat) -> Seq<
    TurnID,
> {
    if signal_selected(selection, junction) {
        crosswalks_held(junction, now)
    } else {
        Seq::empty()
    }
}

/// Whether the stop sign of the intersection under the cursor gives hints of
/// its own: where there is no signal, and there is a stop sign.
pub open spec fn stop_sign_hinted(selection: Option<ID>, junction: Junction) -> bool {
    selection matches Some(ID::Intersection(_)) && junction.signal is None
        && junction.has_stop_sign
}

/// The state after `presses` frames in each of which lane `l` is under the
/// cursor and the cycling key is pressed.
pub open spec fn after_presses(start: State, l: LaneID, presses: nat) -> State
    decreases presses,
{
    if presses == 0 {
        start
    } else {
        next_state(after_presses(start, l, (presses - 1) as nat), Some(ID::Lane(l)), true)
    }
}

/// What is drawn for a lane with the given turns.
pub open spec fn lane_drawing(state: State, turns: Seq<TurnType>) -> Seq<DrawCommand> {
    match state {
        State::ShowLane(_) => Seq::new(
            turns.len(),
            |i: int|
                DrawCommand::Turn {
                    index: i as usize,
                    paint: paint_of(turns[i]),
                    translucent: true,
                },
        ),
        State::CycleTurns(_, idx) => if turns.len() == 0 {
            Seq::empty()
        } else {
            seq![
                DrawCommand::Turn {
                    index: (idx as int % turns.len() as int) as usize,
                    paint: Paint::CurrentSelectedTurn,
                    translucent: false,
                },
            ]
        },
        _ => Seq::empty(),
    }
}

/// What is drawn for an intersection at time `now`.
pub open spec fn junction_drawing(junction: Junction, now: nat) -> Seq<DrawCommand> {
    if junction.signal is Some {
        let phases = junction.signal->0@;
        let showing = showing_phase(phases, now);
        seq![
            DrawCommand::SignalPhase { phase: showing as usize },
            DrawCommand::TimerBox {
                paint: Paint::TimerForeground,
                width: TIMER_WIDTH,
                height: TIMER_HEIGHT,
            },
            DrawCommand::TimerBox {
                paint: Paint::TimerBackground,
                width: TIMER_WIDTH,
                height: timer_fill(
                    remaining_in_phase(phases, showing, now) as nat,
                    phases[showing].duration.millis as nat,
                    TIMER_HEIGHT as nat,
                ) as u32,
            },
        ]
    } else if junction.has_stop_sign {
        seq![DrawCommand::StopSign]
    } else {
        Seq::empty()
    }
}

/// What is drawn in a state, for the lane's turns, or the intersection, that
/// the state speaks of.
pub open spec fn drawing(
    state: State,
    turns: Seq<TurnType>,
    junction: Junction,
    now: nat,
) -> Seq<DrawCommand> {
    match state {
        State::Inactive => Seq::empty(),
        State::ShowIntersection(_) => junction_drawing(junction, now),
        _ => lane_drawing(state, turns),
    }
}

/// Where no lane's turns are being stepped through yet, the n-th press of the
/// cycling key over a lane shows the turn counted n - 1.
pub proof fn lemma_presses_count_up(start: State, l: LaneID, presses: nat)
    requires
        start !is CycleTurns,
        0 < presses <= usize::MAX,
    ensures
        after_presses(start, l, presses) == State::CycleTurns(l, (presses - 1) as usize),
    decreases presses,
{
    reveal_with_fuel(after_presses, 2);
    if presses > 1 {
        lemma_presses_count_up(start, l, (presses - 1) as nat);
    }
}

/// Where the cycling key is not looked at, it makes no difference whether it
/// is pressed.
pub proof fn lemma_unheard_key_is_ignored(prev: State, selection: Option<ID>)
    requires
        !key_matters(prev, selection),
    ensures
        next_state(prev, selection, true) == next_state(prev, selection, false),
        !count_runs_out(prev, selection, true),
{
}

/// Another lane under the cursor forgets the count, whatever it was and
/// whether or not the key is pressed.
pub proof fn lemma_other_lane_resets(l: LaneID, idx: usize, m: LaneID, key_pressed: bool)
    requires
        m != l,
    ensures
        next_state(State::CycleTurns(l, idx), Some(ID::Lane(m)), key_pressed) == State::ShowLane(
            m,
        ),
{
}

/// The turn highlighted while cycling is always one that the lane has now.
pub proof fn lemma_cycled_turn_exists(l: LaneID, idx: usize, turns: Seq<TurnType>)
    requires
        turns.len() > 0,
    ensures
        lane_drawing(State::CycleTurns(l, idx), turns).len() == 1,
        lane_drawing(State::CycleTurns(l, idx), turns)[0] matches DrawCommand::Turn { index, .. }
            && index < turns.len(),
{
}

/// The colour in which a turn of the given kind is drawn.
pub fn turn_paint(turn_type: TurnType) -> (paint: Paint)
    ensures
        paint == paint_of(turn_type),
{
    match turn_type {
        TurnType::SharedSidewalkCorner => Paint::SharedSidewalkCornerTurn,
        TurnType::Crosswalk => Paint::CrosswalkTurn,
        TurnType::Straight => Paint::StraightTurn,
        TurnType::Right => Paint::RightTurn,
        TurnType::Left => Paint::LeftTurn,
    }
}

/// The turn highlighter, with the key that steps through a lane's turns.
pub struct TurnCyclerState {
    state: State,
    key: Key,
}

impl View for TurnCyclerState {
    type V = State;

    closed spec fn view(&self) -> State {
        self.state
    }
}

impl TurnCyclerState {
    /// The key that steps through a lane's turns.
    pub closed spec fn cycle_key(&self) -> Key {
        self.key
    }

    pub fn new(key: Key) -> (cycler: TurnCyclerState)
        ensures
            cycler@ == State::Inactive,
            cycler.cycle_key() == key,
    {
        TurnCyclerState { key, state: State::Inactive }
    }

    pub fn state(&self) -> (state: State)
        ensures
            state == self@,
    {
        self.state
    }

    pub fn key(&self) -> (key: Key)
        ensures
            key == self.cycle_key(),
    {
        self.key
    }

    /// Whether `ambient_event` will look at the cycling key in a frame with
    /// `selection` under the cursor.
    pub fn listens_for_key(&self, selection: Option<ID>) -> (listens: bool)
        ensures
            listens == key_matters(self@, selection),
    {
        match selection {
            Some(ID::Lane(l)) => match self.state {
                State::CycleTurns(current, _) => current == l,
                _ => true,
            },
            _ => false,
        }
    }

    /// Whether `ambient_event` can take this frame now: it cannot where the
    /// frame would count past what the cycle count can hold.
    pub fn can_take(&self, selection: Option<ID>, key_pressed: bool) -> (ok: bool)
        ensures
            ok == !count_runs_out(self@, selection, key_pressed),
    {
        match self.state {
            State::CycleTurns(current, idx) => match selection {
                Some(ID::Lane(l)) => !(current == l && key_pressed && idx == usize::MAX),
                _ => true,
            },
            _ => true,
        }
    }

    /// One frame: takes what is under the cursor and whether the cycling key
    /// was pressed, moves to the next state, and says what the renderer is to
    /// leave out. `junction` is what the map holds about the intersection
    /// under the cursor; it is not looked at unless there is one.
    pub fn ambient_event(
        &mut self,
        selection: Option<ID>,
        key_pressed: bool,
        junction: &Junction,
        now: Duration,
    ) -> (hints: Hints)
        requires
            !count_runs_out(old(self)@, selection, key_pressed),
        ensures
            final(self)@ == next_state(old(self)@, selection, key_pressed),
            final(self).cycle_key() == old(self).cycle_key(),
            hints.suppress_intersection_icon == icon_suppressed(selection, *junction),
            hints.hide_crosswalks@ == crosswalks_hidden(selection, *junction, now.millis as nat),
            hints.stop_sign == stop_sign_hinted(selection, *junction),
    {
        let mut hints = Hints {
            suppress_intersection_icon: None,
            hide_crosswalks: Vec::new(),
            stop_sign: false,
        };
        match selection {
            Some(ID::Intersection(id)) => {
                self.state = State::ShowIntersection(id);
                match &junction.signal {
                    Some(signal) => {
                        let at = signal.current_phase_and_remaining_time(now);
                        hints.suppress_intersection_icon = Some(id);
                        hints.hide_crosswalks = at.1.absent_crosswalks(&junction.crosswalks);
                    },
                    None => {
                        hints.stop_sign = junction.has_stop_sign;
                    },
                }
            },
            Some(ID::Lane(id)) => {
                match self.state {
                    State::CycleTurns(current, idx) => {
                        if current != id {
                            self.state = State::ShowLane(id);
                        } else if key_pressed {
                            self.state = State::CycleTurns(id, idx + 1);
                        }
                    },
                    _ => {
                        self.state = State::ShowLane(id);
                        if key_pressed {
                            self.state = State::CycleTurns(id, 0);
                        }
                    },
                }
            },
            _ => {
                self.state = State::Inactive;
            },
        }
        hints
    }

    /// What to draw in the current state. `turns` are the turns that lead out
    /// of the lane the state speaks of, as the map has them now; `junction` is
    /// what the map holds about the intersection the state speaks of.
    pub fn draw(&self, turns: &Vec<TurnType>, junction: &Junction, now: Duration) -> (commands:
        Vec<DrawCommand>)
        ensures
            commands@ == drawing(self@, turns@, *junction, now.millis as nat),
    {
        let mut commands: Vec<DrawCommand> = Vec::new();
        match self.state {
            State::Inactive => {},
            State::ShowLane(_) => {
                let mut i: usize = 0;
                while i < turns.len()
                    invariant
                        i <= turns.len(),
                        commands@.len() == i,
                        forall|j: int|
                            0 <= j < i ==> commands@[j] == (DrawCommand::Turn {
                                index: j as usize,
                                paint: paint_of(turns@[j]),
                                translucent: true,
                            }),
                    decreases turns.len() - i,
                {
                    commands.push(
                        DrawCommand::Turn {
                            index: i,
                            paint: turn_paint(turns[i]),
                            translucent: true,
                        },
                    );
                    i += 1;
                }
                assert(commands@ =~= lane_drawing(self.state, turns@));
            },
            State::CycleTurns(_, idx) => {
                if turns.len() > 0 {
                    commands.push(
                        DrawCommand::Turn {
                            index: idx % turns.len(),
                            paint: Paint::CurrentSelectedTurn,
                            translucent: false,
                        },
                    );
                }
                assert(commands@ =~= lane_drawing(self.state, turns@));
            },
            State::ShowIntersection(_) => {
                match &junction.signal {
                    Some(signal) => {
                        let at = signal.current_phase_and_remaining_time(now);
                        commands.push(DrawCommand::SignalPhase { phase: at.0 });
                        commands.push(
                            DrawCommand::TimerBox {
                                paint: Paint::TimerForeground,
                                width: TIMER_WIDTH,
                                height: TIMER_HEIGHT,
                            },
                        );
                        commands.push(
                            DrawCommand::TimerBox {
                                paint: Paint::TimerBackground,
                                width: TIMER_WIDTH,
                                height: timer_fill_height(at.2, at.1.duration, TIMER_HEIGHT),
                            },
                        );
                    },
                    None => {
                        if junction.has_stop_sign {
                            commands.push(DrawCommand::StopSign);
                        }
                    },
                }
                assert(commands@ =~= junction_drawing(*junction, now.millis as nat));
            },
        }
        commands
    }
}

} // verus!
