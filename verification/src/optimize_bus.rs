//! The bus challenge: its frame-by-frame decisions, and the panel that sets
//! the delay between the stops of a route against a recorded baseline.

use crate::gameplay::{
    compare_to_baseline, comparison_of, comparison_text, selected, stat_name, Comparison,
    StatSnapshot, Statistic,
};
use crate::ids::BusRouteID;
use crate::text::{append_decimal, append_duration, decimal, duration_text};
use crate::time::Duration;
use vstd::prelude::*;

verus! {

/// The delay on the way to a stop.
#[derive(Clone, Copy, PartialEq, Eq, Structural, Debug)]
pub enum StopDelay {
    /// No bus has arrived at the stop yet.
    NoArrivals,
    /// The delay, where the baseline has no arrivals at the stop.
    Measured(Duration),
    /// The delay, and how it stands against the baseline.
    Compared(Duration, Comparison),
}

/// One line of the panel: the way from one stop to the next. Stops are
/// counted from one.
#[derive(Clone, Copy, PartialEq, Eq, Structural, Debug)]
pub struct StopLine {
    pub from: usize,
    pub to: usize,
    pub delay: StopDelay,
}

/// The place of the stop that follows the stop at `idx` on a route of `stops`
/// stops: the route is a loop, so the first follows the last.
pub open spec fn next_stop(idx: int, stops: int) -> int {
    if idx == stops - 1 {
        0
    } else {
        idx + 1
    }
}

/// The delay on the way to a stop, from what the two runs measured there.
pub open spec fn delay_of(
    now: Option<StatSnapshot>,
    baseline: Option<StatSnapshot>,
    stat: Statistic,
) -> StopDelay {
    match now {
        Some(ours) => match baseline {
            Some(theirs) => StopDelay::Compared(
                selected(ours, stat),
                comparison_of(
                    selected(ours, stat).millis as nat,
                    selected(theirs, stat).millis as nat,
                ),
            ),
            None => StopDelay::Measured(selected(ours, stat)),
        },
        None => StopDelay::NoArrivals,
    }
}

/// What a run measured at the stop at `idx`: nothing where it does not speak
/// of the stop.
pub open spec fn measured_at(run: Seq<Option<StatSnapshot>>, idx: int) -> Option<StatSnapshot> {
    if 0 <= idx < run.len() {
        run[idx]
    } else {
        None
    }
}

/// The line for the way out of the stop at `idx`.
pub open spec fn stop_line(
    idx: int,
    now: Seq<Option<StatSnapshot>>,
    baseline: Seq<Option<StatSnapshot>>,
    stat: Statistic,
) -> StopLine {
    let to = next_stop(idx, now.len() as int);
    StopLine {
        from: (idx + 1) as usize,
        to: (to + 1) as usize,
        delay: delay_of(measured_at(now, to), measured_at(baseline, to), stat),
    }
}

/// The lines of the panel: one for each stop, in the order of the route.
pub open spec fn stop_lines(
    now: Seq<Option<StatSnapshot>>,
    baseline: Seq<Option<StatSnapshot>>,
    stat: Statistic,
) -> Seq<StopLine> {
    Seq::new(now.len(), |idx: int| stop_line(idx, now, baseline, stat))
}

/// The heading of the panel.
pub open spec fn heading_text(stat: Statistic) -> Seq<char> {
    stat_name(stat) + " delay between stops"@
}

/// A delay in words.
pub open spec fn delay_text(delay: StopDelay) -> Seq<char> {
    match delay {
        StopDelay::NoArrivals => "no arrivals yet"@,
        StopDelay::Measured(d) => duration_text(d.millis as nat),
        StopDelay::Compared(d, comparison) => duration_text(d.millis as nat) + comparison_text(
            comparison,
        ),
    }
}

/// A line of the panel in words.
pub open spec fn stop_line_text(line: StopLine) -> Seq<char> {
    "Stop "@ + decimal(line.from as nat) + "->"@ + decimal(line.to as nat) + ": "@ + delay_text(
        line.delay,
    )
}

/// Every stop of the route is where exactly one of the ways ends.
pub proof fn lemma_each_stop_is_reached_once(stops: int, stop: int)
    requires
        0 <= stop < stops,
    ensures
        exists|idx: int| 0 <= idx < stops && #[trigger] next_stop(idx, stops) == stop,
        forall|i: int, j: int|
            0 <= i < stops && 0 <= j < stops && #[trigger] next_stop(i, stops) == stop
                && #[trigger] next_stop(j, stops) == stop ==> i == j,
{
    if stop == 0 {
        assert(next_stop(stops - 1, stops) == stop);
    } else {
        assert(next_stop(stop - 1, stops) == stop);
    }
}

impl StopDelay {
    /// The delay in words.
    pub fn text(&self) -> (text: String)
        ensures
            text@ == delay_text(*self),
    {
        match self {
            StopDelay::NoArrivals => String::from_str("no arrivals yet"),
            StopDelay::Measured(d) => d.to_text(),
            StopDelay::Compared(d, comparison) => {
                let mut text = d.to_text();
                let behind = comparison.text();
                text.append(behind.as_str());
                text
            },
        }
    }
}

impl StopLine {
    /// The line in words.
    pub fn text(&self) -> (text: String)
        ensures
            text@ == stop_line_text(*self),
    {
        let mut text = String::from_str("Stop ");
        append_decimal(&mut text, self.from as u64);
        text.append("->");
        append_decimal(&mut text, self.to as u64);
        text.append(": ");
        let delay = self.delay.text();
        text.append(delay.as_str());
        text
    }
}

/// The delays between the stops of a route, by the figure that `stat` names.
/// `now` holds, for each stop in the order of the route, what the player's
/// run measured at the stop, where a bus has arrived there; `baseline` holds
/// the same of the recorded run, for as many of the stops as it speaks of.
pub fn bus_route_delays(
    stat: Statistic,
    now: &Vec<Option<StatSnapshot>>,
    baseline: &Vec<Option<StatSnapshot>>,
) -> (lines: Vec<StopLine>)
    ensures
        lines@ == stop_lines(now@, baseline@, stat),
{
    let mut lines: Vec<StopLine> = Vec::new();
    let mut idx1: usize = 0;
    while idx1 < now.len()
        invariant
            idx1 <= now.len(),
            lines@.len() == idx1,
            forall|i: int| 0 <= i < idx1 ==> lines@[i] == stop_line(i, now@, baseline@, stat),
        decreases now.len() - idx1,
    {
        let idx2: usize = if idx1 == now.len() - 1 {
            0
        } else {
            idx1 + 1
        };
        let delay = match &now[idx2] {
            Some(stats1) => {
                let a = stats1.select(stat);
                let theirs = if idx2 < baseline.len() {
                    baseline[idx2]
                } else {
                    None
                };
                match theirs {
                    Some(stats2) => StopDelay::Compared(
                        a,
                        compare_to_baseline(a, stats2.select(stat)),
                    ),
                    None => StopDelay::Measured(a),
                }
            },
            None => StopDelay::NoArrivals,
        };
        lines.push(StopLine { from: idx1 + 1, to: idx2 + 1, delay });
        idx1 += 1;
    }
    assert(lines@ =~= stop_lines(now@, baseline@, stat));
    lines
}

/// The panel of a route in words: the heading, then the lines of
/// `bus_route_delays`, each written out.
pub fn bus_route_panel(
    stat: Statistic,
    now: &Vec<Option<StatSnapshot>>,
    baseline: &Vec<Option<StatSnapshot>>,
) -> (txt: Vec<String>)
    ensures
        txt@.len() == now@.len() + 1,
        txt@[0]@ == heading_text(stat),
        forall|i: int|
            0 <= i < now@.len() ==> (#[trigger] txt@[i + 1])@ == stop_line_text(
                stop_line(i, now@, baseline@, stat),
            ),
{
    let delays = bus_route_delays(stat, now, baseline);
    let mut txt: Vec<String> = Vec::new();
    let mut heading = String::from_str(stat.name());
    heading.append(" delay between stops");
    txt.push(heading);
    let mut i: usize = 0;
    while i < delays.len()
        invariant
            i <= delays.len(),
            delays@ == stop_lines(now@, baseline@, stat),
            txt@.len() == i + 1,
            txt@[0]@ == heading_text(stat),
            forall|j: int| 0 <= j < i ==> (#[trigger] txt@[j + 1])@ == stop_line_text(delays@[j]),
        decreases delays.len() - i,
    {
        let ghost before = txt@;
        txt.push(delays[i].text());
        proof {
            assert forall|j: int| 0 <= j < i + 1 implies (#[trigger] txt@[j + 1])@
                == stop_line_text(delays@[j]) by {
                if j < i {
                    assert(txt@[j + 1] == before[j + 1]);
                }
            }
        }
        i += 1;
    }
    txt
}

/// The state of the bus challenge.
#[derive(Clone, Copy, PartialEq, Eq, Structural, Debug)]
pub struct OptimizeBus {
    pub route: BusRouteID,
    /// The simulated time for which the panel was last filled.
    pub time: Duration,
    /// The figure that the panel shows.
    pub stat: Statistic,
}

/// What the host is to do after a frame of the bus challenge.
#[derive(Clone, Copy, PartialEq, Eq, Structural, Debug)]
pub struct BusFrame {
    /// Fill the panel again: the simulated time has moved.
    pub refresh_panel: bool,
    /// Ask the player which statistic to show.
    pub choose_statistic: bool,
}

impl OptimizeBus {
    /// The challenge for `route`, showing the longest delays.
    pub fn new(route: BusRouteID) -> (challenge: OptimizeBus)
        ensures
            challenge == (OptimizeBus {
                route,
                time: Duration { millis: 0 },
                stat: Statistic::Max,
            }),
    {
        OptimizeBus { route, time: Duration::start_of_day(), stat: Statistic::Max }
    }

    /// One frame at simulated time `now`. The panel is filled again whenever
    /// the time has moved.
    pub fn event(&mut self, now: Duration, change_statistic_chosen: bool) -> (frame: BusFrame)
        ensures
            frame.refresh_panel == (old(self).time != now),
            frame.choose_statistic == change_statistic_chosen,
            *final(self) == (OptimizeBus { time: now, ..*old(self) }),
    {
        let refresh_panel = self.time.millis != now.millis;
        self.time = now;
        BusFrame { refresh_panel, choose_statistic: change_statistic_chosen }
    }

    /// The player has picked a statistic. The time goes back to the start of
    /// the day, so that the next frame of a day under way fills the panel.
    pub fn statistic_chosen(&mut self, stat: Statistic)
        ensures
            *final(self) == (OptimizeBus {
                time: Duration { millis: 0 },
                stat,
                ..*old(self)
            }),
    {
        self.time = Duration::start_of_day();
        self.stat = stat;
    }
}

} // verus!
