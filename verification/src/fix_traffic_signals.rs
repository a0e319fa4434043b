//! The traffic signals challenge: its frame-by-frame decisions, and the score
//! that sets the trip times of the player's run against a recorded baseline.

use crate::gameplay::{selected, stat_name, StatSnapshot, Statistic};
use crate::text::{append_duration, duration_text};
use crate::time::{Duration, END_OF_DAY_MILLIS};
use vstd::prelude::*;

verus! {

/// One line of the score.
#[derive(Clone, Copy, PartialEq, Eq, Structural, Debug)]
pub enum ScoreLine {
    /// One of the two runs has no trips to measure yet.
    NoData,
    /// The day is not over; this much of it is left.
    TimeToGo(Duration),
    /// Trips are faster than the baseline by more than the margin.
    Completed { stat: Statistic, now: Duration, faster_by: Duration, baseline: Duration },
    /// Trips are faster than the baseline, by no more than the margin.
    AlmostThere {
        stat: Statistic,
        now: Duration,
        faster_by: Duration,
        baseline: Duration,
        margin: Duration,
    },
    /// Trips take as long as in the baseline.
    Same { stat: Statistic, now: Duration },
    /// Trips are slower than the baseline.
    Worse { stat: Statistic, now: Duration, slower_by: Duration, baseline: Duration },
}

/// The line that sets trip times of `now` against `baseline`, where `margin`
/// is what the player has to gain, all in milliseconds.
pub open spec fn verdict(stat: Statistic, now: nat, baseline: nat, margin: nat) -> ScoreLine {
    if baseline - now > margin {
        ScoreLine::Completed {
            stat,
            now: Duration { millis: now as u64 },
            faster_by: Duration { millis: (baseline - now) as u64 },
            baseline: Duration { millis: baseline as u64 },
        }
    } else if baseline - now > 0 {
        ScoreLine::AlmostThere {
            stat,
            now: Duration { millis: now as u64 },
            faster_by: Duration { millis: (baseline - now) as u64 },
            baseline: Duration { millis: baseline as u64 },
            margin: Duration { millis: margin as u64 },
        }
    } else if baseline == now {
        ScoreLine::Same { stat, now: Duration { millis: now as u64 } }
    } else {
        ScoreLine::Worse {
            stat,
            now: Duration { millis: now as u64 },
            slower_by: Duration { millis: (now - baseline) as u64 },
            baseline: Duration { millis: baseline as u64 },
        }
    }
}

/// The lines of the score at `time`, for a day that ends at `deadline`.
pub open spec fn score_lines(
    now: StatSnapshot,
    baseline: StatSnapshot,
    stat: Statistic,
    time: Duration,
    deadline: Duration,
    margin: Duration,
) -> Seq<ScoreLine> {
    let result = verdict(
        stat,
        selected(now, stat).millis as nat,
        selected(baseline, stat).millis as nat,
        margin.millis as nat,
    );
    if now.count == 0 || baseline.count == 0 {
        seq![ScoreLine::NoData]
    } else if time.millis < deadline.millis {
        seq![ScoreLine::TimeToGo(Duration { millis: (deadline.millis - time.millis) as u64 }), result]
    } else {
        seq![result]
    }
}

/// A line of the score in words.
pub open spec fn line_text(line: ScoreLine) -> Seq<char> {
    match line {
        ScoreLine::NoData => "No data yet, run the simulation for longer"@,
        ScoreLine::TimeToGo(left) =>
            "You have to run the simulation until the end of the day to get final results; "@
            + duration_text(left.millis as nat) + " to go"@,
        ScoreLine::Completed { stat, now, faster_by, baseline } => "COMPLETED! "@ + stat_name(stat)
            + " trip times are now "@ + duration_text(now.millis as nat) + ", which is "@
            + duration_text(faster_by.millis as nat) + " faster than the baseline "@
            + duration_text(baseline.millis as nat),
        ScoreLine::AlmostThere { stat, now, faster_by, baseline, margin } => "Almost there! "@
            + stat_name(stat) + " trip times are now "@ + duration_text(now.millis as nat)
            + ", which is "@ + duration_text(faster_by.millis as nat)
            + " faster than the baseline "@ + duration_text(baseline.millis as nat)
            + ". Can you reduce the times by "@ + duration_text(margin.millis as nat) + "?"@,
        ScoreLine::Same { stat, now } => "... Did you change anything? "@ + stat_name(stat)
            + " trip times are "@ + duration_text(now.millis as nat) + ", same as the baseline"@,
        ScoreLine::Worse { stat, now, slower_by, baseline } =>
            "Err... how did you make things WORSE?! "@ + stat_name(stat) + " trip times are "@
            + duration_text(now.millis as nat) + ", which is "@ + duration_text(
                slower_by.millis as nat,
            ) + " slower than the baseline "@ + duration_text(baseline.millis as nat),
    }
}

/// Without trips in one of the runs the score says so, and nothing else.
pub proof fn lemma_no_data_stands_alone(
    now: StatSnapshot,
    baseline: StatSnapshot,
    stat: Statistic,
    time: Duration,
    deadline: Duration,
    margin: Duration,
)
    requires
        now.count == 0 || baseline.count == 0,
    ensures
        score_lines(now, baseline, stat, time, deadline, margin) == seq![ScoreLine::NoData],
{
}

/// With trips in both runs the score ends in exactly one verdict, and the
/// time left in the day comes before it while there is any.
pub proof fn lemma_score_ends_in_verdict(
    now: StatSnapshot,
    baseline: StatSnapshot,
    stat: Statistic,
    time: Duration,
    deadline: Duration,
    margin: Duration,
)
    requires
        now.count > 0,
        baseline.count > 0,
    ensures
        ({
            let lines = score_lines(now, baseline, stat, time, deadline, margin);
            let result = verdict(
                stat,
                selected(now, stat).millis as nat,
                selected(baseline, stat).millis as nat,
                margin.millis as nat,
            );
            &&& lines.last() == result
            &&& lines.len() == if time.millis < deadline.millis {
                2nat
            } else {
                1nat
            }
            &&& lines.len() == 2 ==> lines[0] is TimeToGo
            &&& !(result is NoData) && !(result is TimeToGo)
        }),
{
}

/// The verdict goes by the sign and the size of the gain alone: completed
/// above the margin, almost there up to it, the same at nothing, worse below.
pub proof fn lemma_verdict_by_gain(stat: Statistic, now: u64, baseline: u64, margin: u64)
    ensures
        verdict(stat, now as nat, baseline as nat, margin as nat) is Completed <==> baseline - now
            > margin,
        verdict(stat, now as nat, baseline as nat, margin as nat) is AlmostThere <==> 0 < baseline
            - now <= margin,
        verdict(stat, now as nat, baseline as nat, margin as nat) is Same <==> baseline == now,
        verdict(stat, now as nat, baseline as nat, margin as nat) is Worse <==> baseline < now,
{
}

impl ScoreLine {
    /// The line in words.
    pub fn text(&self) -> (text: String)
        ensures
            text@ == line_text(*self),
    {
        match self {
            ScoreLine::NoData => String::from_str("No data yet, run the simulation for longer"),
            ScoreLine::TimeToGo(left) => {
                let mut text = String::from_str(
                    "You have to run the simulation until the end of the day to get final results; ",
                );
                append_duration(&mut text, *left);
                text.append(" to go");
                text
            },
            ScoreLine::Completed { stat, now, faster_by, baseline } => {
                let mut text = String::from_str("COMPLETED! ");
                text.append(stat.name());
                text.append(" trip times are now ");
                append_duration(&mut text, *now);
                text.append(", which is ");
                append_duration(&mut text, *faster_by);
                text.append(" faster than the baseline ");
                append_duration(&mut text, *baseline);
                text
            },
            ScoreLine::AlmostThere { stat, now, faster_by, baseline, margin } => {
                let mut text = String::from_str("Almost there! ");
                text.append(stat.name());
                text.append(" trip times are now ");
                append_duration(&mut text, *now);
                text.append(", which is ");
                append_duration(&mut text, *faster_by);
                text.append(" faster than the baseline ");
                append_duration(&mut text, *baseline);
                text.append(". Can you reduce the times by ");
                append_duration(&mut text, *margin);
                text.append("?");
                text
            },
            ScoreLine::Same { stat, now } => {
                let mut text = String::from_str("... Did you change anything? ");
                text.append(stat.name());
                text.append(" trip times are ");
                append_duration(&mut text, *now);
                text.append(", same as the baseline");
                text
            },
            ScoreLine::Worse { stat, now, slower_by, baseline } => {
                let mut text = String::from_str("Err... how did you make things WORSE?! ");
                text.append(stat.name());
                text.append(" trip times are ");
                append_duration(&mut text, *now);
                text.append(", which is ");
                append_duration(&mut text, *slower_by);
                text.append(" slower than the baseline ");
                append_duration(&mut text, *baseline);
                text
            },
        }
    }
}

/// The score of a run at `time`: how the trip times of `now`, by the figure
/// that `stat` names, stand against those of `baseline`, for a day that ends
/// at `deadline` and a player who has to gain more than `margin`.
pub fn score(
    now: &StatSnapshot,
    baseline: &StatSnapshot,
    stat: Statistic,
    time: Duration,
    deadline: Duration,
    margin: Duration,
) -> (lines: Vec<ScoreLine>)
    ensures
        lines@ == score_lines(*now, *baseline, stat, time, deadline, margin),
{
    let mut lines: Vec<ScoreLine> = Vec::new();
    if now.count() == 0 || baseline.count() == 0 {
        lines.push(ScoreLine::NoData);
        assert(lines@ =~= score_lines(*now, *baseline, stat, time, deadline, margin));
        return lines;
    }
    let ours = now.select(stat);
    let theirs = baseline.select(stat);
    if time.millis < deadline.millis {
        lines.push(ScoreLine::TimeToGo(Duration { millis: deadline.millis - time.millis }));
    }
    if ours.millis < theirs.millis && theirs.millis - ours.millis > margin.millis {
        lines.push(
            ScoreLine::Completed {
                stat,
                now: ours,
                faster_by: Duration { millis: theirs.millis - ours.millis },
                baseline: theirs,
            },
        );
    } else if ours.millis < theirs.millis {
        lines.push(
            ScoreLine::AlmostThere {
                stat,
                now: ours,
                faster_by: Duration { millis: theirs.millis - ours.millis },
                baseline: theirs,
                margin,
            },
        );
    } else if ours.millis == theirs.millis {
        lines.push(ScoreLine::Same { stat, now: ours });
    } else {
        lines.push(
            ScoreLine::Worse {
                stat,
                now: ours,
                slower_by: Duration { millis: ours.millis - theirs.millis },
                baseline: theirs,
            },
        );
    }
    assert(lines@ =~= score_lines(*now, *baseline, stat, time, deadline, margin));
    lines
}

/// The score of a run at `time`, in words: the lines of `score`, each written
/// out.
pub fn final_score(
    now: &StatSnapshot,
    baseline: &StatSnapshot,
    stat: Statistic,
    time: Duration,
    deadline: Duration,
    margin: Duration,
) -> (lines: Vec<String>)
    ensures
        lines@.len() == score_lines(*now, *baseline, stat, time, deadline, margin).len(),
        forall|i: int|
            0 <= i < lines@.len() ==> (#[trigger] lines@[i])@ == line_text(
                score_lines(*now, *baseline, stat, time, deadline, margin)[i],
            ),
{
    let scored = score(now, baseline, stat, time, deadline, margin);
    let mut lines: Vec<String> = Vec::new();
    let mut i: usize = 0;
    while i < scored.len()
        invariant
            i <= scored.len(),
            lines@.len() == i,
            forall|j: int| 0 <= j < i ==> (#[trigger] lines@[j])@ == line_text(scored@[j]),
        decreases scored.len() - i,
    {
        lines.push(scored[i].text());
        i += 1;
    }
    lines
}

/// The state of the traffic signals challenge.
#[derive(Clone, Copy, PartialEq, Eq, Structural, Debug)]
pub struct FixTrafficSignals {
    /// The simulated time for which the panel was last filled.
    pub time: Duration,
    /// Whether no frame has been handled yet.
    pub once: bool,
}

/// What the host is to do after a frame of the traffic signals challenge.
#[derive(Clone, Copy, PartialEq, Eq, Structural, Debug)]
pub struct SignalsFrame {
    /// Show the distribution of finished trips over the map.
    pub show_histogram: bool,
    /// Fill the panel again: the simulated time has moved.
    pub refresh_panel: bool,
    /// Show the final score.
    pub final_score: bool,
}

impl FixTrafficSignals {
    pub fn new() -> (challenge: FixTrafficSignals)
        ensures
            challenge.time.millis == 0,
            challenge.once,
    {
        FixTrafficSignals { time: Duration::start_of_day(), once: true }
    }

    /// One frame at simulated time `now`. The histogram is shown with the
    /// first frame only; the panel is filled again whenever the time has
    /// moved; the final score is shown when the player asks for it, and in
    /// every frame once the day is over.
    pub fn event(&mut self, now: Duration, final_score_chosen: bool) -> (frame: SignalsFrame)
        ensures
            frame.show_histogram == old(self).once,
            frame.refresh_panel == (old(self).time != now),
            frame.final_score == (final_score_chosen || now.millis >= END_OF_DAY_MILLIS),
            final(self).time == now,
            !final(self).once,
    {
        let show_histogram = self.once;
        self.once = false;
        let refresh_panel = self.time.millis != now.millis;
        self.time = now;
        SignalsFrame {
            show_histogram,
            refresh_panel,
            final_score: final_score_chosen || now.millis >= END_OF_DAY_MILLIS,
        }
    }
}

} // verus!
