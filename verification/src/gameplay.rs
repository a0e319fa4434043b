//! What the challenges share: trip-time statistics, how one measurement
//! stands against its baseline, and the overlays drawn over the map.

use crate::ids::BusRouteID;
use crate::text::{append_duration, duration_text, same_text};
use crate::time::Duration;
use vstd::prelude::*;

verus! {

/// A summary figure of a set of durations.
#[derive(Clone, Copy, PartialEq, Eq, Structural, Debug)]
pub enum Statistic {
    Min,
    Mean,
    P50,
    P90,
    P99,
    Max,
}

/// The summary figures of a set of durations, taken at one simulated time.
#[derive(Clone, Copy, PartialEq, Eq, Structural, Debug)]
pub struct StatSnapshot {
    /// How many durations were measured.
    pub count: usize,
    pub min: Duration,
    pub mean: Duration,
    pub p50: Duration,
    pub p90: Duration,
    pub p99: Duration,
    pub max: Duration,
}

/// How a measurement stands against its baseline.
#[derive(Clone, Copy, PartialEq, Eq, Structural, Debug)]
pub enum Comparison {
    Same,
    /// Shorter than the baseline, by this much.
    Faster(Duration),
    /// Longer than the baseline, by this much.
    Slower(Duration),
}

/// What is drawn over the map.
#[derive(Clone, Copy, PartialEq, Eq, Structural, Debug)]
pub enum Overlay {
    Inactive,
    IntersectionDelay,
    FinishedTripsHistogram,
    BusRoute(BusRouteID),
    BusDelaysOverTime(BusRouteID),
    BusPassengers(BusRouteID),
}

/// The figure of `snapshot` that `stat` names.
pub open spec fn selected(snapshot: StatSnapshot, stat: Statistic) -> Duration {
    match stat {
        Statistic::Min => snapshot.min,
        Statistic::Mean => snapshot.mean,
        Statistic::P50 => snapshot.p50,
        Statistic::P90 => snapshot.p90,
        Statistic::P99 => snapshot.p99,
        Statistic::Max => snapshot.max,
    }
}

/// The name of a statistic.
pub open spec fn stat_name(stat: Statistic) -> Seq<char> {
    match stat {
        Statistic::Min => "minimum"@,
        Statistic::Mean => "mean"@,
        Statistic::P50 => "50%ile"@,
        Statistic::P90 => "90%ile"@,
        Statistic::P99 => "99%ile"@,
        Statistic::Max => "maximum"@,
    }
}

/// All the statistics, from the smallest figure to the largest.
pub open spec fn all_statistics() -> Seq<Statistic> {
    seq![
        Statistic::Min,
        Statistic::Mean,
        Statistic::P50,
        Statistic::P90,
        Statistic::P99,
        Statistic::Max,
    ]
}

/// The statistic of the given name.
pub open spec fn stat_named(name: Seq<char>) -> Option<Statistic> {
    if name == stat_name(Statistic::Min) {
        Some(Statistic::Min)
    } else if name == stat_name(Statistic::Mean) {
        Some(Statistic::Mean)
    } else if name == stat_name(Statistic::P50) {
        Some(Statistic::P50)
    } else if name == stat_name(Statistic::P90) {
        Some(Statistic::P90)
    } else if name == stat_name(Statistic::P99) {
        Some(Statistic::P99)
    } else if name == stat_name(Statistic::Max) {
        Some(Statistic::Max)
    } else {
        None
    }
}

/// No two statistics have the same name: each is found again by its own.
pub proof fn lemma_names_tell_statistics_apart(stat: Statistic)
    ensures
        stat_named(stat_name(stat)) == Some(stat),
{
    reveal_strlit("minimum");
    reveal_strlit("mean");
    reveal_strlit("50%ile");
    reveal_strlit("90%ile");
    reveal_strlit("99%ile");
    reveal_strlit("maximum");
    assert("minimum"@[1] == 'i');
    assert("mean"@[1] == 'e');
    assert("50%ile"@[0] == '5');
    assert("90%ile"@[1] == '0');
    assert("99%ile"@[1] == '9');
    assert("maximum"@[1] == 'a');
    assert("minimum"@[0] == 'm');
    assert("mean"@[0] == 'm');
    assert("90%ile"@[0] == '9');
    assert("99%ile"@[0] == '9');
    assert("maximum"@[0] == 'm');
    assert("50%ile"@[1] == '0');
}

/// How `now` stands against `baseline`, both in milliseconds.
pub open spec fn comparison_of(now: nat, baseline: nat) -> Comparison {
    if now == baseline {
        Comparison::Same
    } else if now < baseline {
        Comparison::Faster(Duration { millis: (baseline - now) as u64 })
    } else {
        Comparison::Slower(Duration { millis: (now - baseline) as u64 })
    }
}

/// A comparison in words, to stand behind the measurement.
pub open spec fn comparison_text(comparison: Comparison) -> Seq<char> {
    match comparison {
        Comparison::Same => " (same as baseline)"@,
        Comparison::Faster(by) => " ("@ + duration_text(by.millis as nat) + " faster)"@,
        Comparison::Slower(by) => " ("@ + duration_text(by.millis as nat) + " slower)"@,
    }
}

/// Whichever way the two stand, the difference laid on the shorter gives the
/// longer.
pub proof fn lemma_comparison_accounts_for_difference(now: u64, baseline: u64)
    ensures
        match comparison_of(now as nat, baseline as nat) {
            Comparison::Same => now == baseline,
            Comparison::Faster(by) => by.millis > 0 && now + by.millis == baseline,
            Comparison::Slower(by) => by.millis > 0 && baseline + by.millis == now,
        },
{
}

/// Swapping the measurement and the baseline swaps faster and slower.
pub proof fn lemma_comparison_mirrors(now: u64, baseline: u64)
    ensures
        match comparison_of(now as nat, baseline as nat) {
            Comparison::Same => comparison_of(baseline as nat, now as nat) == Comparison::Same,
            Comparison::Faster(by) => comparison_of(baseline as nat, now as nat)
                == Comparison::Slower(by),
            Comparison::Slower(by) => comparison_of(baseline as nat, now as nat)
                == Comparison::Faster(by),
        },
{
}

impl Statistic {
    /// All the statistics, from the smallest figure to the largest.
    pub fn all() -> (all: Vec<Statistic>)
        ensures
            all@ == all_statistics(),
    {
        let mut all: Vec<Statistic> = Vec::new();
        all.push(Statistic::Min);
        all.push(Statistic::Mean);
        all.push(Statistic::P50);
        all.push(Statistic::P90);
        all.push(Statistic::P99);
        all.push(Statistic::Max);
        assert(all@ =~= all_statistics());
        all
    }

    /// The statistic of the given name, where there is one.
    pub fn with_name(name: &str) -> (stat: Option<Statistic>)
        ensures
            stat == stat_named(name@),
    {
        if same_text(name, Statistic::Min.name()) {
            Some(Statistic::Min)
        } else if same_text(name, Statistic::Mean.name()) {
            Some(Statistic::Mean)
        } else if same_text(name, Statistic::P50.name()) {
            Some(Statistic::P50)
        } else if same_text(name, Statistic::P90.name()) {
            Some(Statistic::P90)
        } else if same_text(name, Statistic::P99.name()) {
            Some(Statistic::P99)
        } else if same_text(name, Statistic::Max.name()) {
            Some(Statistic::Max)
        } else {
            None
        }
    }

    /// The name of the statistic, as in "50%ile".
    pub fn name(&self) -> (name: &'static str)
        ensures
            name@ == stat_name(*self),
    {
        match self {
            Statistic::Min => "minimum",
            Statistic::Mean => "mean",
            Statistic::P50 => "50%ile",
            Statistic::P90 => "90%ile",
            Statistic::P99 => "99%ile",
            Statistic::Max => "maximum",
        }
    }
}

impl StatSnapshot {
    /// How many durations were measured.
    pub fn count(&self) -> (n: usize)
        ensures
            n == self.count,
    {
        self.count
    }

    /// The figure that `stat` names.
    pub fn select(&self, stat: Statistic) -> (figure: Duration)
        ensures
            figure == selected(*self, stat),
    {
        match stat {
            Statistic::Min => self.min,
            Statistic::Mean => self.mean,
            Statistic::P50 => self.p50,
            Statistic::P90 => self.p90,
            Statistic::P99 => self.p99,
            Statistic::Max => self.max,
        }
    }
}

/// How `now` stands against `baseline`.
pub fn compare_to_baseline(now: Duration, baseline: Duration) -> (comparison: Comparison)
    ensures
        comparison == comparison_of(now.millis as nat, baseline.millis as nat),
{
    if now.millis == baseline.millis {
        Comparison::Same
    } else if now.millis < baseline.millis {
        Comparison::Faster(Duration { millis: baseline.millis - now.millis })
    } else {
        Comparison::Slower(Duration { millis: now.millis - baseline.millis })
    }
}

impl Comparison {
    /// The comparison in words, to stand behind the measurement.
    pub fn text(&self) -> (text: String)
        ensures
            text@ == comparison_text(*self),
    {
        match self {
            Comparison::Same => String::from_str(" (same as baseline)"),
            Comparison::Faster(by) => {
                let mut text = String::from_str(" (");
                append_duration(&mut text, *by);
                text.append(" faster)");
                text
            },
            Comparison::Slower(by) => {
                let mut text = String::from_str(" (");
                append_duration(&mut text, *by);
                text.append(" slower)");
                text
            },
        }
    }
}

impl Overlay {
    /// Whether the delays at intersections are shown.
    pub fn is_intersection_delay(&self) -> (b: bool)
        ensures
            b == (*self == Overlay::IntersectionDelay),
    {
        match self {
            Overlay::IntersectionDelay => true,
            _ => false,
        }
    }

    /// Whether the distribution of finished trips is shown.
    pub fn is_finished_trips_histogram(&self) -> (b: bool)
        ensures
            b == (*self == Overlay::FinishedTripsHistogram),
    {
        match self {
            Overlay::FinishedTripsHistogram => true,
            _ => false,
        }
    }

    /// Whether the given bus route is shown.
    pub fn is_bus_route(&self, route: BusRouteID) -> (b: bool)
        ensures
            b == (*self == Overlay::BusRoute(route)),
    {
        match self {
            Overlay::BusRoute(r) => *r == route,
            _ => false,
        }
    }

    /// Whether the delays of the given bus route over time are shown.
    pub fn is_bus_delays_over_time(&self, route: BusRouteID) -> (b: bool)
        ensures
            b == (*self == Overlay::BusDelaysOverTime(route)),
    {
        match self {
            Overlay::BusDelaysOverTime(r) => *r == route,
            _ => false,
        }
    }

    /// Whether the passengers of the given bus route are shown.
    pub fn is_bus_passengers(&self, route: BusRouteID) -> (b: bool)
        ensures
            b == (*self == Overlay::BusPassengers(route)),
    {
        match self {
            Overlay::BusPassengers(r) => *r == route,
            _ => false,
        }
    }
}

} // verus!
