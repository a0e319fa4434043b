//! Durations in whole milliseconds, and the discrete clock of the replay.

use vstd::prelude::*;

verus! {

/// Milliseconds that one tick of the replay clock spans.
pub const TIMESTEP_MILLIS: u64 = 100;

/// Milliseconds from the start of a simulated day to its end.
pub const END_OF_DAY_MILLIS: u64 = 86_400_000;

/// A span of time, or a time of day counted from its start, in milliseconds.
#[derive(Clone, Copy, PartialEq, Eq, Structural, PartialOrd, Ord, Debug, Hash)]
pub struct Duration {
    pub millis: u64,
}

impl Duration {
    pub fn zero() -> (d: Duration)
        ensures
            d.millis == 0,
    {
        Duration { millis: 0 }
    }

    /// The time at which a simulated day starts.
    pub fn start_of_day() -> (d: Duration)
        ensures
            d.millis == 0,
    {
        Duration { millis: 0 }
    }

    /// The time at which a simulated day ends.
    pub fn end_of_day() -> (d: Duration)
        ensures
            d.millis == END_OF_DAY_MILLIS,
    {
        Duration { millis: END_OF_DAY_MILLIS }
    }

    pub fn millis(n: u64) -> (d: Duration)
        ensures
            d.millis == n,
    {
        Duration { millis: n }
    }

    pub fn seconds(n: u32) -> (d: Duration)
        ensures
            d.millis == n * 1000,
    {
        let wide: u64 = n as u64;
        Duration { millis: wide * 1000 }
    }
}

/// One step of the replay clock.
#[derive(Clone, Copy, PartialEq, Eq, Structural, PartialOrd, Ord, Debug, Hash)]
pub struct Tick(pub u32);

/// The tick after `t`.
pub open spec fn next_of(t: nat) -> nat {
    t + 1
}

/// The tick before `t`; meaningful for `t > 0` only.
pub open spec fn prev_of(t: nat) -> nat
    recommends
        t > 0,
{
    (t - 1) as nat
}

/// The time at which tick `t` starts, in milliseconds.
pub open spec fn time_of_tick(t: nat) -> nat {
    t * (TIMESTEP_MILLIS as nat)
}

/// The tick that is current at `millis`.
pub open spec fn tick_of_time(millis: nat) -> nat {
    millis / (TIMESTEP_MILLIS as nat)
}

impl Tick {
    pub fn zero() -> (t: Tick)
        ensures
            t.0 == 0,
    {
        Tick(0)
    }

    pub fn is_zero(&self) -> (b: bool)
        ensures
            b == (self.0 == 0),
    {
        self.0 == 0
    }

    pub fn next(&self) -> (t: Tick)
        requires
            self.0 < u32::MAX,
        ensures
            t.0 == next_of(self.0 as nat),
    {
        Tick(self.0 + 1)
    }

    pub fn prev(&self) -> (t: Tick)
        requires
            self.0 > 0,
        ensures
            t.0 == prev_of(self.0 as nat),
    {
        Tick(self.0 - 1)
    }

    pub fn as_time(&self) -> (d: Duration)
        ensures
            d.millis == time_of_tick(self.0 as nat),
    {
        let wide: u64 = self.0 as u64;
        Duration { millis: wide * TIMESTEP_MILLIS }
    }
}

/// The tick that is current at time `d`, or `None` where the clock cannot
/// count that far.
pub fn time_to_tick(d: Duration) -> (t: Option<Tick>)
    ensures
        t is Some <==> tick_of_time(d.millis as nat) <= u32::MAX,
        t matches Some(tick) ==> tick.0 == tick_of_time(d.millis as nat),
{
    let steps: u64 = d.millis / TIMESTEP_MILLIS;
    if steps <= 0xffff_ffff {
        Some(Tick(steps as u32))
    } else {
        None
    }
}

/// Stepping forward and then back returns to the same tick, and a step
/// forward never lands short of the next tick.
pub proof fn lemma_prev_undoes_next(t: nat)
    ensures
        prev_of(next_of(t)) == t,
        next_of(t) >= t + 1,
        next_of(t) > 0,
{
}

/// Every tick is recovered from the time at which it starts.
pub proof fn lemma_tick_of_its_own_time(t: nat)
    ensures
        tick_of_time(time_of_tick(t)) == t,
        time_of_tick(t) % (TIMESTEP_MILLIS as nat) == 0,
{
}

/// A time that falls on a step boundary is the start of its own tick.
pub proof fn lemma_aligned_time_round_trip(millis: nat)
    requires
        millis % (TIMESTEP_MILLIS as nat) == 0,
    ensures
        time_of_tick(tick_of_time(millis)) == millis,
{
}

} // verus!
