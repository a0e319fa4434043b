//! The phase cycle of a traffic signal, and which phase is showing at a given
//! time. The cycle repeats without end: time is taken modulo its total
//! duration.

use crate::ids::TurnID;
use crate::seqs::{lemma_filter_of_none, lemma_filter_one_more, lemma_take_all};
use crate::time::Duration;
use vstd::prelude::*;

verus! {

/// A part of a signal's cycle, during which one fixed set of turns may go.
#[derive(Debug, PartialEq, Eq)]
pub struct Phase {
    pub duration: Duration,
    pub permitted: Vec<TurnID>,
}

impl Clone for Phase {
    fn clone(&self) -> (copy: Phase)
        ensures
            copy.duration == self.duration,
            copy.permitted@ == self.permitted@,
    {
        let mut permitted: Vec<TurnID> = Vec::new();
        let mut i: usize = 0;
        while i < self.permitted.len()
            invariant
                i <= self.permitted.len(),
                permitted@ == self.permitted@.take(i as int),
            decreases self.permitted.len() - i,
        {
            permitted.push(self.permitted[i]);
            assert(self.permitted@.take(i + 1) =~= self.permitted@.take(i as int).push(
                self.permitted@[i as int],
            ));
            i += 1;
        }
        proof {
            lemma_take_all(self.permitted@);
        }
        Phase { duration: self.duration, permitted }
    }
}

/// Milliseconds that the first `n` phases take together.
pub open spec fn elapsed_through(phases: Seq<Phase>, n: int) -> nat
    decreases n,
{
    if n <= 0 {
        0
    } else {
        elapsed_through(phases, n - 1) + phases[n - 1].duration.millis as nat
    }
}

/// Milliseconds that one pass through all the phases takes.
pub open spec fn total_duration(phases: Seq<Phase>) -> nat {
    elapsed_through(phases, phases.len() as int)
}

/// What makes a sequence of phases a cycle: there is a phase, each phase
/// lasts, and the whole fits the clock.
pub open spec fn valid_phases(phases: Seq<Phase>) -> bool {
    &&& phases.len() > 0
    &&& forall|i: int| 0 <= i < phases.len() ==> (#[trigger] phases[i]).duration.millis > 0
    &&& total_duration(phases) <= u64::MAX
}

/// Phase `idx` is the one showing when `offset` milliseconds of the current
/// pass have gone by.
pub open spec fn phase_covers(phases: Seq<Phase>, idx: int, offset: nat) -> bool {
    &&& 0 <= idx < phases.len()
    &&& elapsed_through(phases, idx) <= offset < elapsed_through(phases, idx + 1)
}

/// Phase `idx` is the one showing at time `now`.
pub open spec fn phase_showing(phases: Seq<Phase>, idx: int, now: nat) -> bool {
    phase_covers(phases, idx, now % total_duration(phases))
}

/// The place in the cycle of the phase showing at time `now`.
pub open spec fn showing_phase(phases: Seq<Phase>, now: nat) -> int {
    choose|idx: int| phase_showing(phases, idx, now)
}

/// Milliseconds from `now` to the end of phase `idx`, the phase showing.
pub open spec fn remaining_in_phase(phases: Seq<Phase>, idx: int, now: nat) -> int {
    elapsed_through(phases, idx + 1) - now % total_duration(phases)
}

/// The height to which a bar of `height` is filled when `remaining` of
/// `duration` is left.
pub open spec fn timer_fill(remaining: nat, duration: nat, height: nat) -> nat {
    remaining * height / duration
}

/// The first `n` phases never take longer than the first `m`, for `n <= m`.
pub proof fn lemma_elapsed_grows(phases: Seq<Phase>, n: int, m: int)
    requires
        n <= m,
    ensures
        elapsed_through(phases, n) <= elapsed_through(phases, m),
    decreases m - n,
{
    if n < m {
        lemma_elapsed_grows(phases, n, m - 1);
    }
}

/// Where every phase lasts, each further phase adds time.
pub proof fn lemma_elapsed_grows_strictly(phases: Seq<Phase>, n: int, m: int)
    requires
        0 <= n < m <= phases.len(),
        forall|i: int| 0 <= i < phases.len() ==> (#[trigger] phases[i]).duration.millis > 0,
    ensures
        elapsed_through(phases, n) < elapsed_through(phases, m),
    decreases m - n,
{
    if n + 1 < m {
        lemma_elapsed_grows_strictly(phases, n, m - 1);
    }
}

/// A valid cycle takes time.
pub proof fn lemma_total_is_positive(phases: Seq<Phase>)
    requires
        valid_phases(phases),
    ensures
        total_duration(phases) > 0,
{
    lemma_elapsed_grows_strictly(phases, 0, phases.len() as int);
}

/// At most one phase covers an offset.
pub proof fn lemma_one_phase_covers(phases: Seq<Phase>, i: int, j: int, offset: nat)
    requires
        phase_covers(phases, i, offset),
        phase_covers(phases, j, offset),
    ensures
        i == j,
{
    if i < j {
        lemma_elapsed_grows(phases, i + 1, j);
    } else if j < i {
        lemma_elapsed_grows(phases, j + 1, i);
    }
}

/// Some phase covers every offset within one pass of a valid cycle.
pub proof fn lemma_some_phase_covers(phases: Seq<Phase>, offset: nat) -> (idx: int)
    requires
        valid_phases(phases),
        offset < total_duration(phases),
    ensures
        phase_covers(phases, idx, offset),
{
    lemma_phase_found_before(phases, offset, phases.len() as int)
}

proof fn lemma_phase_found_before(phases: Seq<Phase>, offset: nat, n: int) -> (idx: int)
    requires
        0 <= n <= phases.len(),
        offset < elapsed_through(phases, n),
    ensures
        phase_covers(phases, idx, offset),
        idx < n,
    decreases n,
{
    if elapsed_through(phases, n - 1) <= offset {
        n - 1
    } else {
        lemma_phase_found_before(phases, offset, n - 1)
    }
}

/// The phase showing at a time is the only one that covers it.
pub proof fn lemma_showing_phase_is(phases: Seq<Phase>, idx: int, now: nat)
    requires
        phase_showing(phases, idx, now),
    ensures
        showing_phase(phases, now) == idx,
{
    let chosen = showing_phase(phases, now);
    lemma_one_phase_covers(phases, chosen, idx, now % total_duration(phases));
}

/// The signal shows the same phase, with the same time left in it, one whole
/// cycle later.
pub proof fn lemma_cycle_repeats(phases: Seq<Phase>, idx: int, now: nat)
    requires
        valid_phases(phases),
    ensures
        phase_showing(phases, idx, now) <==> phase_showing(
            phases,
            idx,
            now + total_duration(phases),
        ),
        remaining_in_phase(phases, idx, now) == remaining_in_phase(
            phases,
            idx,
            now + total_duration(phases),
        ),
{
    lemma_total_is_positive(phases);
    let total = total_duration(phases) as int;
    vstd::arithmetic::div_mod::lemma_mod_add_multiples_vanish(now as int, total);
}

/// The signal shows the same phase, with the same time left in it, any
/// number of whole cycles later.
pub proof fn lemma_cycle_repeats_forever(phases: Seq<Phase>, idx: int, now: nat, passes: nat)
    requires
        valid_phases(phases),
    ensures
        phase_showing(phases, idx, now) <==> phase_showing(
            phases,
            idx,
            now + passes * total_duration(phases),
        ),
        remaining_in_phase(phases, idx, now) == remaining_in_phase(
            phases,
            idx,
            now + passes * total_duration(phases),
        ),
{
    lemma_total_is_positive(phases);
    let total = total_duration(phases) as int;
    vstd::arithmetic::div_mod::lemma_mod_multiples_vanish(passes as int, now as int, total);
    assert(total * passes + now == now + passes * total) by (nonlinear_arith);
}

/// While a phase shows, the time left in it is more than nothing and no more
/// than the phase lasts.
pub proof fn lemma_remaining_is_within_phase(phases: Seq<Phase>, idx: int, now: nat)
    requires
        phase_showing(phases, idx, now),
    ensures
        0 < remaining_in_phase(phases, idx, now) <= phases[idx].duration.millis,
{
}

impl Phase {
    /// Whether `turn` may go during this phase.
    pub fn permits(&self, turn: TurnID) -> (b: bool)
        ensures
            b == self.permitted@.contains(turn),
    {
        let mut i: usize = 0;
        while i < self.permitted.len()
            invariant
                i <= self.permitted.len(),
                forall|j: int| 0 <= j < i ==> self.permitted@[j] != turn,
            decreases self.permitted.len() - i,
        {
            if self.permitted[i] == turn {
                return true;
            }
            i += 1;
        }
        false
    }

    /// Those of `crosswalks` that may not go during this phase, in their order.
    pub fn absent_crosswalks(&self, crosswalks: &Vec<TurnID>) -> (absent: Vec<TurnID>)
        ensures
            absent@ == crosswalks@.filter(|t: TurnID| !self.permitted@.contains(t)),
    {
        let ghost keep = |t: TurnID| !self.permitted@.contains(t);
        let mut absent: Vec<TurnID> = Vec::new();
        let mut i: usize = 0;
        proof {
            lemma_filter_of_none(crosswalks@, keep);
        }
        while i < crosswalks.len()
            invariant
                i <= crosswalks.len(),
                keep == |t: TurnID| !self.permitted@.contains(t),
                absent@ == crosswalks@.take(i as int).filter(keep),
            decreases crosswalks.len() - i,
        {
            let turn = crosswalks[i];
            proof {
                lemma_filter_one_more(crosswalks@, i as int, keep);
            }
            if !self.permits(turn) {
                absent.push(turn);
            }
            i += 1;
        }
        proof {
            lemma_take_all(crosswalks@);
        }
        absent
    }
}

/// The repeating sequence of phases of one signal.
#[derive(Debug)]
pub struct SignalCycle {
    phases: Vec<Phase>,
    total: u64,
}

impl View for SignalCycle {
    type V = Seq<Phase>;

    closed spec fn view(&self) -> Seq<Phase> {
        self.phases@
    }
}

impl SignalCycle {
    #[verifier::type_invariant]
    spec fn well_formed(&self) -> bool {
        &&& valid_phases(self.phases@)
        &&& self.total == total_duration(self.phases@)
    }

    /// A cycle of the given phases, or `None` where they do not make one.
    pub fn new(phases: Vec<Phase>) -> (cycle: Option<SignalCycle>)
        ensures
            cycle is Some <==> valid_phases(phases@),
            cycle matches Some(c) ==> c@ == phases@,
    {
        if phases.len() == 0 {
            return None;
        }
        let mut total: u64 = 0;
        let mut i: usize = 0;
        while i < phases.len()
            invariant
                i <= phases.len(),
                total == elapsed_through(phases@, i as int),
                forall|j: int| 0 <= j < i ==> (#[trigger] phases@[j]).duration.millis > 0,
            decreases phases.len() - i,
        {
            let lasts: u64 = phases[i].duration.millis;
            if lasts == 0 {
                return None;
            }
            match total.checked_add(lasts) {
                Some(sum) => {
                    total = sum;
                },
                None => {
                    proof {
                        lemma_elapsed_grows(phases@, i + 1, phases.len() as int);
                    }
                    return None;
                },
            }
            i += 1;
        }
        Some(SignalCycle { phases, total })
    }

    /// How many phases the cycle has.
    pub fn len(&self) -> (n: usize)
        ensures
            n == self@.len(),
            n > 0,
    {
        proof {
            use_type_invariant(self);
        }
        self.phases.len()
    }

    /// The phase at `idx`.
    pub fn phase(&self, idx: usize) -> (p: &Phase)
        requires
            idx < self@.len(),
        ensures
            *p == self@[idx as int],
    {
        &self.phases[idx]
    }

    /// How long one pass through the cycle takes.
    pub fn total_duration(&self) -> (d: Duration)
        ensures
            d.millis == total_duration(self@),
            d.millis > 0,
    {
        proof {
            use_type_invariant(self);
            lemma_total_is_positive(self.phases@);
        }
        Duration { millis: self.total }
    }

    /// The phase showing at time `now`: its place in the cycle, the phase
    /// itself, and the time left until the next phase starts.
    pub fn current_phase_and_remaining_time(&self, now: Duration) -> (at: (
        usize,
        &Phase,
        Duration,
    ))
        ensures
            valid_phases(self@),
            phase_showing(self@, at.0 as int, now.millis as nat),
            at.0 == showing_phase(self@, now.millis as nat),
            *at.1 == self@[at.0 as int],
            at.2.millis == remaining_in_phase(self@, at.0 as int, now.millis as nat),
            0 < at.2.millis <= at.1.duration.millis,
    {
        proof {
            use_type_invariant(self);
            lemma_total_is_positive(self.phases@);
        }
        let offset: u64 = now.millis % self.total;
        let mut idx: usize = 0;
        let mut upto: u64 = 0;
        while offset - upto >= self.phases[idx as usize].duration.millis
            invariant
                valid_phases(self.phases@),
                self.total == total_duration(self.phases@),
                idx < self.phases.len(),
                upto == elapsed_through(self.phases@, idx as int),
                upto <= offset < self.total,
            decreases self.phases.len() - idx,
        {
            upto = upto + self.phases[idx].duration.millis;
            idx = idx + 1;
            proof {
                if idx == self.phases.len() {
                    assert(false);
                }
            }
        }
        let showing = &self.phases[idx];
        proof {
            lemma_showing_phase_is(self.phases@, idx as int, now.millis as nat);
        }
        (idx, showing, Duration { millis: showing.duration.millis - (offset - upto) })
    }
}

/// The height to which the countdown bar of a phase is filled: the share of
/// `height` that `remaining` is of `duration`, rounded down.
pub fn timer_fill_height(remaining: Duration, duration: Duration, height: u32) -> (filled: u32)
    requires
        duration.millis > 0,
        remaining.millis <= duration.millis,
    ensures
        filled == timer_fill(remaining.millis as nat, duration.millis as nat, height as nat),
        filled <= height,
{
    let left: u128 = remaining.millis as u128;
    let whole: u128 = duration.millis as u128;
    let tall: u128 = height as u128;
    assert(left * tall <= whole * tall) by (nonlinear_arith)
        requires
            left <= whole,
    ;
    assert(whole * tall <= 0xffff_ffff_ffff_ffff * 0xffff_ffff) by (nonlinear_arith)
        requires
            whole <= 0xffff_ffff_ffff_ffff,
            tall <= 0xffff_ffff,
    ;
    let scaled: u128 = left * tall;
    let filled: u128 = scaled / whole;
    assert(filled <= tall) by (nonlinear_arith)
        requires
            scaled <= whole * tall,
            whole > 0,
            filled == scaled / whole,
    ;
    filled as u32
}

} // verus!
