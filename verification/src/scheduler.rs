//! The daily health check: one sweep over the ring, member by member, and
//! then a pause that makes the next sweep start a day after this one did.
//!
//! The library keeps the books; whoever drives a sweep does the waiting.
//! A sweep says which site to probe next, takes the probe's outcome and
//! writes the member's new state into the ring, and at its end says how
//! long to sleep.

use vstd::prelude::*;
use crate::clock::Timestamp;
use crate::health::{classify, verdict, ProbeOutcome, ProbeOutcomeView};
use crate::ring::{checked_ring, lemma_checked_ring_keeps_members, ring_wf, MemberView, Ring};

verus! {

/// The time from the start of one sweep to the start of the next: a day,
/// in nanoseconds.
pub const CHECK_PERIOD_NANOS: u64 = 86_400_000_000_000;

/// Why no pause can follow a sweep.
#[derive(Clone, Copy, Debug, PartialEq, Eq, Structural)]
pub enum SweepError {
    /// The clock shows an earlier time at the end of the sweep than at its
    /// start.
    ClockWentBack,
    /// The sweep took longer than the period.
    Overran,
}

/// A sweep in progress: when it started, and the place of the member that
/// is to be checked next. A sweep whose place lies beyond the ring's last
/// member is complete.
#[derive(Clone, Copy, Debug)]
pub struct Sweep {
    pub started: Timestamp,
    pub cursor: usize,
}

/// What a sweep asks for next.
#[derive(Clone, Debug, PartialEq, Eq)]
pub enum SweepStep {
    /// Probe this site and report the outcome.
    Probe(String),
    /// Every member has been checked: end the sweep.
    Finish,
}

/// A sweep's next step as contracts speak of it.
pub enum SweepStepView {
    Probe(Seq<char>),
    Finish,
}

impl View for SweepStep {
    type V = SweepStepView;

    open spec fn view(&self) -> SweepStepView {
        match self {
            SweepStep::Probe(site) => SweepStepView::Probe(site@),
            SweepStep::Finish => SweepStepView::Finish,
        }
    }
}

/// What a sweep at place `cursor` of the ring asks for next: a probe of the
/// member there, or the end of the sweep where no member is left.
pub open spec fn next_step(ring: Seq<MemberView>, cursor: int) -> SweepStepView {
    if 0 <= cursor < ring.len() {
        SweepStepView::Probe(ring[cursor].site)
    } else {
        SweepStepView::Finish
    }
}

/// The ring after the probe of the member at place `cursor` ended in
/// `outcome` at the time `now`: that member's state is what the outcome
/// says of it, and its time of last check is `now`.
pub open spec fn probed_ring(
    ring: Seq<MemberView>,
    cursor: int,
    outcome: ProbeOutcomeView,
    now: Timestamp,
) -> Seq<MemberView> {
    if 0 <= cursor < ring.len() {
        checked_ring(ring, cursor, verdict(outcome, ring[cursor].name), now)
    } else {
        ring
    }
}

/// How long to sleep after a sweep that started at `started` and ended at
/// `ended`, both read off the local wall clock: the rest of the period,
/// which is nothing where the sweep took exactly the period. A sweep that
/// seems to end before it started, or that took longer than the period, is
/// followed by no pause.
pub open spec fn pause_after(started: Timestamp, ended: Timestamp) -> Result<int, SweepError> {
    let elapsed = ended.local_nanos() - started.local_nanos();
    if elapsed < 0 {
        Err(SweepError::ClockWentBack)
    } else if elapsed > CHECK_PERIOD_NANOS {
        Err(SweepError::Overran)
    } else {
        Ok(CHECK_PERIOD_NANOS - elapsed)
    }
}

/// The ring after a sweep has taken the first `done` of the outcomes
/// `outcomes`, the probe of the member at place `k` having ended at
/// `times[k]`.
pub open spec fn swept_ring(
    ring: Seq<MemberView>,
    outcomes: Seq<ProbeOutcomeView>,
    times: Seq<Timestamp>,
    done: int,
) -> Seq<MemberView>
    decreases done,
{
    if done <= 0 {
        ring
    } else {
        probed_ring(
            swept_ring(ring, outcomes, times, done - 1),
            done - 1,
            outcomes[done - 1],
            times[done - 1],
        )
    }
}

/// A sweep that has taken `done` outcomes has changed the members before
/// place `done` and no others: each of those is in the state that its own
/// outcome says, checked at the time its probe ended. No member's name or
/// site has changed, nor the order, so the ring is still a ring. With
/// `done` the size of the ring this is the ring after the whole sweep.
pub proof fn lemma_sweep_progress(
    ring: Seq<MemberView>,
    outcomes: Seq<ProbeOutcomeView>,
    times: Seq<Timestamp>,
    done: int,
)
    requires
        0 <= done <= ring.len(),
        done <= outcomes.len(),
        done <= times.len(),
    ensures
        swept_ring(ring, outcomes, times, done).len() == ring.len(),
        forall|k: int|
            0 <= k < ring.len() ==> (#[trigger] swept_ring(ring, outcomes, times, done)[k]).name
                == ring[k].name && swept_ring(ring, outcomes, times, done)[k].site == ring[k].site,
        forall|k: int|
            0 <= k < done ==> (#[trigger] swept_ring(ring, outcomes, times, done)[k]).status
                == verdict(outcomes[k], ring[k].name) && swept_ring(
                ring,
                outcomes,
                times,
                done,
            )[k].last_checked == times[k],
        forall|k: int|
            done <= k < ring.len() ==> #[trigger] swept_ring(ring, outcomes, times, done)[k]
                == ring[k],
        ring_wf(ring) ==> ring_wf(swept_ring(ring, outcomes, times, done)),
    decreases done,
{
    if done > 0 {
        lemma_sweep_progress(ring, outcomes, times, done - 1);
        let before = swept_ring(ring, outcomes, times, done - 1);
        lemma_checked_ring_keeps_members(
            before,
            done - 1,
            verdict(outcomes[done - 1], before[done - 1].name),
            times[done - 1],
        );
    }
}

impl Sweep {
    /// Starts a sweep at the time `now`, with the first member to check.
    pub fn begin_at(now: Timestamp) -> (sweep: Sweep)
        ensures
            sweep.started == now,
            sweep.cursor == 0,
    {
        Sweep { started: now, cursor: 0 }
    }

    /// Starts a sweep now, with the first member to check.
    pub fn begin() -> (sweep: Sweep)
        ensures
            sweep.cursor == 0,
            sweep.started.wf(),
    {
        Sweep::begin_at(Timestamp::now())
    }

    /// What the sweep asks for next: a probe of the member it has come to,
    /// or its end.
    pub fn step(&self, ring: &Ring) -> (step: SweepStep)
        ensures
            step@ == next_step(ring@, self.cursor as int),
    {
        match ring.site_at(self.cursor) {
            Some(site) => SweepStep::Probe(site.clone()),
            None => SweepStep::Finish,
        }
    }

    /// Takes the outcome of the probe that the sweep asked for, as it came
    /// in at the time `now`: writes the member's new state and `now` into
    /// the ring and moves on to the member after. Of a complete sweep
    /// nothing changes.
    pub fn record_at(&mut self, ring: &mut Ring, outcome: &ProbeOutcome, now: Timestamp)
        ensures
            final(ring)@ == probed_ring(old(ring)@, old(self).cursor as int, outcome@, now),
            ring_wf(final(ring)@),
            final(self).started == old(self).started,
            old(self).cursor < old(ring)@.len() ==> final(self).cursor == old(self).cursor + 1,
            old(self).cursor >= old(ring)@.len() ==> final(self).cursor == old(self).cursor,
    {
        let n = ring.len();
        if self.cursor < n {
            let status = classify(outcome, ring.name_at(self.cursor).unwrap());
            ring.record(self.cursor, status, now);
            self.cursor = self.cursor + 1;
        }
    }

    /// Takes the outcome of the probe that the sweep asked for: writes the
    /// member's new state and the time of the call into the ring and moves
    /// on to the member after. Of a complete sweep nothing changes.
    pub fn record(&mut self, ring: &mut Ring, outcome: &ProbeOutcome)
        ensures
            exists|now: Timestamp|
                now.wf() && final(ring)@ == #[trigger] probed_ring(
                    old(ring)@,
                    old(self).cursor as int,
                    outcome@,
                    now,
                ),
            ring_wf(final(ring)@),
            final(self).started == old(self).started,
            old(self).cursor < old(ring)@.len() ==> final(self).cursor == old(self).cursor + 1,
            old(self).cursor >= old(ring)@.len() ==> final(self).cursor == old(self).cursor,
    {
        let now = Timestamp::now();
        self.record_at(ring, outcome, now);
    }

    /// Ends the sweep at the time `now`: how many nanoseconds to sleep
    /// before the next sweep, or why there is no telling.
    pub fn finish_at(&self, now: Timestamp) -> (r: Result<u64, SweepError>)
        ensures
            match pause_after(self.started, now) {
                Ok(nanos) => r == Ok::<u64, SweepError>(nanos as u64) && 0 <= nanos
                    <= CHECK_PERIOD_NANOS,
                Err(e) => r == Err::<u64, SweepError>(e),
            },
    {
        let elapsed = now.local_nanos_since(&self.started);
        if elapsed < 0 {
            Err(SweepError::ClockWentBack)
        } else if elapsed > CHECK_PERIOD_NANOS as i128 {
            Err(SweepError::Overran)
        } else {
            Ok((CHECK_PERIOD_NANOS as i128 - elapsed) as u64)
        }
    }

    /// Ends the sweep now: how many nanoseconds to sleep before the next
    /// sweep, or why there is no telling.
    pub fn finish(&self) -> (r: Result<u64, SweepError>)
        ensures
            exists|now: Timestamp|
                now.wf() && match #[trigger] pause_after(self.started, now) {
                    Ok(nanos) => r == Ok::<u64, SweepError>(nanos as u64) && 0 <= nanos
                        <= CHECK_PERIOD_NANOS,
                    Err(e) => r == Err::<u64, SweepError>(e),
                },
    {
        let now = Timestamp::now();
        self.finish_at(now)
    }
}

} // verus!
