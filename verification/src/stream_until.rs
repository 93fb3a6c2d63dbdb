//! The sequence terminator: cuts a primary sequence short when a secondary
//! event sequence signals termination.
//!
//! The combinator is driven poll by poll: the caller polls the primary
//! sequence first and, only when that yields nothing yet, the event sequence,
//! hands both observations to [`StreamUntil::step`], and obeys the answer.
//! The event sequence never contributes values: an event for which the
//! caller's predicate holds, or the end of the event sequence, ends the
//! combined sequence. Once ended, the combinator is fused: every later poll
//! answers that the sequence is over, whatever the inputs.

use vstd::prelude::*;

verus! {

/// What the caller observed when polling the primary sequence: a value, its
/// end, or nothing yet.
#[derive(Debug)]
pub enum PrimaryPoll<T> {
    Item(T),
    Finished,
    Pending,
}

/// What the caller observed when polling the event sequence: an event item —
/// reduced to whether the termination predicate held of it — its end, or
/// nothing yet. Report `Skipped` when the primary sequence was ready, so the
/// event sequence was not polled at all.
#[derive(Clone, Copy, PartialEq, Eq, Structural, Debug)]
pub enum EventPoll {
    Item { hit: bool },
    Finished,
    Pending,
    Skipped,
}

/// The combinator's answer for one poll: pass a primary value through, end
/// the combined sequence for good, or keep waiting.
#[derive(Debug)]
pub enum StreamStep<T> {
    Yield(T),
    Ended,
    Pending,
}

/// Cuts a primary sequence short when an event sequence signals termination,
/// and stays ended from then on.
#[derive(Debug)]
pub struct StreamUntil {
    pub done: bool,
}

impl StreamUntil {
    /// The answer one poll of the combined sequence gets:
    /// - once ended, always ended, whatever was observed;
    /// - a primary value passes through;
    /// - the primary sequence's own end ends the combination;
    /// - with the primary pending, a hitting event or the end of the event
    ///   sequence ends the combination; a non-hitting event or a pending
    ///   event sequence leaves the combination pending.
    pub open spec fn step_decision<T>(
        &self,
        primary: PrimaryPoll<T>,
        event: EventPoll,
    ) -> StreamStep<T> {
        if self.done {
            StreamStep::Ended
        } else {
            match primary {
                PrimaryPoll::Item(t) => StreamStep::Yield(t),
                PrimaryPoll::Finished => StreamStep::Ended,
                PrimaryPoll::Pending => match event {
                    EventPoll::Item { hit } => if hit {
                        StreamStep::Ended
                    } else {
                        StreamStep::Pending
                    },
                    EventPoll::Finished => StreamStep::Ended,
                    EventPoll::Pending => StreamStep::Pending,
                    EventPoll::Skipped => StreamStep::Pending,
                },
            }
        }
    }

    /// Creates the combinator, not yet ended.
    pub fn create() -> (r: Self)
        ensures
            !r.done,
    {
        StreamUntil { done: false }
    }

    /// Decides one poll of the combined sequence; see
    /// [`StreamUntil::step_decision`]. The end, once answered, is recorded,
    /// so it is permanent.
    pub fn step<T>(&mut self, primary: PrimaryPoll<T>, event: EventPoll) -> (r: StreamStep<T>)
        ensures
            r == old(self).step_decision(primary, event),
            final(self).done == (old(self).done || r is Ended),
    {
        if self.done {
            return StreamStep::Ended;
        }
        match primary {
            PrimaryPoll::Item(t) => StreamStep::Yield(t),
            PrimaryPoll::Finished => {
                self.done = true;
                StreamStep::Ended
            },
            PrimaryPoll::Pending => match event {
                EventPoll::Item { hit } => {
                    if hit {
                        self.done = true;
                        StreamStep::Ended
                    } else {
                        StreamStep::Pending
                    }
                },
                EventPoll::Finished => {
                    self.done = true;
                    StreamStep::Ended
                },
                EventPoll::Pending => StreamStep::Pending,
                EventPoll::Skipped => StreamStep::Pending,
            },
        }
    }
}

/// The combined sequence is cut no later than a hitting event: a hitting
/// event observed while the primary sequence is pending ends it on the spot.
pub proof fn lemma_terminates_on_hit<T>(s: StreamUntil)
    requires
        !s.done,
    ensures
        s.step_decision::<T>(PrimaryPoll::Pending, EventPoll::Item { hit: true }) is Ended,
{
}

/// The end is permanent: an ended combination answers every later poll with
/// the end of the sequence, whatever is observed, and never yields again.
pub proof fn lemma_fused<T>(s: StreamUntil, primary: PrimaryPoll<T>, event: EventPoll)
    requires
        s.done,
    ensures
        s.step_decision(primary, event) is Ended,
{
}

/// The combined sequence yields only values of the primary sequence: whenever
/// a poll yields a value, the primary sequence produced exactly that value.
pub proof fn lemma_yields_only_primary<T>(s: StreamUntil, primary: PrimaryPoll<T>, event: EventPoll)
    ensures
        s.step_decision(primary, event) matches StreamStep::Yield(v) ==> primary
            == PrimaryPoll::Item(v),
{
}

} // verus!
