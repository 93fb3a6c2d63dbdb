//! The single-flight lock: serializes one in-flight correlated operation per
//! resource and delivers its eventual result (or a timeout) to the task that
//! initiated it.
//!
//! An [`Excluder`] owns at most one active lock generation ([`LockMark`]) at a
//! time, together with the most recently completed value. Locking installs a
//! fresh generation and hands back a [`ResultWaiter`] bound to it; the
//! transport callback calls [`Excluder::unlock`], which stores the value,
//! clears the generation and wakes everyone listening on its signal channel.
//!
//! All waiting is event-driven: a task that finds the lock held asks
//! [`Excluder::lock_step`] what to do with the instant it observes, sleeps or
//! listens as told, and asks again, so that the decision rules are verified
//! while the suspension itself happens in the caller.

use vstd::prelude::*;
use async_broadcast::{Sender, Receiver, InactiveReceiver};

verus! {

#[verifier::external_type_specification]
#[verifier::external_body]
#[verifier::reject_recursive_types(T)]
pub struct ExSender<T>(Sender<T>);

#[verifier::external_type_specification]
#[verifier::external_body]
#[verifier::reject_recursive_types(T)]
pub struct ExReceiver<T>(Receiver<T>);

#[verifier::external_type_specification]
#[verifier::external_body]
#[verifier::reject_recursive_types(T)]
pub struct ExInactiveReceiver<T>(InactiveReceiver<T>);

/// Relies on async_broadcast::broadcast: creates a fresh signal channel whose
/// receivers wake when a unit message is broadcast. Capacity two suffices:
/// per generation at most one completion and one abandonment signal are sent.
#[verifier::external_body]
fn signal_channel() -> (Sender<()>, Receiver<()>) {
    async_broadcast::broadcast(2)
}

/// Relies on Receiver::clone: another receiving end of the same channel.
#[verifier::external_body]
fn clone_receiver(r: &Receiver<()>) -> Receiver<()> {
    r.clone()
}

/// Relies on Receiver::deactivate: keeps the channel open without holding
/// messages back for this end.
#[verifier::external_body]
fn deactivate_receiver(r: Receiver<()>) -> InactiveReceiver<()> {
    r.deactivate()
}

/// Relies on Receiver::new_sender: a sending end of the same channel.
#[verifier::external_body]
fn new_sender_of(r: &Receiver<()>) -> Sender<()> {
    r.new_sender()
}

/// Relies on Sender::try_broadcast: wakes every receiver listening on the
/// channel, without waiting. The result is ignored: a channel with no active
/// receiver, or one already carrying both of the signals a generation can
/// see, means nobody needs this wake.
#[verifier::external_body]
fn signal_all(s: &Sender<()>) {
    let _ = s.try_broadcast(());
}

/// Addition on instants that stops at the end of time instead of wrapping.
pub open spec fn sat_add_spec(a: u64, b: u64) -> u64 {
    if a + b <= u64::MAX {
        (a + b) as u64
    } else {
        u64::MAX
    }
}

/// Adds a duration to an instant, stopping at the largest representable
/// instant instead of wrapping.
pub fn sat_add(a: u64, b: u64) -> (r: u64)
    ensures
        r == sat_add_spec(a, b),
{
    if a <= u64::MAX - b {
        a + b
    } else {
        u64::MAX
    }
}

/// One instance of "the lock is held": a monotonically increasing generation
/// identifier, the signal channel that wakes anyone waiting on this
/// generation, and the deadline committed by the generation's own waiter
/// (absent until the waiter commits it).
#[derive(Debug)]
pub struct LockMark {
    pub id: u64,
    pub deadline: Option<u64>,
    pub signal: Sender<()>,
    pub keeper: InactiveReceiver<()>,
}

/// The single-flight lock itself: the active generation (if any), the most
/// recently completed value, and the configured default timeout.
#[derive(Debug)]
pub struct Excluder<T> {
    pub current: Option<LockMark>,
    pub last_val: Option<T>,
    pub timeout_ms: u64,
    pub next_id: u64,
}

/// A single-use capability bound to one lock generation, used to wait for
/// that generation's completion signal.
#[derive(Debug)]
pub struct ResultWaiter {
    pub gen_id: u64,
    pub deadline: Option<u64>,
    pub timeout_ms: u64,
    pub receiver: Receiver<()>,
}

/// What a task that wants the lock should do at a given instant: install a
/// fresh generation now, or wait for a wake signal up to `until`, remembering
/// in `track` which generation it has been waiting on without a committed
/// deadline.
#[derive(Clone, Copy, PartialEq, Eq, Structural, Debug)]
pub enum LockStep {
    Acquire,
    Wait { until: u64, track: Option<u64> },
}

/// Relates the active generation before and after a deadline commit aimed at
/// generation `gen_id`: if that generation is the active one and has no
/// committed deadline yet, it now carries deadline `d` and nothing else about
/// it changed; otherwise the active generation is untouched.
pub open spec fn deadline_committed<T>(
    pre: Excluder<T>,
    post: Excluder<T>,
    gen_id: u64,
    d: u64,
) -> bool {
    match pre.current {
        Some(m) => if m.id == gen_id && m.deadline is None {
            post.current matches Some(m2) && m2.id == m.id && m2.deadline == Some(d)
                && m2.signal == m.signal && m2.keeper == m.keeper
        } else {
            post.current == pre.current
        },
        None => post.current == pre.current,
    }
}

/// Relates an excluder before and after installing a fresh lock generation to
/// the waiter handed out: the new generation carries the next identifier and
/// no committed deadline, the identifier counter advances, everything else is
/// untouched, and the waiter is bound to the new generation.
pub open spec fn acquired<T>(pre: Excluder<T>, post: Excluder<T>, w: ResultWaiter) -> bool {
    &&& post.current matches Some(m) && m.id == pre.next_id && m.deadline is None
    &&& post.next_id == pre.next_id + 1
    &&& post.last_val == pre.last_val
    &&& post.timeout_ms == pre.timeout_ms
    &&& w.gen_id == pre.next_id
    &&& w.deadline is None
    &&& w.timeout_ms == pre.timeout_ms
}

impl<T> Excluder<T> {
    /// The generation identifier of the active lock generation.
    pub open spec fn current_id(&self) -> u64
        recommends
            self.current is Some,
    {
        self.current->Some_0.id
    }

    /// What waiting on this excluder yields once the race between the wake
    /// signal and the deadline is decided: the last completed value if the
    /// signal won, nothing if the deadline elapsed first.
    pub open spec fn wait_result(&self, signaled: bool) -> Option<T> {
        if signaled {
            self.last_val
        } else {
            None
        }
    }

    /// The decision a task wanting the lock must take at instant `now`,
    /// having so far waited without a committed deadline on the generation
    /// recorded in `waited`:
    /// - no active generation: take the lock;
    /// - a committed deadline that has passed: reclaim the lock;
    /// - a committed deadline still ahead: wait for it;
    /// - no committed deadline, first observation: wait the default timeout
    ///   and remember the generation;
    /// - no committed deadline after already waiting on this very
    ///   generation: reclaim it unconditionally.
    pub open spec fn lock_decision(&self, now: u64, waited: Option<u64>) -> LockStep {
        match self.current {
            None => LockStep::Acquire,
            Some(m) => {
                let same = waited == Some(m.id);
                match m.deadline {
                    Some(d) => if d <= now {
                        LockStep::Acquire
                    } else {
                        LockStep::Wait { until: d, track: if same { waited } else { None } }
                    },
                    None => if same || self.timeout_ms == 0 {
                        LockStep::Acquire
                    } else {
                        LockStep::Wait {
                            until: sat_add_spec(now, self.timeout_ms),
                            track: Some(m.id),
                        }
                    },
                }
            },
        }
    }

    /// Creates a new unlocked excluder with the given default timeout.
    pub fn new(callback_timeout_ms: u64) -> (r: Self)
        ensures
            r.current is None,
            r.last_val is None,
            r.timeout_ms == callback_timeout_ms,
            r.next_id == 0,
    {
        Excluder { current: None, last_val: None, timeout_ms: callback_timeout_ms, next_id: 0 }
    }

    /// Returns the last value delivered by the transport callback.
    pub fn last_value(&self) -> (r: Option<&T>)
        ensures
            r is Some <==> self.last_val is Some,
            r matches Some(v) ==> self.last_val matches Some(lv) && *v == lv,
    {
        self.last_val.as_ref()
    }

    /// Decides what a task wanting the lock should do at instant `now`; see
    /// [`Excluder::lock_decision`]. The caller loops: on `Wait` it listens on
    /// the active generation's signal channel until `until`, then asks again
    /// with the returned `track`; on `Acquire` it calls
    /// [`Excluder::acquire`].
    pub fn lock_step(&self, now: u64, waited: Option<u64>) -> (r: LockStep)
        ensures
            r == self.lock_decision(now, waited),
    {
        match &self.current {
            None => LockStep::Acquire,
            Some(m) => {
                let same = match waited {
                    Some(prev) => prev == m.id,
                    None => false,
                };
                match m.deadline {
                    Some(d) => {
                        if d <= now {
                            LockStep::Acquire
                        } else {
                            LockStep::Wait { until: d, track: if same { waited } else { None } }
                        }
                    },
                    None => {
                        if same || self.timeout_ms == 0 {
                            LockStep::Acquire
                        } else {
                            LockStep::Wait { until: sat_add(now, self.timeout_ms), track: Some(m.id) }
                        }
                    },
                }
            },
        }
    }

    /// Installs a fresh lock generation unconditionally and returns the
    /// waiter bound to it. Call this when [`Excluder::lock_step`] answered
    /// `Acquire`; installing over an expired generation is the intended
    /// reclamation of a stale lock.
    pub fn acquire(&mut self) -> (w: ResultWaiter)
        requires
            old(self).next_id < u64::MAX,
        ensures
            acquired(*old(self), *final(self), w),
    {
        let (sender, receiver) = signal_channel();
        let keeper = deactivate_receiver(clone_receiver(&receiver));
        let id = self.next_id;
        self.next_id = self.next_id + 1;
        let timeout_ms = self.timeout_ms;
        self.current = Some(LockMark { id, deadline: None, signal: sender, keeper });
        ResultWaiter { gen_id: id, deadline: None, timeout_ms, receiver }
    }

    /// Locks the excluder if it is currently unlocked or its generation's
    /// committed deadline has passed; returns nothing otherwise, in
    /// particular while an active generation has not committed a deadline
    /// yet (a non-blocking caller cannot wait the default timeout out).
    pub fn try_lock(&mut self, now: u64) -> (r: Option<ResultWaiter>)
        requires
            old(self).next_id < u64::MAX,
        ensures
            r is Some <==> (old(self).current is None
                || (old(self).current->Some_0.deadline matches Some(d) && d <= now)),
            r matches Some(w) ==> acquired(*old(self), *final(self), w),
            r is None ==> *final(self) == *old(self),
    {
        let acquirable = match &self.current {
            None => true,
            Some(m) => match m.deadline {
                Some(d) => d <= now,
                None => false,
            },
        };
        if acquirable {
            Some(self.acquire())
        } else {
            None
        }
    }

    /// Delivers the completion signal from the transport callback: stores the
    /// value as the last completed one — whether or not anyone is waiting —
    /// clears the active generation and wakes everyone listening on it.
    pub fn unlock(&mut self, result: T)
        ensures
            final(self).last_val == Some(result),
            final(self).current is None,
            final(self).timeout_ms == old(self).timeout_ms,
            final(self).next_id == old(self).next_id,
    {
        self.last_val = Some(result);
        let mark = self.current.take();
        match mark {
            Some(m) => signal_all(&m.signal),
            None => (),
        }
    }

    /// Tears the excluder down: clears the last completed value and
    /// force-unlocks any active generation, so that every extant waiter
    /// resolves to "no result" rather than hanging.
    pub fn close(&mut self)
        ensures
            final(self).last_val is None,
            final(self).current is None,
            final(self).timeout_ms == old(self).timeout_ms,
            final(self).next_id == old(self).next_id,
    {
        self.last_val = None;
        let mark = self.current.take();
        match mark {
            Some(m) => signal_all(&m.signal),
            None => (),
        }
    }

    /// Commits the waiter's deadline to `now` plus its timeout — the first
    /// commit wins — and records it on the waiter's own generation if that
    /// generation is still the active one. Returns the deadline the waiter
    /// should race the wake signal against.
    pub fn commit_deadline(&mut self, w: &mut ResultWaiter, now: u64) -> (d: u64)
        ensures
            final(w).deadline is Some,
            final(w).deadline == Some(d),
            final(w).gen_id == old(w).gen_id,
            final(w).timeout_ms == old(w).timeout_ms,
            final(w).receiver == old(w).receiver,
            old(w).deadline matches Some(pd) ==> d == pd && *final(self) == *old(self),
            old(w).deadline is None ==> {
                &&& d == sat_add_spec(now, old(w).timeout_ms)
                &&& final(self).last_val == old(self).last_val
                &&& final(self).timeout_ms == old(self).timeout_ms
                &&& final(self).next_id == old(self).next_id
                &&& deadline_committed(*old(self), *final(self), old(w).gen_id, d)
            },
    {
        match w.deadline {
            Some(pd) => pd,
            None => {
                let d = sat_add(now, w.timeout_ms);
                w.deadline = Some(d);
                match &mut self.current {
                    Some(m) => {
                        if m.id == w.gen_id && m.deadline.is_none() {
                            m.deadline = Some(d);
                        }
                    },
                    None => (),
                }
                d
            },
        }
    }

    /// What waiting yields once the race is decided: the last completed value
    /// if the wake signal arrived before the deadline, nothing if the
    /// deadline elapsed first or the owning excluder was torn down (its last
    /// value is then gone). The two outcomes exclude each other for one call.
    pub fn wait_outcome(&self, signaled: bool) -> (r: Option<&T>)
        ensures
            r is Some <==> self.wait_result(signaled) is Some,
            r matches Some(v) ==> self.wait_result(signaled) matches Some(lv) && *v == lv,
    {
        if signaled {
            self.last_val.as_ref()
        } else {
            None
        }
    }

    /// Discards a waiter that was never consumed: commits an immediate
    /// deadline on its generation — if that generation is still the active
    /// one — and wakes everyone listening, so an abandoned waiter does not
    /// hold the lock open. A waiter whose deadline was already committed
    /// leaves the excluder untouched.
    pub fn abandon(&mut self, w: ResultWaiter, now: u64)
        ensures
            final(self).last_val == old(self).last_val,
            final(self).timeout_ms == old(self).timeout_ms,
            final(self).next_id == old(self).next_id,
            w.deadline is Some ==> *final(self) == *old(self),
            w.deadline is None ==> deadline_committed(*old(self), *final(self), w.gen_id, now),
    {
        match w.deadline {
            Some(_) => (),
            None => {
                match &mut self.current {
                    Some(m) => {
                        if m.id == w.gen_id && m.deadline.is_none() {
                            m.deadline = Some(now);
                        }
                    },
                    None => (),
                }
                let sender = new_sender_of(&w.receiver);
                signal_all(&sender);
            },
        }
    }
}

impl<T> Default for Excluder<T> {
    /// The default excluder is unlocked with a five second timeout.
    fn default() -> (r: Self)
        ensures
            r.current is None,
            r.last_val is None,
            r.timeout_ms == 5000,
            r.next_id == 0,
    {
        Excluder::new(5000)
    }
}

/// At most one waiter is bound to the lock generation that is active after
/// two successive acquisitions: the two waiters carry distinct generations
/// and only the newer one matches the active generation.
pub proof fn lemma_single_flight<T>(
    pre: Excluder<T>,
    mid: Excluder<T>,
    post: Excluder<T>,
    w1: ResultWaiter,
    w2: ResultWaiter,
)
    requires
        acquired(pre, mid, w1),
        acquired(mid, post, w2),
    ensures
        w1.gen_id != w2.gen_id,
        post.current matches Some(m) && m.id == w2.gen_id && m.id != w1.gen_id,
{
}

/// Once the completion value `v` has been delivered, a waiter whose wake
/// signal won the race yields exactly `Some(v)`, and one whose deadline
/// elapsed first yields exactly `None`: the two outcomes are mutually
/// exclusive for a single wait.
pub proof fn lemma_wait_after_unlock<T>(ex: Excluder<T>, v: T)
    requires
        ex.last_val == Some(v),
    ensures
        ex.wait_result(true) == Some(v),
        ex.wait_result(false) is None,
{
}

/// Any generation whose committed deadline has passed is reclaimed by the
/// next lock attempt, whatever the attempt has been waiting on before. In
/// particular, an abandoned waiter — which commits an immediate deadline —
/// lets a subsequent lock attempt succeed at once instead of waiting out the
/// default timeout.
pub proof fn lemma_expired_deadline_reclaim<T>(ex: Excluder<T>, now: u64, waited: Option<u64>)
    requires
        ex.current matches Some(m) && m.deadline matches Some(d) && d <= now,
    ensures
        ex.lock_decision(now, waited) == LockStep::Acquire,
{
}

/// A torn-down excluder — its last completed value gone — resolves every
/// wait deterministically to "no result", whether the wake signal or the
/// deadline settled the race: no waiter hangs on an owner that went away.
pub proof fn lemma_closed_resolves_no_result<T>(ex: Excluder<T>)
    requires
        ex.last_val is None,
    ensures
        forall|signaled: bool| ex.wait_result(signaled) is None,
{
}

/// Stale-lock reclamation: a competing task that observes a generation with
/// no committed deadline first waits the excluder's own default timeout,
/// remembering that generation; if the same generation is still active with
/// no committed deadline when it looks again, it reclaims the lock
/// unconditionally.
pub proof fn lemma_stale_lock_reclaim<T>(ex: Excluder<T>, t0: u64, t1: u64)
    requires
        ex.current matches Some(m) && m.deadline is None,
        ex.timeout_ms > 0,
    ensures
        ex.lock_decision(t0, None) == (LockStep::Wait {
            until: sat_add_spec(t0, ex.timeout_ms),
            track: Some(ex.current_id()),
        }),
        ex.lock_decision(t1, Some(ex.current_id())) == LockStep::Acquire,
{
}

} // verus!
