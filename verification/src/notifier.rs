//! The subscription broadcaster: fans values delivered by the transport
//! callback out to any number of live subscribers, with reference-counted
//! activation and deactivation.
//!
//! A [`Notifier`] is active while a subscription state exists. The state is
//! kept alive by the handles ([`NotifierReceiver`]) holding it: the first
//! subscription activates it (after the caller's start action succeeded) and
//! the release of the last handle deactivates it (the caller's stop action
//! then runs exactly once). Values are broadcast through a bounded window
//! that drops the oldest item on overflow rather than holding producers back;
//! a receiver that lagged behind skips to the oldest value still in the
//! window.

use vstd::prelude::*;
use vstd::pervasive::unreached;

verus! {

/// The shared subscription state: alive exactly while at least one handle
/// holds it. `history` records every value broadcast to it, `ended` whether
/// the terminal sentinel has been pushed, and `holders` how many live
/// handles keep it alive.
#[derive(Debug)]
pub struct Subscription<T> {
    pub epoch: u64,
    pub history: Vec<T>,
    pub ended: bool,
    pub holders: u64,
}

/// Sends notification values out to the current subscribers, if any.
#[derive(Debug)]
pub struct Notifier<T> {
    pub capacity: usize,
    pub state: Option<Subscription<T>>,
    pub next_epoch: u64,
    pub starts: u64,
    pub stops: u64,
}

/// One subscriber's handle: its position in the broadcast history and the
/// subscription state generation it is attached to. While `active`, the
/// handle keeps the subscription state alive.
#[derive(Debug)]
pub struct NotifierReceiver {
    pub epoch: u64,
    pub pos: usize,
    pub active: bool,
}

/// The outcome of polling a subscriber handle: a value (by its index in the
/// broadcast history), the end of the stream, or nothing yet.
#[derive(Clone, Copy, PartialEq, Eq, Structural, Debug)]
pub enum RecvStep {
    Item { index: usize },
    Ended,
    Pending,
}

/// The oldest history position still inside the broadcast window of capacity
/// `cap`: the window holds the last `cap` messages, the terminal sentinel
/// counting as one.
pub open spec fn window_cut(len: int, ended: bool, cap: int) -> int {
    let total = if ended {
        len + 1
    } else {
        len
    };
    if total - cap > 0 {
        total - cap
    } else {
        0
    }
}

/// Where a receiver at position `pos` reads next: its own position, or the
/// window cut if it lagged behind the window.
pub open spec fn window_start(pos: int, len: int, ended: bool, cap: int) -> int {
    let cut = window_cut(len, ended, cap);
    if pos >= cut {
        pos
    } else {
        cut
    }
}

/// Relates a notifier before and after one handle released the subscription
/// state: the last holder's release deactivates the state and runs the stop
/// action (counted in `stops`); any earlier release only drops the holder
/// count.
pub open spec fn released<T>(pre: Notifier<T>, post: Notifier<T>) -> bool {
    &&& pre.state matches Some(s)
    &&& (pre.state->Some_0.holders <= 1 ==> post.state is None && post.stops == pre.stops + 1)
    &&& (pre.state->Some_0.holders > 1 ==> {
        &&& post.state matches Some(s2) && s2.epoch == pre.state->Some_0.epoch
            && s2.history@ == pre.state->Some_0.history@ && s2.ended == pre.state->Some_0.ended
            && s2.holders == pre.state->Some_0.holders - 1
        &&& post.stops == pre.stops
    })
    &&& post.starts == pre.starts
    &&& post.capacity == pre.capacity
    &&& post.next_epoch == pre.next_epoch
}

/// Relates a notifier before and after a subscription attached to the
/// already-active state, and the handle handed out: one more holder, a handle
/// positioned after everything broadcast so far, and no start action run.
pub open spec fn attached<T>(pre: Notifier<T>, post: Notifier<T>, r: NotifierReceiver) -> bool {
    &&& pre.state matches Some(s)
    &&& post.state matches Some(s2) && s2.epoch == pre.state->Some_0.epoch
        && s2.history@ == pre.state->Some_0.history@ && s2.ended == pre.state->Some_0.ended
        && s2.holders == pre.state->Some_0.holders + 1
    &&& post.capacity == pre.capacity
    &&& post.next_epoch == pre.next_epoch
    &&& post.starts == pre.starts
    &&& post.stops == pre.stops
    &&& r.epoch == pre.state->Some_0.epoch
    &&& r.pos == pre.state->Some_0.history@.len()
    &&& r.active
}

/// Relates a notifier before and after a subscription activated a fresh
/// state, and the handle handed out: a new empty subscription generation with
/// one holder, and the start action run once (counted in `starts`).
pub open spec fn activated<T>(pre: Notifier<T>, post: Notifier<T>, r: NotifierReceiver) -> bool {
    &&& pre.state is None
    &&& post.state matches Some(s) && s.epoch == pre.next_epoch
        && s.history@ == Seq::<T>::empty() && !s.ended && s.holders == 1
    &&& post.next_epoch == pre.next_epoch + 1
    &&& post.starts == pre.starts + 1
    &&& post.stops == pre.stops
    &&& post.capacity == pre.capacity
    &&& r.epoch == pre.next_epoch
    &&& r.pos == 0
    &&& r.active
}

impl<T> Notifier<T> {
    /// A handle is consistent with this notifier: while it is active, the
    /// subscription state it is attached to is the live one and the handle's
    /// position lies within the broadcast history.
    pub open spec fn valid_receiver(&self, r: NotifierReceiver) -> bool {
        r.active ==> (self.state matches Some(s) && s.epoch == r.epoch && s.holders >= 1
            && r.pos <= s.history@.len())
    }

    /// Creates a new inactive notifier whose subscriptions broadcast through
    /// a window of `capacity` values.
    pub fn new(capacity: usize) -> (r: Self)
        requires
            capacity >= 1,
        ensures
            r.capacity == capacity,
            r.state is None,
            r.next_epoch == 0,
            r.starts == 0,
            r.stops == 0,
    {
        Notifier { capacity, state: None, next_epoch: 0, starts: 0, stops: 0 }
    }

    /// Checks if the notifier is active, that is, whether a subscription
    /// state currently exists.
    pub fn is_notifying(&self) -> (r: bool)
        ensures
            r == (self.state is Some),
    {
        self.state.is_some()
    }

    /// Attaches one more handle to the already-active subscription state.
    /// The caller's start action does not run: the state already exists.
    pub fn subscribe_attach(&mut self) -> (r: NotifierReceiver)
        requires
            old(self).state matches Some(s) && s.holders < u64::MAX,
        ensures
            attached(*old(self), *final(self), r),
    {
        match &mut self.state {
            Some(s) => {
                s.holders = s.holders + 1;
                NotifierReceiver { epoch: s.epoch, pos: s.history.len(), active: true }
            },
            None => unreached(),
        }
    }

    /// Activates a fresh subscription state and attaches the first handle to
    /// it. Call this after the caller's start action has succeeded; the
    /// activation is counted in `starts`.
    pub fn subscribe_activate(&mut self) -> (r: NotifierReceiver)
        requires
            old(self).state is None,
            old(self).next_epoch < u64::MAX,
            old(self).starts < u64::MAX,
        ensures
            activated(*old(self), *final(self), r),
    {
        let epoch = self.next_epoch;
        self.next_epoch = self.next_epoch + 1;
        self.starts = self.starts + 1;
        self.state = Some(Subscription { epoch, history: Vec::new(), ended: false, holders: 1 });
        NotifierReceiver { epoch, pos: 0, active: true }
    }

    /// Broadcasts a value from the transport callback to the current
    /// subscribers. With no subscription state this is a silent no-op: there
    /// is nothing to notify and no error to report.
    pub fn notify(&mut self, value: T)
        requires
            old(self).state matches Some(s) ==> s.history@.len() < usize::MAX,
        ensures
            old(self).state is None ==> *final(self) == *old(self),
            old(self).state is Some && old(self).state->Some_0.ended
                ==> *final(self) == *old(self),
            old(self).state is Some && !old(self).state->Some_0.ended
                ==> (final(self).state matches Some(s2)
                && s2.epoch == old(self).state->Some_0.epoch && !s2.ended
                && s2.holders == old(self).state->Some_0.holders
                && s2.history@ == old(self).state->Some_0.history@.push(value)),
            final(self).capacity == old(self).capacity,
            final(self).next_epoch == old(self).next_epoch,
            final(self).starts == old(self).starts,
            final(self).stops == old(self).stops,
    {
        match &mut self.state {
            Some(s) => {
                if !s.ended {
                    s.history.push(value);
                }
            },
            None => (),
        }
    }

    /// Tears the notifier down: pushes the terminal sentinel, so every live
    /// handle ends its stream once it has drained the window, releasing its
    /// hold on the subscription state.
    pub fn close(&mut self)
        ensures
            old(self).state is None ==> *final(self) == *old(self),
            old(self).state is Some ==> (final(self).state matches Some(s2)
                && s2.epoch == old(self).state->Some_0.epoch && s2.ended
                && s2.holders == old(self).state->Some_0.holders
                && s2.history@ == old(self).state->Some_0.history@),
            final(self).capacity == old(self).capacity,
            final(self).next_epoch == old(self).next_epoch,
            final(self).starts == old(self).starts,
            final(self).stops == old(self).stops,
    {
        match &mut self.state {
            Some(s) => {
                s.ended = true;
            },
            None => (),
        }
    }

    /// A value in the broadcast history, by index.
    pub fn history_at(&self, index: usize) -> (r: &T)
        requires
            self.state matches Some(s) && index < s.history@.len(),
        ensures
            *r == self.state->Some_0.history@[index as int],
    {
        match &self.state {
            Some(s) => &s.history[index],
            None => unreached(),
        }
    }

    /// Polls a subscriber handle: yields the next value still inside the
    /// broadcast window (skipping values that overflowed it), nothing while
    /// the subscription is alive but drained, and the end of the stream once
    /// the terminal sentinel is reached — at which point the handle releases
    /// its hold on the subscription state. A handle that has already ended
    /// keeps answering `Ended` without touching anything.
    pub fn recv_step(&mut self, r: &mut NotifierReceiver) -> (res: RecvStep)
        requires
            old(self).valid_receiver(*old(r)),
            old(self).capacity >= 1,
            old(self).stops < u64::MAX,
        ensures
            !old(r).active ==> res == RecvStep::Ended && *final(self) == *old(self) && *final(r)
                == *old(r),
            old(r).active ==> ({
                let s = old(self).state->Some_0;
                let start = window_start(
                    old(r).pos as int,
                    s.history@.len() as int,
                    s.ended,
                    old(self).capacity as int,
                );
                &&& (start < s.history@.len() ==> {
                    &&& res == (RecvStep::Item { index: start as usize })
                    &&& *final(self) == *old(self)
                    &&& final(r).pos == start + 1
                    &&& final(r).active
                    &&& final(r).epoch == old(r).epoch
                })
                &&& (start >= s.history@.len() && !s.ended ==> res == RecvStep::Pending
                    && *final(self) == *old(self) && *final(r) == *old(r))
                &&& (start >= s.history@.len() && s.ended ==> {
                    &&& res == RecvStep::Ended
                    &&& !final(r).active
                    &&& final(r).epoch == old(r).epoch
                    &&& final(r).pos == old(r).pos
                    &&& released(*old(self), *final(self))
                })
            }),
    {
        if !r.active {
            return RecvStep::Ended;
        }
        let (len, ended) = match &self.state {
            Some(s) => (s.history.len(), s.ended),
            None => unreached(),
        };
        let cut: usize = if ended {
            if len >= self.capacity {
                len - self.capacity + 1
            } else {
                0
            }
        } else {
            if len >= self.capacity {
                len - self.capacity
            } else {
                0
            }
        };
        let start: usize = if r.pos >= cut {
            r.pos
        } else {
            cut
        };
        if start < len {
            r.pos = start + 1;
            RecvStep::Item { index: start }
        } else if !ended {
            RecvStep::Pending
        } else {
            r.active = false;
            self.release_holder();
            RecvStep::Ended
        }
    }

    /// Drops a subscriber handle without it having seen the end of the
    /// stream: the handle releases its hold on the subscription state; the
    /// release of the last hold deactivates the state.
    pub fn drop_receiver(&mut self, r: &mut NotifierReceiver)
        requires
            old(self).valid_receiver(*old(r)),
            old(self).stops < u64::MAX,
        ensures
            !old(r).active ==> *final(self) == *old(self) && *final(r) == *old(r),
            old(r).active ==> {
                &&& !final(r).active
                &&& final(r).epoch == old(r).epoch
                &&& final(r).pos == old(r).pos
                &&& released(*old(self), *final(self))
            },
    {
        if r.active {
            r.active = false;
            self.release_holder();
        }
    }

    /// Releases one hold on the subscription state; the last release
    /// deactivates it, which stands for the stop action running.
    fn release_holder(&mut self)
        requires
            old(self).state matches Some(s) && s.holders >= 1,
            old(self).stops < u64::MAX,
        ensures
            released(*old(self), *final(self)),
    {
        let holders = match &self.state {
            Some(s) => s.holders,
            None => unreached(),
        };
        if holders <= 1 {
            self.state = None;
            self.stops = self.stops + 1;
        } else {
            match &mut self.state {
                Some(s) => {
                    s.holders = s.holders - 1;
                },
                None => (),
            }
        }
    }
}

/// A handle never rewinds: every value it is handed lies at or after its own
/// position, and receiving advances the position past the value, so values
/// arrive in broadcast order and none arrives twice.
pub proof fn lemma_delivery_in_order(pos: int, len: int, ended: bool, cap: int)
    requires
        pos >= 0,
    ensures
        window_start(pos, len, ended, cap) >= pos,
{
}

/// Subscribing twice while active hands out two handles sharing one
/// subscription state; the start action runs exactly once across both calls,
/// and the stop action runs exactly once, only when the last of the two
/// handles is gone.
pub proof fn lemma_shared_subscription<T>(
    n0: Notifier<T>,
    n1: Notifier<T>,
    n2: Notifier<T>,
    n3: Notifier<T>,
    n4: Notifier<T>,
    r1: NotifierReceiver,
    r2: NotifierReceiver,
)
    requires
        activated(n0, n1, r1),
        attached(n1, n2, r2),
        released(n2, n3),
        released(n3, n4),
    ensures
        r1.epoch == r2.epoch,
        n1.starts == n0.starts + 1,
        n2.starts == n1.starts,
        n3.stops == n2.stops,
        n4.stops == n3.stops + 1,
        n4.state is None,
        n4.starts == n0.starts + 1,
        n4.stops == n0.stops + 1,
{
}

} // verus!
