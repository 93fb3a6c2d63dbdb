//! The resolution cache: memoizes the mapping from a logical identifier path
//! onto a live resource entry, re-resolving through the authoritative lookup
//! when the cached reference has been invalidated.
//!
//! Every entry of the resource tree carries an epoch, minted when the entry
//! is (re)created; a non-owning reference is the epoch it resolved to, and it
//! still resolves exactly while the entry at the path carries that same
//! epoch. A miss is expected and cheap: it means first use, or use after the
//! entry was torn down or replaced, and the fallback lookup answers it.

use vstd::prelude::*;

verus! {

/// A non-owning reference to a resource entry: the epoch of the entry it
/// last resolved to, if any.
#[derive(Clone, Copy, PartialEq, Eq, Structural, Debug)]
pub struct CachedWeak {
    pub cached: Option<u64>,
}

/// How one access attempt was answered: from the cache without running the
/// fallback lookup (`Hit`); by the fallback lookup, whose fresh result was
/// cached (`Resolved`); or by the fallback lookup failing because nothing
/// lives at the path (`Gone`). The fallback runs exactly when the outcome is
/// not `Hit`.
#[derive(Clone, Copy, PartialEq, Eq, Structural, Debug)]
pub enum CacheOutcome {
    Hit,
    Resolved,
    Gone,
}

/// The answer to one access attempt and the cache state it leaves behind,
/// given what currently lives at the path: the live entry's epoch, or nothing.
pub open spec fn resolve_spec(pre: CachedWeak, live: Option<u64>) -> (CacheOutcome, CachedWeak) {
    match live {
        None => (CacheOutcome::Gone, pre),
        Some(e) => if pre.cached == Some(e) {
            (CacheOutcome::Hit, pre)
        } else {
            (CacheOutcome::Resolved, CachedWeak { cached: Some(e) })
        },
    }
}

impl CachedWeak {
    /// A reference that has never resolved: the first access runs the
    /// fallback lookup.
    pub fn new() -> (r: Self)
        ensures
            r.cached is None,
    {
        CachedWeak { cached: None }
    }

    /// Answers one access attempt, given the epoch now live at the path
    /// (nothing if the path is dead). A cached reference that still matches
    /// the live entry is a hit; otherwise the fallback lookup ran: its
    /// success replaces the cached reference, its failure leaves the cache
    /// untouched, so every further attempt keeps asking the lookup until the
    /// path is live again.
    pub fn get_or_find(&mut self, live: Option<u64>) -> (r: CacheOutcome)
        ensures
            r == resolve_spec(*old(self), live).0,
            *final(self) == resolve_spec(*old(self), live).1,
    {
        match live {
            None => CacheOutcome::Gone,
            Some(e) => {
                let hit = match self.cached {
                    Some(c) => c == e,
                    None => false,
                };
                if hit {
                    CacheOutcome::Hit
                } else {
                    self.cached = Some(e);
                    CacheOutcome::Resolved
                }
            },
        }
    }
}

/// After the entry at a path is torn down, every access attempt runs the
/// fallback lookup — the outcome is never a hit — and leaves the cache as it
/// was, so the lookup runs exactly once per attempt until the path is live
/// again; the first attempt that finds the path live re-caches the fresh
/// reference, and the attempt after that is answered from the cache without
/// running the lookup.
pub proof fn lemma_fallback_per_attempt_until_resolved(c: CachedWeak, e: u64)
    ensures
        resolve_spec(c, None) == (CacheOutcome::Gone, c),
        c.cached != Some(e) ==> resolve_spec(c, Some(e)) == (
            CacheOutcome::Resolved,
            CachedWeak { cached: Some(e) },
        ),
        resolve_spec(CachedWeak { cached: Some(e) }, Some(e)).0 == CacheOutcome::Hit,
{
}

} // verus!
