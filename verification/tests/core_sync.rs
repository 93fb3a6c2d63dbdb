use gatt_core::excluder::{Excluder, LockStep};

#[test]
fn new_excluder_is_unlocked() {
    let ex: Excluder<i32> = Excluder::new(100);
    assert!(ex.current.is_none());
    assert!(ex.last_value().is_none());
    assert_eq!(ex.timeout_ms, 100);
}

#[test]
fn default_timeout_is_five_seconds() {
    let ex: Excluder<i32> = Default::default();
    assert_eq!(ex.timeout_ms, 5000);
    assert!(ex.current.is_none());
}

#[test]
fn unlock_always_updates_last_value() {
    // No waiter exists; unlock must still record the value.
    let mut ex: Excluder<i32> = Excluder::new(100);
    ex.unlock(7);
    assert_eq!(ex.last_value(), Some(&7));
    assert!(ex.current.is_none());

    // With a lock held, unlock records the value and clears the generation.
    let _w = ex.acquire();
    ex.unlock(9);
    assert_eq!(ex.last_value(), Some(&9));
    assert!(ex.current.is_none());
}

#[test]
fn acquires_hand_out_distinct_generations() {
    let mut ex: Excluder<i32> = Excluder::new(100);
    let w1 = ex.acquire();
    let w2 = ex.acquire();
    assert_ne!(w1.gen_id, w2.gen_id);
    // Only the newer waiter matches the active generation.
    assert_eq!(ex.current.as_ref().unwrap().id, w2.gen_id);
}

#[test]
fn unlock_before_deadline_yields_value_timeout_yields_none() {
    let mut ex: Excluder<i32> = Excluder::new(100);
    let mut w = ex.acquire();
    let deadline = ex.commit_deadline(&mut w, 0);
    assert_eq!(deadline, 100);
    ex.unlock(42);
    // The wake signal won the race.
    assert_eq!(ex.wait_outcome(true), Some(&42));
    // The deadline elapsed first: no result, even though a value is stored.
    assert_eq!(ex.wait_outcome(false), None);
}

#[test]
fn closed_excluder_resolves_waiters_to_none() {
    let mut ex: Excluder<i32> = Excluder::new(100);
    ex.unlock(5);
    let _w = ex.acquire();
    ex.close();
    assert_eq!(ex.wait_outcome(true), None);
    assert!(ex.current.is_none());
}

#[test]
fn abandoned_waiter_frees_the_lock_immediately() {
    let mut ex: Excluder<i32> = Excluder::new(100);
    let w = ex.acquire();
    // While the waiter is live with no committed deadline, a non-blocking
    // attempt fails.
    assert!(ex.try_lock(0).is_none());
    ex.abandon(w, 0);
    // The abandoned waiter committed an immediate deadline: the next attempt
    // succeeds at the same instant, without waiting the default timeout.
    assert!(ex.try_lock(0).is_some());
}

#[test]
fn stale_lock_is_reclaimed_after_default_timeout() {
    // A holder locks and never commits a deadline (it crashed, or forgot to
    // wait). A competing task first waits the default timeout, remembering
    // the generation, then reclaims unconditionally.
    let mut ex: Excluder<i32> = Excluder::new(100);
    let w1 = ex.acquire();
    let step = ex.lock_step(0, None);
    let track = match step {
        LockStep::Wait { until, track } => {
            assert_eq!(until, 100);
            assert_eq!(track, Some(w1.gen_id));
            track
        },
        LockStep::Acquire => panic!("a held lock must be waited on first"),
    };
    // Same generation still active, still no deadline: reclaim.
    assert_eq!(ex.lock_step(100, track), LockStep::Acquire);
    let w2 = ex.acquire();
    assert_ne!(w1.gen_id, w2.gen_id);
}

#[test]
fn committed_deadline_bounds_the_wait() {
    let mut ex: Excluder<i32> = Excluder::new(100);
    let mut w = ex.acquire();
    ex.commit_deadline(&mut w, 10);
    // Before the deadline, a competitor waits until it.
    assert_eq!(ex.lock_step(50, None), LockStep::Wait { until: 110, track: None });
    // After the deadline has passed, the lock is reclaimed at once.
    assert_eq!(ex.lock_step(110, None), LockStep::Acquire);
    assert_eq!(ex.lock_step(200, Some(w.gen_id)), LockStep::Acquire);
}

#[test]
fn generation_change_resets_the_tracking() {
    let mut ex: Excluder<i32> = Excluder::new(100);
    let w1 = ex.acquire();
    let old_gen = w1.gen_id;
    ex.unlock(1);
    let _w2 = ex.acquire();
    // The competitor tracked the old generation; the new one gets a fresh
    // default-timeout wait instead of an immediate reclaim.
    match ex.lock_step(30, Some(old_gen)) {
        LockStep::Wait { until, track } => {
            assert_eq!(until, 130);
            assert_eq!(track, Some(ex.current.as_ref().unwrap().id));
        },
        LockStep::Acquire => panic!("a fresh generation must not be reclaimed"),
    }
}

#[test]
fn try_lock_refuses_uncommitted_and_unexpired_locks() {
    let mut ex: Excluder<i32> = Excluder::new(100);
    assert!(ex.try_lock(0).is_some());
    // Active generation with no committed deadline: refused.
    assert!(ex.try_lock(1_000_000).is_none());
    let mut w = ex.acquire();
    ex.commit_deadline(&mut w, 0);
    // Committed deadline still ahead: refused.
    assert!(ex.try_lock(50).is_none());
    // Committed deadline passed: reclaimed.
    assert!(ex.try_lock(100).is_some());
}

#[test]
fn commit_deadline_first_commit_wins() {
    let mut ex: Excluder<i32> = Excluder::new(100);
    let mut w = ex.acquire();
    let d1 = ex.commit_deadline(&mut w, 10);
    let d2 = ex.commit_deadline(&mut w, 500);
    assert_eq!(d1, 110);
    assert_eq!(d2, 110);
    assert_eq!(ex.current.as_ref().unwrap().deadline, Some(110));
}
