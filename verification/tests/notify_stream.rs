use gatt_core::notifier::{Notifier, RecvStep};
use gatt_core::stream_until::{StreamUntil, PrimaryPoll, EventPoll, StreamStep};

#[test]
fn notify_without_subscribers_is_a_no_op() {
    let mut n: Notifier<u64> = Notifier::new(4);
    assert!(!n.is_notifying());
    n.notify(17);
    assert!(!n.is_notifying());
    assert!(n.state.is_none());
    assert_eq!(n.starts, 0);
    assert_eq!(n.stops, 0);
}

#[test]
fn two_subscriptions_share_one_state_with_one_start_and_one_stop() {
    let mut n: Notifier<u64> = Notifier::new(4);
    // First subscription: the caller's start action ran, then the state is
    // activated.
    let mut r1 = n.subscribe_activate();
    assert_eq!(n.starts, 1);
    assert!(n.is_notifying());
    // Second subscription while active: attach, no start action.
    let mut r2 = n.subscribe_attach();
    assert_eq!(n.starts, 1);
    assert_eq!(r1.epoch, r2.epoch);
    // Releasing the first handle does not run the stop action.
    n.drop_receiver(&mut r1);
    assert_eq!(n.stops, 0);
    assert!(n.is_notifying());
    // Releasing the last handle deactivates the state: stop runs once.
    n.drop_receiver(&mut r2);
    assert_eq!(n.stops, 1);
    assert!(!n.is_notifying());
}

#[test]
fn subscribers_receive_values_in_order() {
    let mut n: Notifier<u64> = Notifier::new(8);
    let mut r = n.subscribe_activate();
    n.notify(10);
    n.notify(20);
    match n.recv_step(&mut r) {
        RecvStep::Item { index } => assert_eq!(*n.history_at(index), 10),
        _ => panic!("a value was broadcast"),
    }
    match n.recv_step(&mut r) {
        RecvStep::Item { index } => assert_eq!(*n.history_at(index), 20),
        _ => panic!("a value was broadcast"),
    }
    assert_eq!(n.recv_step(&mut r), RecvStep::Pending);
}

#[test]
fn late_subscriber_sees_only_later_values() {
    let mut n: Notifier<u64> = Notifier::new(8);
    let mut early = n.subscribe_activate();
    n.notify(1);
    let mut late = n.subscribe_attach();
    n.notify(2);
    match n.recv_step(&mut early) {
        RecvStep::Item { index } => assert_eq!(*n.history_at(index), 1),
        _ => panic!("a value was broadcast"),
    }
    match n.recv_step(&mut late) {
        RecvStep::Item { index } => assert_eq!(*n.history_at(index), 2),
        _ => panic!("the late subscriber starts after existing values"),
    }
}

#[test]
fn overflow_drops_the_oldest_values() {
    let mut n: Notifier<u64> = Notifier::new(2);
    let mut r = n.subscribe_activate();
    n.notify(1);
    n.notify(2);
    n.notify(3);
    // The window holds the last two values; the first overflowed.
    match n.recv_step(&mut r) {
        RecvStep::Item { index } => assert_eq!(*n.history_at(index), 2),
        _ => panic!("a value was broadcast"),
    }
    match n.recv_step(&mut r) {
        RecvStep::Item { index } => assert_eq!(*n.history_at(index), 3),
        _ => panic!("a value was broadcast"),
    }
    assert_eq!(n.recv_step(&mut r), RecvStep::Pending);
}

#[test]
fn close_ends_the_stream_after_draining() {
    let mut n: Notifier<u64> = Notifier::new(8);
    let mut r = n.subscribe_activate();
    n.notify(5);
    n.close();
    // A value broadcast before the sentinel is still delivered.
    match n.recv_step(&mut r) {
        RecvStep::Item { index } => assert_eq!(*n.history_at(index), 5),
        _ => panic!("a value was broadcast before the end"),
    }
    // Then the stream ends, the handle releases its hold, the stop action
    // runs, and further polls keep answering that it ended.
    assert_eq!(n.recv_step(&mut r), RecvStep::Ended);
    assert!(!r.active);
    assert_eq!(n.stops, 1);
    assert_eq!(n.recv_step(&mut r), RecvStep::Ended);
}

#[test]
fn sentinel_takes_a_window_slot() {
    let mut n: Notifier<u64> = Notifier::new(2);
    let mut r = n.subscribe_activate();
    n.notify(1);
    n.notify(2);
    n.notify(3);
    n.close();
    // The terminal sentinel counts against the window of two: only the last
    // value remains deliverable.
    match n.recv_step(&mut r) {
        RecvStep::Item { index } => assert_eq!(*n.history_at(index), 3),
        _ => panic!("the last value stays in the window"),
    }
    assert_eq!(n.recv_step(&mut r), RecvStep::Ended);
}

#[test]
fn stream_until_cuts_at_the_hitting_event() {
    // Primary items [10, 20, 30]; the event sequence's second item satisfies
    // the predicate. The combination yields a prefix and then ends for good.
    let mut s = StreamUntil::create();
    match s.step(PrimaryPoll::Item(10u64), EventPoll::Skipped) {
        StreamStep::Yield(v) => assert_eq!(v, 10),
        _ => panic!("a ready primary item passes through"),
    }
    // First event item does not satisfy the predicate.
    assert!(matches!(
        s.step(PrimaryPoll::<u64>::Pending, EventPoll::Item { hit: false }),
        StreamStep::Pending
    ));
    match s.step(PrimaryPoll::Item(20u64), EventPoll::Skipped) {
        StreamStep::Yield(v) => assert_eq!(v, 20),
        _ => panic!("a ready primary item passes through"),
    }
    // Second event item hits: the combination ends.
    assert!(matches!(
        s.step(PrimaryPoll::<u64>::Pending, EventPoll::Item { hit: true }),
        StreamStep::Ended
    ));
    // Fused: the remaining primary item is never yielded.
    assert!(matches!(
        s.step(PrimaryPoll::Item(30u64), EventPoll::Skipped),
        StreamStep::Ended
    ));
    assert!(matches!(
        s.step(PrimaryPoll::<u64>::Pending, EventPoll::Pending),
        StreamStep::Ended
    ));
}

#[test]
fn stream_until_ends_with_the_primary_or_the_events() {
    let mut s = StreamUntil::create();
    assert!(matches!(
        s.step(PrimaryPoll::<u64>::Finished, EventPoll::Skipped),
        StreamStep::Ended
    ));
    let mut t = StreamUntil::create();
    assert!(matches!(
        t.step(PrimaryPoll::<u64>::Pending, EventPoll::Finished),
        StreamStep::Ended
    ));
}
