use raii_counter::{Counter, NotifyError, NotifyTimeoutError, WeakCounter};
use std::cell::{Cell, RefCell};
use std::time::{Duration, Instant};

fn spin_for(span: Duration) {
    let start = Instant::now();
    while start.elapsed() < span {
        std::hint::spin_loop();
    }
}

#[test]
fn wait_wakes_on_every_change_until_the_tenth() {
    let mut builder = WeakCounter::builder();
    let notify = builder.create_notify();
    let weak = builder.build();
    let held: RefCell<Vec<Counter>> = RefCell::new(vec![]);
    let tests = Cell::new(0usize);
    let end = notify.wait_until_condition(|v| {
        tests.set(tests.get() + 1);
        if v < 10 {
            held.borrow_mut().push(weak.spawn_upgrade());
        }
        v == 10
    });
    assert_eq!(end, Ok(()));
    assert_eq!(held.borrow().len(), 10);
    assert_eq!(tests.get(), 11);
    assert_eq!(weak.count(), 10);
}

#[test]
fn timed_wait_wakes_on_every_change_until_the_tenth() {
    let mut builder = WeakCounter::builder();
    let notify = builder.create_notify();
    let weak = builder.build();
    let held: RefCell<Vec<Counter>> = RefCell::new(vec![]);
    let end = notify.wait_until_condition_timeout(
        |v| {
            if v < 10 {
                held.borrow_mut().push(weak.spawn_upgrade());
            }
            v == 10
        },
        Duration::from_secs(10),
    );
    assert_eq!(end, Ok(()));
    assert_eq!(held.borrow().len(), 10);
}

#[test]
fn wait_wakes_on_drops_too() {
    let mut builder = WeakCounter::builder();
    let notify = builder.create_notify();
    let weak = builder.build();
    let held: RefCell<Vec<Counter>> = RefCell::new(vec![]);
    for _ in 0..4 {
        held.borrow_mut().push(weak.spawn_upgrade_with_size(3));
    }
    assert_eq!(weak.count(), 12);
    let end = notify.wait_until_condition(|v| {
        if v > 0 {
            held.borrow_mut().pop();
        }
        v == 0
    });
    assert_eq!(end, Ok(()));
    assert_eq!(held.borrow().len(), 0);
}

#[test]
fn clones_signal_the_bound_handle() {
    let mut builder = Counter::builder().size(2);
    let notify = builder.create_notify();
    let first = builder.build();
    let held: RefCell<Vec<Counter>> = RefCell::new(vec![]);
    let end = notify.wait_until_condition(|v| {
        if v < 8 {
            held.borrow_mut().push(first.clone());
        }
        v == 8
    });
    assert_eq!(end, Ok(()));
    assert_eq!(held.borrow().len(), 3);
}

#[test]
fn many_changes_before_one_test_are_one_wake() {
    let mut builder = WeakCounter::builder();
    let notify = builder.create_notify();
    let weak = builder.build();
    let held: RefCell<Vec<Counter>> = RefCell::new(vec![]);
    let tests = Cell::new(0usize);
    let end = notify.wait_until_condition(|v| {
        tests.set(tests.get() + 1);
        if v == 0 {
            for _ in 0..6 {
                held.borrow_mut().push(weak.spawn_upgrade());
            }
        }
        v == 6
    });
    assert_eq!(end, Ok(()));
    assert_eq!(tests.get(), 2);
}

#[test]
fn stale_signals_do_not_wake_the_next_wait() {
    let mut builder = WeakCounter::builder();
    let notify = builder.create_notify();
    let weak = builder.build();
    let held: RefCell<Vec<Counter>> = RefCell::new(vec![]);
    // The first wait ends with a signal still queued: the change is made by
    // the very test that succeeds.
    let end = notify.wait_until_condition(|_| {
        held.borrow_mut().push(weak.spawn_upgrade());
        true
    });
    assert_eq!(end, Ok(()));
    let tests = Cell::new(0usize);
    let end = notify.wait_until_condition_timeout(
        |v| {
            tests.set(tests.get() + 1);
            v == 7
        },
        Duration::from_millis(50),
    );
    assert_eq!(end, Err(NotifyTimeoutError::Timeout));
    // One test after arming, one after the time ran out: none for the
    // stale signal.
    assert_eq!(tests.get(), 2);
}

#[test]
fn changes_outside_a_wait_are_not_queued() {
    let mut builder = WeakCounter::builder();
    let notify = builder.create_notify();
    let weak = builder.build();
    for _ in 0..100 {
        let _c = weak.spawn_upgrade();
    }
    let tests = Cell::new(0usize);
    let end = notify.wait_until_condition_timeout(
        |v| {
            tests.set(tests.get() + 1);
            v == 1
        },
        Duration::from_millis(30),
    );
    assert_eq!(end, Err(NotifyTimeoutError::Timeout));
    assert_eq!(tests.get(), 2);
}

#[test]
fn hang_up_during_the_wait_is_disconnected() {
    let mut builder = WeakCounter::builder();
    let notify = builder.create_notify();
    let weak = RefCell::new(Some(builder.build()));
    let end = notify.wait_until_condition(|v| {
        // Dropping the last handle hangs the channel up.
        weak.borrow_mut().take();
        v == 10
    });
    assert_eq!(end, Err(NotifyError::Disconnected));
}

#[test]
fn last_test_before_disconnected_can_succeed() {
    let mut builder = WeakCounter::builder();
    let notify = builder.create_notify();
    let weak = builder.build();
    let strong = RefCell::new(Some(weak.spawn_upgrade_with_size(4)));
    drop(weak);
    let tests = Cell::new(0usize);
    let end = notify.wait_until_condition(|v| {
        tests.set(tests.get() + 1);
        strong.borrow_mut().take();
        v == 0
    });
    assert_eq!(end, Ok(()));
    assert_eq!(tests.get(), 2);
}

#[test]
fn only_the_rest_of_the_time_is_waited() {
    let mut builder = WeakCounter::builder();
    let notify = builder.create_notify();
    let weak = builder.build();
    let held: RefCell<Vec<Counter>> = RefCell::new(vec![]);
    let start = Instant::now();
    let end = notify.wait_until_condition_timeout(
        |v| {
            if v == 0 {
                spin_for(Duration::from_millis(1500));
                held.borrow_mut().push(weak.spawn_upgrade());
            }
            v == 5
        },
        Duration::from_millis(2000),
    );
    let took = start.elapsed();
    assert_eq!(end, Err(NotifyTimeoutError::Timeout));
    assert!(took >= Duration::from_millis(2000));
    assert!(took < Duration::from_millis(3200));
}

#[test]
fn no_wait_once_the_time_is_spent() {
    let mut builder = WeakCounter::builder();
    let notify = builder.create_notify();
    let weak = builder.build();
    let held: RefCell<Vec<Counter>> = RefCell::new(vec![]);
    let start = Instant::now();
    let end = notify.wait_until_condition_timeout(
        |v| {
            if v == 0 {
                spin_for(Duration::from_millis(1500));
                held.borrow_mut().push(weak.spawn_upgrade());
            }
            v == 5
        },
        Duration::from_millis(1400),
    );
    let took = start.elapsed();
    assert_eq!(end, Err(NotifyTimeoutError::Timeout));
    assert!(took >= Duration::from_millis(1500));
    assert!(took < Duration::from_millis(2700));
}

#[test]
fn every_bound_handle_is_signalled() {
    let mut builder = WeakCounter::builder();
    let first = builder.create_notify();
    let second = builder.create_notify();
    let third = builder.create_notify();
    let weak = builder.build();
    let held: RefCell<Vec<Counter>> = RefCell::new(vec![]);
    for (handle, target) in [(&first, 2usize), (&second, 4), (&third, 6)] {
        let tests = Cell::new(0usize);
        let end = handle.wait_until_condition(|v| {
            tests.set(tests.get() + 1);
            if v < target {
                held.borrow_mut().push(weak.spawn_upgrade());
            }
            v == target
        });
        assert_eq!(end, Ok(()));
        assert_eq!(tests.get(), 3);
    }
    assert_eq!(held.borrow().len(), 6);
    held.borrow_mut().clear();
    drop(weak);
    assert_eq!(third.wait_until_condition(|v| v == 6), Err(NotifyError::Disconnected));
}
