use raii_counter::{Counter, NotifyError, NotifyTimeoutError, WeakCounter};
use std::time::{Duration, Instant};

#[test]
fn notify_checks_condition_before_erroring() {
    let (weak, notify) = {
        let mut builder = WeakCounter::builder();
        let notify = builder.create_notify();
        (builder.build(), notify)
    };

    // All counter references are dropped.
    drop(weak);

    // Shouldn't error since the condition is true.
    assert!(notify.wait_until_condition(|v| v == 0).is_ok());
}

#[test]
fn notify_with_timeout_can_timeout() {
    let (weak, notify) = {
        let mut builder = WeakCounter::builder();
        let notify = builder.create_notify();
        (builder.build(), notify)
    };

    assert_eq!(
        notify.wait_until_condition_timeout(|v| v == 10, Duration::from_millis(100)),
        Err(NotifyTimeoutError::Timeout)
    );

    // Counters are not dropped until here.
    drop(weak);
}

#[test]
fn timeout_comes_after_the_requested_time() {
    let mut builder = WeakCounter::builder();
    let notify = builder.create_notify();
    let weak = builder.build();
    let start = Instant::now();
    let end = notify.wait_until_condition_timeout(|v| v == 10, Duration::from_millis(150));
    let took = start.elapsed();
    assert_eq!(end, Err(NotifyTimeoutError::Timeout));
    assert!(took >= Duration::from_millis(150));
    assert!(took < Duration::from_secs(10));
    drop(weak);
}

#[test]
fn zero_timeout_still_tests_the_condition() {
    let mut builder = WeakCounter::builder();
    let notify = builder.create_notify();
    let weak = builder.build();
    let _two = weak.spawn_upgrade_with_size(2);
    assert_eq!(notify.wait_until_condition_timeout(|v| v == 2, Duration::from_millis(0)), Ok(()));
    assert_eq!(
        notify.wait_until_condition_timeout(|v| v == 3, Duration::from_millis(0)),
        Err(NotifyTimeoutError::Timeout)
    );
}

#[test]
fn satisfied_condition_returns_at_once() {
    let mut builder = Counter::builder().size(3);
    let notify = builder.create_notify();
    let counter = builder.build();
    assert_eq!(notify.wait_until_condition(|v| v == 3), Ok(()));
    assert_eq!(notify.wait_until_condition_timeout(|v| v >= 1, Duration::from_secs(5)), Ok(()));
    drop(counter);
    assert_eq!(notify.wait_until_condition(|v| v == 0), Ok(()));
}

#[test]
fn disconnected_when_every_counter_is_gone() {
    let mut builder = WeakCounter::builder();
    let notify = builder.create_notify();
    let weak = builder.build();
    {
        let mut counters = vec![];
        for _ in 0..5 {
            counters.push(weak.spawn_upgrade());
        }
        assert_eq!(weak.count(), 5);
    }
    drop(weak);
    assert_eq!(notify.wait_until_condition(|v| v == 10), Err(NotifyError::Disconnected));
    assert_eq!(
        notify.wait_until_condition_timeout(|v| v == 10, Duration::from_secs(5)),
        Err(NotifyTimeoutError::Disconnected)
    );
}

#[test]
fn disconnected_counter_builder_handle() {
    let mut builder = Counter::builder();
    let notify = builder.create_notify();
    let counter = builder.build();
    let copy = counter.clone();
    drop(counter);
    drop(copy);
    assert_eq!(notify.wait_until_condition(|v| v == 1), Err(NotifyError::Disconnected));
    assert_eq!(notify.wait_until_condition(|v| v == 0), Ok(()));
}

#[test]
fn a_handle_can_wait_again_after_a_timeout() {
    let mut builder = WeakCounter::builder();
    let notify = builder.create_notify();
    let weak = builder.build();
    assert_eq!(
        notify.wait_until_condition_timeout(|v| v == 1, Duration::from_millis(20)),
        Err(NotifyTimeoutError::Timeout)
    );
    let one = weak.spawn_upgrade();
    assert_eq!(notify.wait_until_condition_timeout(|v| v == 1, Duration::from_millis(20)), Ok(()));
    drop(one);
    assert_eq!(
        notify.wait_until_condition_timeout(|v| v == 1, Duration::from_millis(20)),
        Err(NotifyTimeoutError::Timeout)
    );
}

#[test]
fn two_handles_on_one_builder() {
    let mut builder = WeakCounter::builder();
    let first = builder.create_notify();
    let second = builder.create_notify();
    let weak = builder.build();
    let four = weak.spawn_upgrade_with_size(4);
    assert_eq!(first.wait_until_condition(|v| v == 4), Ok(()));
    assert_eq!(second.wait_until_condition(|v| v > 3), Ok(()));
    drop(four);
    drop(weak);
    assert_eq!(first.wait_until_condition(|v| v == 4), Err(NotifyError::Disconnected));
    assert_eq!(second.wait_until_condition(|v| v == 0), Ok(()));
}
