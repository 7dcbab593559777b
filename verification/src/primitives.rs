//! The standard-library primitives the counters rest on: the channel that
//! carries wake-up signals, the clock, and the atomic operations that run
//! inside destructors.
//!
//! Nothing in this file is proved. Each item states what the standard
//! library documents of the function it stands for.

use std::sync::atomic::{AtomicBool, AtomicUsize, Ordering};
use std::sync::mpsc::{Receiver, RecvTimeoutError, Sender, TryRecvError};
use std::time::{Duration, Instant};
use vstd::prelude::*;

verus! {

/// `std::sync::mpsc::Receiver`, carried as an opaque value.
#[verifier::external_type_specification]
#[verifier::external_body]
#[verifier::reject_recursive_types(T)]
pub struct ExReceiver<T>(Receiver<T>);

/// `std::sync::mpsc::Sender`, carried as an opaque value.
#[verifier::external_type_specification]
#[verifier::external_body]
#[verifier::reject_recursive_types(T)]
pub struct ExSender<T>(Sender<T>);

/// `std::time::Instant`, carried as an opaque value.
#[verifier::external_type_specification]
#[verifier::external_body]
pub struct ExInstant(Instant);

/// What a non-blocking look at the channel found.
#[derive(Clone, Copy, Debug, PartialEq, Eq, Structural)]
pub enum Polled {
    /// A queued signal was taken off the channel.
    Signal,
    /// Nothing is queued, but a sender is still alive.
    Empty,
    /// Nothing is queued and every sender is gone.
    Disconnected,
}

/// How a blocking wait on the channel ended.
#[derive(Clone, Copy, Debug, PartialEq, Eq, Structural)]
pub enum Wake {
    /// A signal arrived.
    Signal,
    /// Every sender is gone and nothing is queued.
    Disconnected,
    /// The time allowed for the wait ran out.
    TimedOut,
}

/// `std::sync::mpsc::channel`: a fresh channel. Nothing is claimed of the
/// two ends.
pub assume_specification<T>[ std::sync::mpsc::channel::<T> ]() -> (ends: (Sender<T>, Receiver<T>));

/// `Sender::clone`: another sending end of the same channel. Nothing is
/// claimed of the copy.
pub assume_specification<T>[ <Sender<T> as Clone>::clone ](sender: &Sender<T>) -> (copy: Sender<T>);

/// `Sender::send` with the result discarded. The call does not block and
/// does not panic; a send to a channel whose receiver is gone is an `Err`,
/// which is dropped.
#[verifier::external_body]
pub(crate) fn send_signal(sender: &Sender<()>)
    opens_invariants none
    no_unwind
{
    let _ = sender.send(());
}

/// `Receiver::try_recv`: never blocks. Which of the three outcomes comes
/// back depends on the other threads, so nothing is claimed of it.
#[verifier::external_body]
pub(crate) fn poll_signal(receiver: &Receiver<()>) -> (polled: Polled) {
    match receiver.try_recv() {
        Ok(()) => Polled::Signal,
        Err(TryRecvError::Empty) => Polled::Empty,
        Err(TryRecvError::Disconnected) => Polled::Disconnected,
    }
}

/// `Receiver::recv`: blocks until a signal arrives or every sender is gone.
/// It has no time limit, so it never reports one.
#[verifier::external_body]
pub(crate) fn await_signal(receiver: &Receiver<()>) -> (wake: Wake)
    ensures
        wake != Wake::TimedOut,
{
    match receiver.recv() {
        Ok(()) => Wake::Signal,
        Err(_) => Wake::Disconnected,
    }
}

/// `Receiver::recv_timeout`: blocks until a signal arrives, every sender is
/// gone, or `limit` has passed. Any of the three may come back.
#[verifier::external_body]
pub(crate) fn await_signal_within(receiver: &Receiver<()>, limit: Duration) -> (wake: Wake) {
    match receiver.recv_timeout(limit) {
        Ok(()) => Wake::Signal,
        Err(RecvTimeoutError::Disconnected) => Wake::Disconnected,
        Err(RecvTimeoutError::Timeout) => Wake::TimedOut,
    }
}

/// `Instant::now`: the current reading of the monotonic clock.
#[verifier::external_body]
pub(crate) fn clock_now() -> (now: Instant) {
    Instant::now()
}

/// `Instant::elapsed`: the time that has passed since `start` was read.
#[verifier::external_body]
pub(crate) fn clock_elapsed(start: &Instant) -> (spent: Duration) {
    start.elapsed()
}

/// The length of a `Duration` in nanoseconds.
pub uninterp spec fn span_nanos(span: Duration) -> nat;

/// `Duration::checked_sub`: what is left of `budget` once `spent` is taken
/// from it, or `None` where `spent` is the longer of the two.
#[verifier::external_body]
pub(crate) fn time_left(budget: Duration, spent: Duration) -> (left: Option<Duration>)
    ensures
        match left {
            Some(rest) => span_nanos(spent) <= span_nanos(budget) && span_nanos(rest)
                == span_nanos(budget) - span_nanos(spent),
            None => span_nanos(budget) < span_nanos(spent),
        },
{
    budget.checked_sub(spent)
}

/// `Vec::len`, stated once more for destructors, which may only call
/// functions that declare that they open no invariant and do not unwind.
#[verifier::external_body]
pub(crate) fn count_of<T>(items: &Vec<T>) -> (n: usize)
    ensures
        n == items@.len(),
    opens_invariants none
    no_unwind
{
    items.len()
}

/// Indexing a `Vec` within its bounds, stated once more for destructors in
/// the same way.
#[verifier::external_body]
pub(crate) fn item_at<T>(items: &Vec<T>, i: usize) -> (item: &T)
    requires
        i < items@.len(),
    ensures
        *item == items@[i as int],
    opens_invariants none
    no_unwind
{
    &items[i]
}

/// `AtomicBool::load` with sequentially consistent ordering. The value is
/// whatever another thread stored last; the call does not panic.
#[verifier::external_body]
pub(crate) fn flag_is_raised(flag: &AtomicBool) -> (open: bool)
    opens_invariants none
    no_unwind
{
    flag.load(Ordering::SeqCst)
}

/// `AtomicUsize::fetch_sub` with sequentially consistent ordering and the
/// previous value discarded. The subtraction wraps; the call does not panic.
#[verifier::external_body]
pub(crate) fn cell_subtract(cell: &AtomicUsize, weight: usize)
    opens_invariants none
    no_unwind
{
    cell.fetch_sub(weight, Ordering::SeqCst);
}

} // verus!
