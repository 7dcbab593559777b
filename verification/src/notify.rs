//! Waiting for the count to satisfy a predicate.
//!
//! A [`NotifyHandle`] is the receiving end of a signal channel together with
//! a flag that its senders read before they send. A wait drains what is
//! queued, raises the flag, tests the predicate, and then sleeps on the
//! channel between tests, so a change that lands between a test and the
//! sleep is never missed. On every way out the flag is lowered again.

use crate::primitives::{
    await_signal, await_signal_within, clock_elapsed, clock_now, flag_is_raised, poll_signal,
    send_signal, span_nanos, time_left, Polled, Wake,
};
use crate::wakeup::{lemma_move_keeps_sound, Move, Phase, System};
use std::sync::atomic::{AtomicBool, AtomicUsize, Ordering};
use std::sync::mpsc::{Receiver, Sender};
use std::sync::Arc;
use std::time::Duration;
use vstd::prelude::*;

verus! {

/// The most steps (polls, tests and sleeps) a single wait takes before it
/// gives up.
pub const WAKE_LIMIT: u64 = 0xffff_ffff_ffff_ffff;

/// Why a wait without a time limit ended before the predicate held.
#[derive(Debug, PartialEq, Eq, Structural, Clone, Copy)]
pub enum NotifyError {
    /// Every linked sender is gone, so the count will never change again.
    Disconnected,
}

/// Why a wait with a time limit ended before the predicate held.
#[derive(Debug, PartialEq, Eq, Structural, Clone, Copy)]
pub enum NotifyTimeoutError {
    /// Every linked sender is gone, so the count will never change again.
    Disconnected,
    /// The time limit passed first.
    Timeout,
}

/// The waiting side of a notification channel bound to one count cell.
#[derive(Debug)]
pub struct NotifyHandle {
    receiver: Receiver<()>,
    should_send: Arc<AtomicBool>,
    counter: Arc<AtomicUsize>,
    position: usize,
}

/// The signalling side: held by every counter that descends from the
/// builder the handle was created on.
#[derive(Debug)]
pub struct NotifySender {
    should_send: Arc<AtomicBool>,
    sender: Sender<()>,
}

/// What a drain of the queue says about the next wake, without blocking:
/// a hang-up is final, a drained signal is a wake, and an empty queue from
/// which nothing was taken decides nothing.
pub open spec fn spec_settle(seen: bool, end: Polled) -> Option<Wake> {
    match end {
        Polled::Disconnected => Some(Wake::Disconnected),
        _ => if seen {
            Some(Wake::Signal)
        } else {
            None
        },
    }
}

/// What follows a wake, given whether the predicate held on the count read
/// after it: success whenever it held; otherwise another round after a
/// signal, and the matching error after a hang-up or a timeout.
pub open spec fn spec_verdict(wake: Wake, holds: bool) -> Option<Result<(), NotifyTimeoutError>> {
    if holds {
        Some(Ok(()))
    } else {
        match wake {
            Wake::Signal => None,
            Wake::Disconnected => Some(Err(NotifyTimeoutError::Disconnected)),
            Wake::TimedOut => Some(Err(NotifyTimeoutError::Timeout)),
        }
    }
}

/// The wake that ends a wait whose operations are used up: a timeout where
/// a time limit was given, a hang-up where none was.
pub open spec fn spec_abandon(timed: bool) -> Wake {
    if timed {
        Wake::TimedOut
    } else {
        Wake::Disconnected
    }
}

/// How long the waiter may sleep on the channel.
#[derive(Debug, Clone, Copy)]
pub enum Nap {
    /// No time limit was given: until a signal or a hang-up.
    Unbounded,
    /// For the given time at most: what is left of the limit.
    Within(Duration),
    /// Not at all: more time is spent than the limit allowed.
    Spent,
}

/// The sleep that is due where `spent` has passed of a wait limited by
/// `timeout`: the limit less the time spent, and none where more is spent
/// than the limit allowed.
pub open spec fn spec_nap(timeout: Option<Duration>, spent: Duration, nap: Nap) -> bool {
    match timeout {
        None => nap is Unbounded,
        Some(budget) => if span_nanos(budget) < span_nanos(spent) {
            nap is Spent
        } else {
            nap matches Nap::Within(rest) && span_nanos(rest) == span_nanos(budget) - span_nanos(
                spent,
            )
        },
    }
}

/// What one poll of the channel adds to a drain: a signal has been taken
/// if one had been before or this poll took one, and the drain goes on
/// exactly while polls take signals.
pub open spec fn spec_after_poll(seen: bool, polled: Polled) -> (bool, bool) {
    (seen || polled == Polled::Signal, polled == Polled::Signal)
}

/// Plans the next sleep of a wait limited by `timeout` of which `spent` has
/// passed.
pub fn plan_nap(timeout: Option<Duration>, spent: Duration) -> (nap: Nap)
    ensures
        spec_nap(timeout, spent, nap),
{
    match timeout {
        None => Nap::Unbounded,
        Some(budget) => match time_left(budget, spent) {
            Some(rest) => Nap::Within(rest),
            None => Nap::Spent,
        },
    }
}

/// Takes one poll into account: returns whether a signal has been taken so
/// far, and whether the drain goes on.
pub fn after_poll(seen: bool, polled: Polled) -> (next: (bool, bool))
    ensures
        next == spec_after_poll(seen, polled),
{
    match polled {
        Polled::Signal => (true, true),
        Polled::Empty | Polled::Disconnected => (seen, false),
    }
}

/// Decides the next wake from a drain of the queue, or returns `None` where
/// the waiter has to block.
pub fn settle(seen: bool, end: Polled) -> (wake: Option<Wake>)
    ensures
        wake == spec_settle(seen, end),
{
    match end {
        Polled::Disconnected => Some(Wake::Disconnected),
        Polled::Signal | Polled::Empty => {
            if seen {
                Some(Wake::Signal)
            } else {
                None
            }
        },
    }
}

/// Decides how a wait goes on after a wake: `None` means wait again.
pub fn verdict(wake: Wake, holds: bool) -> (next: Option<Result<(), NotifyTimeoutError>>)
    ensures
        next == spec_verdict(wake, holds),
{
    if holds {
        Some(Ok(()))
    } else {
        match wake {
            Wake::Signal => None,
            Wake::Disconnected => Some(Err(NotifyTimeoutError::Disconnected)),
            Wake::TimedOut => Some(Err(NotifyTimeoutError::Timeout)),
        }
    }
}

/// The outcome of a wait that was abandoned, after its last test of the
/// predicate.
pub fn abandon(timed: bool, holds: bool) -> (end: Result<(), NotifyTimeoutError>)
    ensures
        spec_verdict(spec_abandon(timed), holds) == Some(end),
{
    if holds {
        Ok(())
    } else if timed {
        Err(NotifyTimeoutError::Timeout)
    } else {
        Err(NotifyTimeoutError::Disconnected)
    }
}

/// What the waiter does next.
#[derive(Debug, Clone, Copy, PartialEq, Eq)]
pub enum Action {
    /// Poll the channel without blocking.
    Poll,
    /// Raise the flag.
    Arm,
    /// Read the cell and test the predicate.
    Test,
    /// Sleep on the channel.
    Sleep,
    /// Lower the flag and return the given outcome.
    Finish(Result<(), NotifyTimeoutError>),
}

/// What came of the waiter's last action.
#[derive(Debug, Clone, Copy, PartialEq, Eq)]
pub enum Event {
    /// Nothing yet: the wait has just been called.
    Started,
    /// The poll found this.
    Polled(Polled),
    /// The flag is raised.
    Armed,
    /// The predicate gave this answer on the count that was read.
    Tested(bool),
    /// The sleep ended like this.
    Woke(Wake),
}

/// Where a wait stands: its phase and, once it is closing, whether the
/// channel hung up or the time ran out.
#[derive(Debug, Clone, Copy, PartialEq, Eq)]
pub struct Course {
    pub phase: Phase,
    pub cause: Wake,
}

impl Course {
    /// A wait that has not begun.
    pub open spec fn spec_start() -> Course {
        Course { phase: Phase::Idle, cause: Wake::Disconnected }
    }

    /// A closing wait knows why it closes. Every course that
    /// [`advance`] reaches from the start is sound.
    pub open spec fn sound(self) -> bool {
        self.cause != Wake::Signal
    }

    /// Whether `event` can come in this phase: each action of the waiter
    /// is followed by the event of its kind.
    pub open spec fn awaits(self, event: Event) -> bool {
        match event {
            Event::Started => self.phase is Idle,
            Event::Polled(_) => self.phase is Draining || self.phase is Ready
                || self.phase is Tested,
            Event::Armed => self.phase is Draining,
            Event::Tested(_) => self.phase is Ready || self.phase is Closing,
            Event::Woke(_) => self.phase is Asleep,
        }
    }

    /// The course with another phase.
    pub open spec fn at(self, phase: Phase) -> Course {
        Course { phase, cause: self.cause }
    }

    /// The course after `event`, and what the waiter does next.
    ///
    /// A wait drains the channel, raises the flag and tests. After a test
    /// that failed it polls: signals that are queued are taken and lead to
    /// another test, an empty channel to a sleep, and a hang-up or a
    /// timeout to one last test, after which the wait ends in any case.
    pub open spec fn spec_advance(self, event: Event) -> (Course, Action) {
        match event {
            Event::Started => (self.at(Phase::Draining), Action::Poll),
            Event::Armed => (self.at(Phase::Ready), Action::Test),
            Event::Polled(polled) => if self.phase is Draining {
                if polled == Polled::Signal {
                    (self, Action::Poll)
                } else {
                    (self, Action::Arm)
                }
            } else {
                match polled {
                    Polled::Signal => (self.at(Phase::Ready), Action::Poll),
                    Polled::Disconnected => (
                        Course { phase: Phase::Closing, cause: Wake::Disconnected },
                        Action::Test,
                    ),
                    Polled::Empty => if self.phase is Ready {
                        (self, Action::Test)
                    } else {
                        (self.at(Phase::Asleep), Action::Sleep)
                    },
                }
            },
            Event::Tested(holds) => if holds {
                (self.at(Phase::Idle), Action::Finish(Ok(())))
            } else if self.phase is Closing {
                (
                    self.at(Phase::Idle),
                    Action::Finish(
                        if self.cause == Wake::TimedOut {
                            Err(NotifyTimeoutError::Timeout)
                        } else {
                            Err(NotifyTimeoutError::Disconnected)
                        },
                    ),
                )
            } else {
                (self.at(Phase::Tested), Action::Poll)
            },
            Event::Woke(wake) => if wake == Wake::Signal {
                (self.at(Phase::Ready), Action::Test)
            } else {
                (Course { phase: Phase::Closing, cause: wake }, Action::Test)
            },
        }
    }

    /// The move of the model that `event` stands for in this phase, where
    /// it stands for one: a poll that finds nothing to take moves nothing.
    pub open spec fn move_of(self, event: Event) -> Option<Move> {
        match event {
            Event::Started => Some(Move::Begin),
            Event::Armed => Some(Move::Arm),
            Event::Tested(_) => Some(Move::Test),
            Event::Polled(polled) => match polled {
                Polled::Signal => if self.phase is Tested {
                    Some(Move::Poll)
                } else {
                    Some(Move::Discard)
                },
                Polled::Empty => if self.phase is Tested {
                    Some(Move::Poll)
                } else {
                    None
                },
                Polled::Disconnected => if self.phase is Draining {
                    None
                } else {
                    Some(Move::GiveUp)
                },
            },
            Event::Woke(wake) => if wake == Wake::Signal {
                Some(Move::Wake)
            } else {
                Some(Move::GiveUp)
            },
        }
    }

    /// Whether `event` is one that `system` can give a waiter that waits
    /// for `holds`: a signal is taken only where one is queued, nothing is
    /// found only where none is, and a test answers for the count the cell
    /// holds.
    pub open spec fn agrees(system: System, event: Event, holds: spec_fn(usize) -> bool) -> bool {
        match event {
            Event::Polled(polled) => match polled {
                Polled::Signal => system.queued > 0,
                Polled::Empty => system.queued == 0,
                Polled::Disconnected => true,
            },
            Event::Woke(wake) => wake == Wake::Signal ==> system.queued > 0,
            Event::Tested(answer) => answer == holds(system.count),
            _ => true,
        }
    }

    /// A wait that has not begun.
    pub fn start() -> (course: Course)
        ensures
            course == Course::spec_start(),
    {
        Course { phase: Phase::Idle, cause: Wake::Disconnected }
    }
}

/// Takes the waiter one step on: from where it stands and what came of its
/// last action to where it stands now and what it does next.
pub fn advance(course: Course, event: Event) -> (next: (Course, Action))
    requires
        course.sound(),
        course.awaits(event),
    ensures
        next == course.spec_advance(event),
{
    match event {
        Event::Started => (Course { phase: Phase::Draining, cause: course.cause }, Action::Poll),
        Event::Armed => (Course { phase: Phase::Ready, cause: course.cause }, Action::Test),
        Event::Polled(polled) => {
            let seen = match course.phase {
                Phase::Ready => true,
                _ => false,
            };
            let (taken, more) = after_poll(seen, polled);
            match course.phase {
                Phase::Draining => if more {
                    (course, Action::Poll)
                } else {
                    (course, Action::Arm)
                },
                _ => if more {
                    (Course { phase: Phase::Ready, cause: course.cause }, Action::Poll)
                } else {
                    match settle(taken, polled) {
                        Some(Wake::Signal) => (course, Action::Test),
                        Some(wake) => (Course { phase: Phase::Closing, cause: wake }, Action::Test),
                        None => (
                            Course { phase: Phase::Asleep, cause: course.cause },
                            Action::Sleep,
                        ),
                    }
                },
            }
        },
        Event::Tested(holds) => {
            let wake = match course.phase {
                Phase::Closing => course.cause,
                _ => Wake::Signal,
            };
            match verdict(wake, holds) {
                Some(end) => (
                    Course { phase: Phase::Idle, cause: course.cause },
                    Action::Finish(end),
                ),
                None => (Course { phase: Phase::Tested, cause: course.cause }, Action::Poll),
            }
        },
        Event::Woke(wake) => match wake {
            Wake::Signal => (Course { phase: Phase::Ready, cause: course.cause }, Action::Test),
            _ => (Course { phase: Phase::Closing, cause: wake }, Action::Test),
        },
    }
}

/// A step keeps a course sound, and the action it gives is followed by an
/// event that the new course awaits.
pub proof fn lemma_advance_keeps_course(course: Course, event: Event)
    requires
        course.sound(),
        course.awaits(event),
    ensures
        course.spec_advance(event).0.sound(),
        forall|after: Event|
            #![auto]
            (match course.spec_advance(event).1 {
                Action::Poll => after is Polled,
                Action::Arm => after is Armed,
                Action::Test => after is Tested,
                Action::Sleep => after is Woke,
                Action::Finish(_) => after is Started,
            }) ==> course.spec_advance(event).0.awaits(after),
{
}

/// Every step is a move of the model: where the waiter stands in the phase
/// of a system and the event is one that the system can give, the event
/// stands for a move that the system admits, and the step leads to the
/// phase that the move leads to. An event that stands for no move leaves
/// the phase as it is. The flag is raised only after the drain, a sleep is
/// begun only on a poll that found nothing, and a sound system stays
/// sound, so that no wake-up is lost.
pub proof fn lemma_advance_follows_model(
    system: System,
    course: Course,
    event: Event,
    holds: spec_fn(usize) -> bool,
)
    requires
        course.sound(),
        course.awaits(event),
        system.phase == course.phase,
        Course::agrees(system, event, holds),
    ensures
        match course.move_of(event) {
            Some(mv) => system.admits(mv) && system.after(mv, holds).phase == course.spec_advance(
                event,
            ).0.phase,
            None => course.spec_advance(event).0.phase == course.phase,
        },
        course.spec_advance(event).1 is Arm ==> system.phase is Draining,
        course.spec_advance(event).1 is Sleep ==> system.queued == 0,
        system.sound(holds) ==> (course.move_of(event) matches Some(mv) ==> system.after(
            mv,
            holds,
        ).sound(holds)),
{
    if system.sound(holds) {
        if let Some(mv) = course.move_of(event) {
            lemma_move_keeps_sound(system, mv, holds);
        }
    }
}

/// A wait ends on a test and on nothing else: with `Ok` exactly where the
/// test held, and with an error exactly where the last test, made after a
/// hang-up or a timeout, failed. The error is the one that
/// [`spec_verdict`] gives for the cause.
pub proof fn lemma_finish_only_on_a_test(course: Course, event: Event)
    requires
        course.sound(),
        course.awaits(event),
    ensures
        course.spec_advance(event).1 matches Action::Finish(end) ==> {
            &&& event matches Event::Tested(answer)
            &&& end is Ok <==> answer
            &&& end is Err ==> course.phase is Closing && spec_verdict(course.cause, answer)
                == Some(end)
        },
        event == Event::Tested(true) ==> course.spec_advance(event).1 == Action::Finish(Ok(())),
        event == Event::Tested(false) && course.phase is Closing ==> course.spec_advance(
            event,
        ).1 is Finish,
{
}

/// A wait whose first test holds returns `Ok` at once: it polls until
/// nothing more is queued, raises the flag, tests once, and is done,
/// without a sleep. Whether senders are alive plays no part.
pub proof fn lemma_satisfied_at_once(found: Polled)
    requires
        found != Polled::Signal,
    ensures
        ({
            let begun = Course::spec_start().spec_advance(Event::Started);
            let drained = begun.0.spec_advance(Event::Polled(found));
            let armed = drained.0.spec_advance(Event::Armed);
            let tested = armed.0.spec_advance(Event::Tested(true));
            &&& begun.1 == Action::Poll
            &&& drained.1 == Action::Arm
            &&& armed.1 == Action::Test
            &&& tested.1 == Action::Finish(Ok(()))
            &&& tested.0.phase is Idle
        }),
{
}

/// A sleep that ends with a hang-up or a timeout is followed by exactly one
/// more test, and then the wait ends: with `Ok` where that test holds, with
/// `Disconnected` after a hang-up and `Timeout` after a timeout where it
/// fails.
pub proof fn lemma_one_last_test(course: Course, wake: Wake, answer: bool)
    requires
        course.sound(),
        course.phase is Asleep,
        wake != Wake::Signal,
    ensures
        ({
            let woken = course.spec_advance(Event::Woke(wake));
            let tested = woken.0.spec_advance(Event::Tested(answer));
            &&& woken.1 == Action::Test
            &&& woken.0.phase is Closing
            &&& tested.1 matches Action::Finish(end) && spec_verdict(wake, answer) == Some(end)
            &&& tested.0.phase is Idle
        }),
{
}

/// A hang-up that a poll finds is followed by one last test in the same
/// way, whether or not signals were taken before it.
pub proof fn lemma_one_last_test_after_a_poll(course: Course, answer: bool)
    requires
        course.sound(),
        course.phase is Ready || course.phase is Tested,
    ensures
        ({
            let polled = course.spec_advance(Event::Polled(Polled::Disconnected));
            let tested = polled.0.spec_advance(Event::Tested(answer));
            &&& polled.1 == Action::Test
            &&& polled.0.phase is Closing
            &&& tested.1 matches Action::Finish(end) && spec_verdict(Wake::Disconnected, answer)
                == Some(end)
        }),
{
}

/// Tests `condition` on a count that was read from the cell: the answer is
/// the predicate's own.
pub fn check(condition: &impl Fn(usize) -> bool, count: usize) -> (holds: bool)
    requires
        condition.requires((count,)),
    ensures
        condition.ensures((count,), holds),
{
    condition(count)
}

/// Narrows the outcome of a wait that had no time limit.
pub fn untimed(end: Result<(), NotifyTimeoutError>) -> (narrow: Result<(), NotifyError>)
    requires
        end != Err::<(), NotifyTimeoutError>(NotifyTimeoutError::Timeout),
    ensures
        narrow is Ok <==> end is Ok,
        end is Err ==> narrow == Err::<(), NotifyError>(NotifyError::Disconnected),
{
    match end {
        Ok(()) => Ok(()),
        Err(_) => Err(NotifyError::Disconnected),
    }
}

impl Clone for NotifySender {
    /// Another sender on the same channel, behind the same flag.
    fn clone(&self) -> (copy: Self)
        ensures
            copy.flag() == self.flag(),
    {
        NotifySender { should_send: Arc::clone(&self.should_send), sender: self.sender.clone() }
    }
}

impl NotifySender {
    /// The flag this sender reads before it sends.
    pub closed spec fn flag(&self) -> AtomicBool {
        *self.should_send
    }

    /// Signals the handle if it is armed. A signal that nobody takes is not
    /// an error.
    pub(crate) fn notify(&self)
        opens_invariants none
        no_unwind
    {
        if flag_is_raised(&self.should_send) {
            send_signal(&self.sender);
        }
    }
}

impl NotifyHandle {
    /// The count cell this handle reads.
    pub closed spec fn cell(&self) -> AtomicUsize {
        *self.counter
    }

    /// The flag this handle raises while it waits.
    pub closed spec fn flag(&self) -> AtomicBool {
        *self.should_send
    }

    /// The place of this handle among the handles created on its builder:
    /// 0 for the first, 1 for the second, and so on. Two handles of one
    /// builder never have the same.
    pub closed spec fn position(&self) -> nat {
        self.position as nat
    }

    /// The place of this handle among the handles created on its builder.
    pub fn place(&self) -> (place: usize)
        ensures
            place == self.position(),
    {
        self.position
    }

    /// Creates a handle on `counter` and the sender that signals it, for
    /// the given place among the handles of a builder. The two share one
    /// flag, which starts lowered.
    pub(crate) fn new(counter: Arc<AtomicUsize>, position: usize) -> (pair: (
        NotifyHandle,
        NotifySender,
    ))
        ensures
            pair.0.cell() == *counter,
            pair.0.flag() == pair.1.flag(),
            pair.0.position() == position,
    {
        let (sender, receiver) = std::sync::mpsc::channel::<()>();
        let should_send = Arc::new(AtomicBool::new(false));
        (
            NotifyHandle { receiver, should_send: Arc::clone(&should_send), counter, position },
            NotifySender { sender, should_send },
        )
    }

    /// Blocks the current thread until `condition` holds of the count.
    ///
    /// The thread sleeps on the channel between tests instead of spinning.
    /// `Ok` is returned only after a test of `condition` that succeeded, and
    /// `Disconnected` only after one that failed: so a predicate that
    /// cannot fail is never answered with an error. A wait that has used
    /// [`WAKE_LIMIT`] steps is given up as `Disconnected`.
    ///
    /// Only one thread at a time may wait on a handle.
    pub fn wait_until_condition(&self, condition: impl Fn(usize) -> bool) -> (end: Result<
        (),
        NotifyError,
    >)
        requires
            forall|count: usize| condition.requires((count,)),
        ensures
            end is Ok ==> exists|count: usize| condition.ensures((count,), true),
            end is Err ==> exists|count: usize| condition.ensures((count,), false),
    {
        let end = self.wait_until_condition_inner(condition, None);
        untimed(end)
    }

    /// [`NotifyHandle::wait_until_condition`] with a time limit.
    ///
    /// `Ok` is returned only after a test of `condition` that succeeded, and
    /// either error only after one that failed: the predicate is tested
    /// once more after the channel hung up or the time ran out. A wait that
    /// has used [`WAKE_LIMIT`] steps is given up as `Timeout`.
    pub fn wait_until_condition_timeout(
        &self,
        condition: impl Fn(usize) -> bool,
        timeout: Duration,
    ) -> (end: Result<(), NotifyTimeoutError>)
        requires
            forall|count: usize| condition.requires((count,)),
        ensures
            end is Ok ==> exists|count: usize| condition.ensures((count,), true),
            end is Err ==> exists|count: usize| condition.ensures((count,), false),
    {
        self.wait_until_condition_inner(condition, Some(timeout))
    }

    /// Sleeps on the channel as `nap` allows: without limit, for the given
    /// time at most, or not at all. A sleep without limit never ends in a
    /// timeout, and a sleep that is not allowed is a timeout at once.
    fn block(&self, nap: Nap) -> (wake: Wake)
        ensures
            nap is Unbounded ==> wake != Wake::TimedOut,
            nap is Spent ==> wake == Wake::TimedOut,
    {
        match nap {
            Nap::Unbounded => await_signal(&self.receiver),
            Nap::Within(rest) => await_signal_within(&self.receiver, rest),
            Nap::Spent => Wake::TimedOut,
        }
    }

    /// Reads the count and tests `condition` on it.
    fn test(&self, condition: &impl Fn(usize) -> bool) -> (holds: bool)
        requires
            forall|count: usize| condition.requires((count,)),
        ensures
            exists|count: usize| condition.ensures((count,), holds),
    {
        let count: usize = self.counter.load(Ordering::SeqCst);
        check(condition, count)
    }

    /// The protocol behind both waits: drain, arm, test, then sleep and
    /// test again until the predicate holds, the channel hangs up, or the
    /// time runs out. The flag is lowered on every way out.
    ///
    /// Which operation comes next is decided by [`advance`], whose steps
    /// are moves of the model in [`crate::wakeup`]; this body performs the
    /// operation and hands back what came of it. The contract speaks of
    /// the tests of the predicate only: that each operation is performed as
    /// asked is not part of it.
    fn wait_until_condition_inner(
        &self,
        condition: impl Fn(usize) -> bool,
        timeout: Option<Duration>,
    ) -> (end: Result<(), NotifyTimeoutError>)
        requires
            forall|count: usize| condition.requires((count,)),
        ensures
            end is Ok ==> exists|count: usize| condition.ensures((count,), true),
            end is Err ==> exists|count: usize| condition.ensures((count,), false),
            end == Err::<(), NotifyTimeoutError>(NotifyTimeoutError::Timeout) ==> timeout is Some,
    {
        let start = clock_now();
        let mut course = Course::start();
        let mut event = Event::Started;
        let mut fuel: u64 = WAKE_LIMIT;
        while fuel > 0
            invariant
                forall|count: usize| condition.requires((count,)),
                course.sound(),
                course.awaits(event),
                course.cause == Wake::TimedOut ==> timeout is Some,
                event == Event::Woke(Wake::TimedOut) ==> timeout is Some,
                event is Tested ==> exists|count: usize|
                    condition.ensures((count,), event->Tested_0),
            decreases fuel,
        {
            fuel = fuel - 1;
            proof {
                lemma_advance_keeps_course(course, event);
            }
            let (next, action) = advance(course, event);
            course = next;
            match action {
                Action::Poll => {
                    event = Event::Polled(poll_signal(&self.receiver));
                },
                Action::Arm => {
                    self.should_send.store(true, Ordering::SeqCst);
                    event = Event::Armed;
                },
                Action::Test => {
                    let answer = self.test(&condition);
                    event = Event::Tested(answer);
                    assert(event->Tested_0 == answer);
                },
                Action::Sleep => {
                    event = Event::Woke(self.block(plan_nap(timeout, clock_elapsed(&start))));
                },
                Action::Finish(end) => {
                    self.should_send.store(false, Ordering::SeqCst);
                    return end;
                },
            }
        }
        let holds = self.test(&condition);
        self.should_send.store(false, Ordering::SeqCst);
        abandon(timeout.is_some(), holds)
    }
}

} // verus!
