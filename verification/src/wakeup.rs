//! The wait protocol, as a model.
//!
//! A waiter drains the channel, raises the flag, tests the predicate, and
//! only then polls and sleeps. A counter changes the cell first, reads the
//! flag second, and sends third. This module takes each of these atomic
//! operations as one move of a system in which the moves of the waiter and
//! of any number of counters interleave freely, and proves that no wake-up
//! is lost: whenever the waiter is asleep and no signal is queued or on its
//! way, the cell still holds the very count on which the predicate failed.
//! So a waiter that keeps to this order never sleeps through a change.
//!
//! The waiter's decisions are made by `notify::advance`, and each of its
//! steps is proved to be a move of this model. That the waiting code
//! performs each operation as the step asks, and that the counters change,
//! read and send in this order, is not proved: their contracts do not speak
//! of the cell, the flag or the channel.

use vstd::prelude::*;

verus! {

/// Where the waiter stands.
#[derive(Debug, Clone, Copy, PartialEq, Eq, Structural)]
pub enum Phase {
    /// Not waiting.
    Idle,
    /// A wait has begun: stale signals are taken off the channel.
    Draining,
    /// The flag is raised, and the predicate is to be tested next.
    Ready,
    /// The predicate failed on the count last read; the channel is polled
    /// next.
    Tested,
    /// Blocked on the empty channel.
    Asleep,
    /// The channel hung up or the time ran out: one last test follows.
    Closing,
}

/// One atomic operation of the waiter or of a counter.
pub enum Move {
    /// A counter is cloned, dropped, or spawned from a weak handle: the
    /// cell takes the given value. (The addition that a builder makes when
    /// it is built is not such a move: it sends no signal, and belongs
    /// before the first wait.)
    Change(usize),
    /// A counter that changed the cell reads the flag.
    ReadFlag,
    /// A counter that read the flag raised sends its signal.
    Send,
    /// The waiter starts a wait.
    Begin,
    /// The waiter takes a signal off the channel without sleeping: a stale
    /// one before it raises the flag, or a further one before it tests.
    Discard,
    /// The waiter raises the flag.
    Arm,
    /// The waiter reads the cell and tests the predicate.
    Test,
    /// The waiter polls the channel after a failed test.
    Poll,
    /// A signal ends the waiter's sleep.
    Wake,
    /// The waiter learns that the channel hung up or the time ran out.
    GiveUp,
}

/// The cell, the flag, the channel, the counters at work, and the waiter.
pub struct System {
    /// What the cell holds.
    pub count: usize,
    /// Whether the flag is raised.
    pub armed: bool,
    /// The signals queued in the channel.
    pub queued: nat,
    /// The counters that have changed the cell and not read the flag yet.
    pub fresh: nat,
    /// The counters that have read the flag raised and not sent yet.
    pub bound: nat,
    /// Where the waiter stands.
    pub phase: Phase,
    /// The count of the waiter's last test.
    pub seen: usize,
}

impl System {
    /// A cell at `count` that nobody waits on.
    pub open spec fn quiet(count: usize) -> System {
        System {
            count,
            armed: false,
            queued: 0,
            fresh: 0,
            bound: 0,
            phase: Phase::Idle,
            seen: count,
        }
    }

    /// The signals that are queued or still to come.
    pub open spec fn pending(self) -> nat {
        self.queued + self.fresh + self.bound
    }

    /// Whether `mv` can happen here.
    pub open spec fn admits(self, mv: Move) -> bool {
        match mv {
            Move::Change(_) => true,
            Move::ReadFlag => self.fresh > 0,
            Move::Send => self.bound > 0,
            Move::Begin => self.phase is Idle,
            Move::Discard => self.queued > 0 && (self.phase is Draining || self.phase is Ready),
            Move::Arm => self.phase is Draining,
            Move::Test => self.phase is Ready || self.phase is Closing,
            Move::Poll => self.phase is Tested,
            Move::Wake => self.phase is Asleep && self.queued > 0,
            Move::GiveUp => self.phase is Ready || self.phase is Tested || self.phase is Asleep,
        }
    }

    /// The system after `mv`, for a waiter that waits for `holds`.
    pub open spec fn after(self, mv: Move, holds: spec_fn(usize) -> bool) -> System {
        match mv {
            Move::Change(count) => System { count, fresh: self.fresh + 1, ..self },
            Move::ReadFlag => System {
                fresh: (self.fresh - 1) as nat,
                bound: if self.armed {
                    self.bound + 1
                } else {
                    self.bound
                },
                ..self
            },
            Move::Send => System {
                bound: (self.bound - 1) as nat,
                queued: self.queued + 1,
                ..self
            },
            Move::Begin => System { phase: Phase::Draining, ..self },
            Move::Discard => System { queued: (self.queued - 1) as nat, ..self },
            Move::Arm => System { armed: true, phase: Phase::Ready, ..self },
            Move::Test => if holds(self.count) || self.phase is Closing {
                System { seen: self.count, armed: false, phase: Phase::Idle, ..self }
            } else {
                System { seen: self.count, phase: Phase::Tested, ..self }
            },
            Move::Poll => if self.queued > 0 {
                System { queued: (self.queued - 1) as nat, phase: Phase::Ready, ..self }
            } else {
                System { phase: Phase::Asleep, ..self }
            },
            Move::Wake => System { queued: (self.queued - 1) as nat, phase: Phase::Ready, ..self },
            Move::GiveUp => System { phase: Phase::Closing, ..self },
        }
    }

    /// Whether `moves` can happen here one after the other.
    pub open spec fn admits_all(self, moves: Seq<Move>, holds: spec_fn(usize) -> bool) -> bool
        decreases moves.len(),
    {
        moves.len() == 0 || (self.admits(moves[0]) && self.after(moves[0], holds).admits_all(
            moves.subrange(1, moves.len() as int),
            holds,
        ))
    }

    /// The system after `moves`, taken in order.
    pub open spec fn after_all(self, moves: Seq<Move>, holds: spec_fn(usize) -> bool) -> System
        decreases moves.len(),
    {
        if moves.len() == 0 {
            self
        } else {
            self.after(moves[0], holds).after_all(moves.subrange(1, moves.len() as int), holds)
        }
    }

    /// What every reachable system satisfies: the flag is raised exactly
    /// while a wait is past its drain, and a waiter that has tested and not
    /// been woken since either saw the count the cell still holds or has a
    /// signal queued or coming.
    pub open spec fn sound(self, holds: spec_fn(usize) -> bool) -> bool {
        &&& self.armed <==> !(self.phase is Idle || self.phase is Draining)
        &&& (self.phase is Tested || self.phase is Asleep) ==> {
            &&& !holds(self.seen)
            &&& self.count == self.seen || self.pending() > 0
        }
    }
}

/// One move keeps a sound system sound.
pub proof fn lemma_move_keeps_sound(system: System, mv: Move, holds: spec_fn(usize) -> bool)
    requires
        system.sound(holds),
        system.admits(mv),
    ensures
        system.after(mv, holds).sound(holds),
{
}

/// Any sequence of moves keeps a sound system sound.
pub proof fn lemma_moves_keep_sound(system: System, moves: Seq<Move>, holds: spec_fn(usize) -> bool)
    requires
        system.sound(holds),
        system.admits_all(moves, holds),
    ensures
        system.after_all(moves, holds).sound(holds),
    decreases moves.len(),
{
    if moves.len() > 0 {
        lemma_move_keeps_sound(system, moves[0], holds);
        lemma_moves_keep_sound(
            system.after(moves[0], holds),
            moves.subrange(1, moves.len() as int),
            holds,
        );
    }
}

/// No wake-up is lost: however the moves of the waiter and of the counters
/// interleave, a waiter that is asleep while no signal is queued or on its
/// way sleeps on a count on which the predicate fails.
pub proof fn lemma_no_lost_wakeup(start: usize, moves: Seq<Move>, holds: spec_fn(usize) -> bool)
    requires
        System::quiet(start).admits_all(moves, holds),
        System::quiet(start).after_all(moves, holds).phase is Asleep,
        System::quiet(start).after_all(moves, holds).pending() == 0,
    ensures
        !holds(System::quiet(start).after_all(moves, holds).count),
{
    lemma_moves_keep_sound(System::quiet(start), moves, holds);
}

/// The flag is lowered whenever nobody waits: after a wait has ended, in
/// success or in error, the counters send nothing.
pub proof fn lemma_idle_is_disarmed(start: usize, moves: Seq<Move>, holds: spec_fn(usize) -> bool)
    requires
        System::quiet(start).admits_all(moves, holds),
        System::quiet(start).after_all(moves, holds).phase is Idle,
    ensures
        !System::quiet(start).after_all(moves, holds).armed,
{
    lemma_moves_keep_sound(System::quiet(start), moves, holds);
}

} // verus!
