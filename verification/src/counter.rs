//! The counting handles.
//!
//! Every handle that descends from one builder shares that builder's count
//! cell and its list of notification senders. A [`Counter`] adds its weight
//! to the cell when it comes into being and subtracts it when it is
//! dropped; a [`WeakCounter`] only looks. Each change of the cell is
//! followed by a signal to every bound handle.

use crate::notify::{NotifyHandle, NotifySender};
use crate::primitives::{cell_subtract, count_of, item_at};
use std::sync::atomic::{AtomicBool, AtomicUsize, Ordering};
use std::sync::Arc;
use vstd::prelude::*;

verus! {

/// The flags of the handles that `senders` signal, in the order in which
/// the handles were created. The channel ends of the senders are not part
/// of it: two lists with the same flags may still send on different
/// channels.
pub open spec fn flags(senders: Seq<NotifySender>) -> Seq<AtomicBool> {
    Seq::new(senders.len(), |i: int| senders[i].flag())
}

/// A handle created on a builder is none of those created on it before:
/// each takes the place that the number of earlier handles gives, and that
/// number only grows.
pub proof fn lemma_later_handle_is_new(
    earlier: NotifyHandle,
    before: Seq<AtomicBool>,
    later: NotifyHandle,
    between: Seq<AtomicBool>,
)
    requires
        earlier.position() == before.len(),
        later.position() == between.len(),
        before.len() < between.len(),
    ensures
        earlier.position() != later.position(),
{
}

/// A handle that counts: it holds `weight()` units of the shared count for
/// as long as it lives.
#[derive(Debug)]
pub struct Counter {
    counter: Arc<AtomicUsize>,
    notify: Vec<NotifySender>,
    size: usize,
}

/// A handle on the same cell that does not count.
#[derive(Debug)]
pub struct WeakCounter {
    counter: Arc<AtomicUsize>,
    notify: Vec<NotifySender>,
}

/// Configures a [`Counter`] on a fresh cell.
pub struct CounterBuilder {
    counter: Arc<AtomicUsize>,
    size: usize,
    notify: Vec<NotifySender>,
}

/// Configures a [`WeakCounter`] on a fresh cell.
pub struct WeakCounterBuilder {
    counter: Arc<AtomicUsize>,
    notify: Vec<NotifySender>,
}

/// Copies a list of senders, one for one.
fn copy_senders(senders: &Vec<NotifySender>) -> (copy: Vec<NotifySender>)
    ensures
        flags(copy@) == flags(senders@),
{
    let mut copy: Vec<NotifySender> = Vec::new();
    let mut i: usize = 0;
    while i < senders.len()
        invariant
            i <= senders.len(),
            copy.len() == i,
            forall|k: int| 0 <= k < i ==> copy[k].flag() == senders[k].flag(),
        decreases senders.len() - i,
    {
        copy.push(senders[i].clone());
        i = i + 1;
    }
    assert(flags(copy@) =~= flags(senders@));
    copy
}

/// Signals every handle bound to `senders` that is armed.
fn notify_all(senders: &Vec<NotifySender>)
    opens_invariants none
    no_unwind
{
    let n: usize = count_of(senders);
    let mut i: usize = 0;
    while i < n
        invariant
            i <= n,
            n == senders@.len(),
        decreases n - i,
    {
        item_at(senders, i).notify();
        i = i + 1;
    }
}

impl CounterBuilder {
    /// The cell the counter will count in.
    pub closed spec fn cell(&self) -> AtomicUsize {
        *self.counter
    }

    /// The weight the counter will have.
    pub closed spec fn weight(&self) -> usize {
        self.size
    }

    /// The flags of the handles created so far.
    pub closed spec fn bindings(&self) -> Seq<AtomicBool> {
        flags(self.notify@)
    }

    /// Sets the weight of the new [`Counter`]: it adds `v` to the count and
    /// removes `v` again when it is dropped.
    pub fn size(self, v: usize) -> (set: Self)
        ensures
            set.weight() == v,
            set.cell() == self.cell(),
            set.bindings() == self.bindings(),
    {
        CounterBuilder { counter: self.counter, size: v, notify: self.notify }
    }

    /// Creates a [`NotifyHandle`] on this builder's cell. Every counter that
    /// descends from the builder signals it. Handles cannot be bound later,
    /// since the counters already handed out would not know of them.
    ///
    /// The new handle takes the next free place among the builder's
    /// handles, so it is none of the earlier ones.
    pub fn create_notify(&mut self) -> (handle: NotifyHandle)
        ensures
            handle.cell() == old(self).cell(),
            handle.position() == old(self).bindings().len(),
            final(self).bindings() == old(self).bindings().push(handle.flag()),
            final(self).cell() == old(self).cell(),
            final(self).weight() == old(self).weight(),
    {
        let (handle, sender) = NotifyHandle::new(Arc::clone(&self.counter), self.notify.len());
        self.notify.push(sender);
        assert(flags(self.notify@) =~= flags(old(self).notify@).push(handle.flag()));
        handle
    }

    /// Creates the [`Counter`], adding its weight to the cell. This first
    /// addition sends no signal to the handles created on the builder.
    ///
    /// The contract fixes the counter's weight, cell and bindings; the
    /// addition is not part of it. [`crate::ledger`] models it as a
    /// `Step::Spawn`.
    pub fn build(self) -> (made: Counter)
        ensures
            made.weight() == self.weight(),
            made.cell() == self.cell(),
            made.bindings() == self.bindings(),
    {
        self.counter.fetch_add(self.size, Ordering::SeqCst);
        Counter { counter: self.counter, notify: self.notify, size: self.size }
    }
}

impl Default for CounterBuilder {
    /// A builder for a counter of weight 1 on a fresh cell at 0, with no
    /// handle bound.
    fn default() -> (fresh: Self)
        ensures
            fresh.weight() == 1,
            fresh.bindings() == Seq::<AtomicBool>::empty(),
    {
        let fresh = Self { counter: Arc::new(AtomicUsize::new(0)), size: 1, notify: Vec::new() };
        assert(flags(fresh.notify@) =~= Seq::<AtomicBool>::empty());
        fresh
    }
}

impl Counter {
    /// The cell this counter counts in.
    pub closed spec fn cell(&self) -> AtomicUsize {
        *self.counter
    }

    /// What this counter adds to the count while it lives.
    pub closed spec fn weight(&self) -> usize {
        self.size
    }

    /// The flags of the handles this counter signals.
    pub closed spec fn bindings(&self) -> Seq<AtomicBool> {
        flags(self.notify@)
    }

    /// A builder for a counter of weight 1 on a fresh cell.
    pub fn builder() -> (fresh: CounterBuilder)
        ensures
            fresh.weight() == 1,
            fresh.bindings() == Seq::<AtomicBool>::empty(),
    {
        CounterBuilder::default()
    }

    /// Gives up this counter, which takes its weight off the count, and
    /// returns a [`WeakCounter`] on the same cell. The weight leaves the
    /// cell in one subtraction, when the counter is dropped at the end.
    ///
    /// The contract fixes the weak handle's cell and bindings; the
    /// subtraction is not part of it. [`crate::ledger`] models it as a
    /// `Step::Release`.
    pub fn downgrade(self) -> (weak: WeakCounter)
        ensures
            weak.cell() == self.cell(),
            weak.bindings() == self.bindings(),
    {
        self.spawn_downgrade()
    }

    /// Returns a [`WeakCounter`] on the same cell and keeps this counter.
    /// The count is not touched.
    ///
    /// The contract fixes the weak handle's cell and bindings; it does not
    /// speak of the count. [`crate::ledger`] models the call as a
    /// `Step::Look`.
    pub fn spawn_downgrade(&self) -> (weak: WeakCounter)
        ensures
            weak.cell() == self.cell(),
            weak.bindings() == self.bindings(),
    {
        WeakCounter { notify: copy_senders(&self.notify), counter: Arc::clone(&self.counter) }
    }

    /// Reads the count. Other threads may change it at any moment, so the
    /// value is stale as soon as it is returned.
    #[inline]
    pub fn count(&self) -> (now: usize) {
        self.counter.load(Ordering::Acquire)
    }
}

impl Clone for Counter {
    /// Adds this counter's weight to the cell once more, signals the bound
    /// handles, and returns a counter of the same weight on the same cell.
    ///
    /// The contract fixes the copy's weight, cell and bindings; the
    /// addition and the signals are not part of it. [`crate::ledger`]
    /// models the call as a `Step::Clone`.
    fn clone(&self) -> (copy: Self)
        ensures
            copy.weight() == self.weight(),
            copy.cell() == self.cell(),
            copy.bindings() == self.bindings(),
    {
        self.counter.fetch_add(self.size, Ordering::SeqCst);
        notify_all(&self.notify);
        Counter {
            notify: copy_senders(&self.notify),
            counter: Arc::clone(&self.counter),
            size: self.size,
        }
    }
}

impl Drop for Counter {
    /// Takes this counter's weight off the cell and signals the bound
    /// handles. The counter itself is left as it was.
    ///
    /// The contract says the latter only; the subtraction and the signals
    /// are not part of it. [`crate::ledger`] models the drop as a
    /// `Step::Release`.
    fn drop(&mut self)
        ensures
            final(self).weight() == old(self).weight(),
            final(self).cell() == old(self).cell(),
            final(self).bindings() == old(self).bindings(),
        opens_invariants none
        no_unwind
    {
        cell_subtract(&self.counter, self.size);
        notify_all(&self.notify);
    }
}

impl WeakCounterBuilder {
    /// The cell the weak counter will look at.
    pub closed spec fn cell(&self) -> AtomicUsize {
        *self.counter
    }

    /// The flags of the handles created so far.
    pub closed spec fn bindings(&self) -> Seq<AtomicBool> {
        flags(self.notify@)
    }

    /// Creates a [`NotifyHandle`] on this builder's cell. Every counter that
    /// descends from the builder signals it. Handles cannot be bound later,
    /// since the counters already handed out would not know of them.
    ///
    /// The new handle takes the next free place among the builder's
    /// handles, so it is none of the earlier ones.
    pub fn create_notify(&mut self) -> (handle: NotifyHandle)
        ensures
            handle.cell() == old(self).cell(),
            handle.position() == old(self).bindings().len(),
            final(self).bindings() == old(self).bindings().push(handle.flag()),
            final(self).cell() == old(self).cell(),
    {
        let (handle, sender) = NotifyHandle::new(Arc::clone(&self.counter), self.notify.len());
        self.notify.push(sender);
        assert(flags(self.notify@) =~= flags(old(self).notify@).push(handle.flag()));
        handle
    }

    /// Creates the [`WeakCounter`]. The cell stays at 0: a weak counter
    /// contributes nothing.
    pub fn build(self) -> (made: WeakCounter)
        ensures
            made.cell() == self.cell(),
            made.bindings() == self.bindings(),
    {
        WeakCounter { notify: self.notify, counter: self.counter }
    }
}

impl Default for WeakCounterBuilder {
    /// A builder on a fresh cell at 0, with no handle bound.
    fn default() -> (fresh: Self)
        ensures
            fresh.bindings() == Seq::<AtomicBool>::empty(),
    {
        let fresh = Self { counter: Arc::new(AtomicUsize::new(0)), notify: Vec::new() };
        assert(flags(fresh.notify@) =~= Seq::<AtomicBool>::empty());
        fresh
    }
}

impl WeakCounter {
    /// The cell this handle looks at.
    pub closed spec fn cell(&self) -> AtomicUsize {
        *self.counter
    }

    /// The flags of the handles that counters made from this one signal.
    pub closed spec fn bindings(&self) -> Seq<AtomicBool> {
        flags(self.notify@)
    }

    /// A builder for a weak counter on a fresh cell.
    pub fn builder() -> (fresh: WeakCounterBuilder)
        ensures
            fresh.bindings() == Seq::<AtomicBool>::empty(),
    {
        WeakCounterBuilder::default()
    }

    /// Reads the count. Other threads may change it at any moment, so the
    /// value is stale as soon as it is returned.
    #[inline]
    pub fn count(&self) -> (now: usize) {
        self.counter.load(Ordering::Acquire)
    }

    /// Gives up this handle for a [`Counter`] of weight 1 on the same cell.
    pub fn upgrade(self) -> (strong: Counter)
        ensures
            strong.weight() == 1,
            strong.cell() == self.cell(),
            strong.bindings() == self.bindings(),
    {
        self.spawn_upgrade()
    }

    /// Creates a [`Counter`] of weight 1 on the same cell and keeps this
    /// handle.
    pub fn spawn_upgrade(&self) -> (strong: Counter)
        ensures
            strong.weight() == 1,
            strong.cell() == self.cell(),
            strong.bindings() == self.bindings(),
    {
        self.spawn_upgrade_with_size(1)
    }

    /// Creates a [`Counter`] of weight `size` on the same cell and keeps
    /// this handle: `size` is added to the cell and the bound handles are
    /// signalled.
    ///
    /// The contract fixes the counter's weight, cell and bindings; the
    /// addition and the signals are not part of it. [`crate::ledger`]
    /// models the call as a `Step::Spawn`.
    pub fn spawn_upgrade_with_size(&self, size: usize) -> (strong: Counter)
        ensures
            strong.weight() == size,
            strong.cell() == self.cell(),
            strong.bindings() == self.bindings(),
    {
        self.counter.fetch_add(size, Ordering::SeqCst);
        notify_all(&self.notify);
        Counter { notify: copy_senders(&self.notify), counter: Arc::clone(&self.counter), size }
    }
}

impl Clone for WeakCounter {
    /// Another handle on the same cell. The count does not change.
    fn clone(&self) -> (copy: Self)
        ensures
            copy.cell() == self.cell(),
            copy.bindings() == self.bindings(),
    {
        WeakCounter { notify: copy_senders(&self.notify), counter: Arc::clone(&self.counter) }
    }
}

} // verus!
