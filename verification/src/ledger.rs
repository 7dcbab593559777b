//! The arithmetic of a count cell, as a model.
//!
//! A cell is changed in two ways only: a counter that comes into being adds
//! its weight, and a counter that is dropped subtracts the weight it added.
//! Both wrap around at the width of `usize`. This module states what a
//! reader of the cell sees after any sequence of operations on the handles:
//! the sum of the weights of the counters that are alive, reduced modulo
//! the width of the cell, and so the sum itself whenever the sum fits.
//!
//! This is a model of what the handles are meant to do to the cell. The
//! handles' own contracts do not speak of the cell's value, so nothing here
//! is proved of their code: the laws below hold of the model.
//!
//! The model takes the operations one at a time, in the order in which the
//! atomic additions and subtractions reach the cell. A read that races with
//! other threads returns the model's count after some of these operations,
//! not necessarily after all of them.

use crate::counter::Counter;
use vstd::arithmetic::div_mod::{lemma_add_mod_noop, lemma_small_mod, lemma_sub_mod_noop};
use vstd::prelude::*;

verus! {

/// The number of values a cell can hold.
pub open spec fn modulus() -> int {
    usize::MAX + 1
}

/// The value a cell shows for the exact count `n`.
pub open spec fn wrapped(n: int) -> usize {
    (n % modulus()) as usize
}

/// The sum of `weights`.
pub open spec fn total(weights: Seq<usize>) -> nat
    decreases weights.len(),
{
    if weights.len() == 0 {
        0
    } else {
        total(weights.drop_last()) + weights.last() as nat
    }
}

/// The weights of `counters`, in order.
pub open spec fn weights(counters: Seq<Counter>) -> Seq<usize> {
    Seq::new(counters.len(), |i: int| counters[i].weight())
}

/// One operation on a handle of a cell.
pub enum Step {
    /// A counter of the given weight comes into being: built, or upgraded
    /// from a weak handle.
    Spawn(usize),
    /// The live counter at the given position is cloned.
    Clone(nat),
    /// The live counter at the given position is dropped, or given up in a
    /// downgrade.
    Release(nat),
    /// Anything that only looks: reading the count, making a weak handle
    /// from a counter that is kept, copying or dropping a weak handle.
    Look,
}

/// A cell together with the weights of the counters that are alive on it,
/// oldest first.
#[verifier::ext_equal]
pub struct Ledger {
    pub count: usize,
    pub live: Seq<usize>,
}

impl Ledger {
    /// A cell that nothing has touched yet.
    pub open spec fn fresh() -> Ledger {
        Ledger { count: 0, live: Seq::empty() }
    }

    /// Whether `step` can happen here: only a counter that is alive can be
    /// cloned or dropped.
    pub open spec fn admits(self, step: Step) -> bool {
        match step {
            Step::Spawn(_) => true,
            Step::Clone(at) => at < self.live.len(),
            Step::Release(at) => at < self.live.len(),
            Step::Look => true,
        }
    }

    /// The ledger with one more counter of the given weight.
    pub open spec fn acquire(self, weight: usize) -> Ledger {
        Ledger { count: wrapped(self.count + weight), live: self.live.push(weight) }
    }

    /// The ledger after `step`.
    pub open spec fn after(self, step: Step) -> Ledger {
        match step {
            Step::Spawn(weight) => self.acquire(weight),
            Step::Clone(at) => self.acquire(self.live[at as int]),
            Step::Release(at) => Ledger {
                count: wrapped(self.count - self.live[at as int]),
                live: self.live.remove(at as int),
            },
            Step::Look => self,
        }
    }

    /// Whether `steps` can happen here one after the other.
    pub open spec fn admits_all(self, steps: Seq<Step>) -> bool
        decreases steps.len(),
    {
        steps.len() == 0 || (self.admits(steps[0]) && self.after(steps[0]).admits_all(
            steps.subrange(1, steps.len() as int),
        ))
    }

    /// The ledger after `steps`, taken in order.
    pub open spec fn after_all(self, steps: Seq<Step>) -> Ledger
        decreases steps.len(),
    {
        if steps.len() == 0 {
            self
        } else {
            self.after(steps[0]).after_all(steps.subrange(1, steps.len() as int))
        }
    }

    /// The cell shows the sum of the live weights, as far as it fits.
    pub open spec fn balanced(self) -> bool {
        self.count == wrapped(total(self.live) as int)
    }
}

/// Appending a weight adds it to the sum.
pub proof fn lemma_total_push(weights: Seq<usize>, weight: usize)
    ensures
        total(weights.push(weight)) == total(weights) + weight,
{
    assert(weights.push(weight).drop_last() =~= weights);
}

/// Taking a weight out subtracts it from the sum.
pub proof fn lemma_total_remove(weights: Seq<usize>, at: int)
    requires
        0 <= at < weights.len(),
    ensures
        total(weights.remove(at)) == total(weights) - weights[at],
    decreases weights.len(),
{
    if at == weights.len() - 1 {
        assert(weights.remove(at) =~= weights.drop_last());
    } else {
        lemma_total_remove(weights.drop_last(), at);
        assert(weights.remove(at).drop_last() =~= weights.drop_last().remove(at));
        assert(weights.remove(at).last() == weights.last());
    }
}

/// A sum that fits the cell is shown as it is.
pub proof fn lemma_wrapped_small(n: int)
    requires
        0 <= n <= usize::MAX,
    ensures
        wrapped(n) == n,
{
    lemma_small_mod(n as nat, modulus() as nat);
}

/// Looking changes nothing: the count read before and after making a weak
/// handle is the same, and so are two reads with nothing between them.
pub proof fn lemma_look_changes_nothing(ledger: Ledger)
    ensures
        ledger.admits(Step::Look),
        ledger.after(Step::Look) == ledger,
        ledger.after(Step::Look).after(Step::Look).count == ledger.count,
{
}

/// A counter that is made and dropped again leaves the cell as it was,
/// whatever the cell showed and whether or not the addition wrapped.
pub proof fn lemma_spawn_then_release_restores(ledger: Ledger, weight: usize)
    ensures
        ledger.after(Step::Spawn(weight)).admits(Step::Release(ledger.live.len())),
        ledger.after(Step::Spawn(weight)).after(Step::Release(ledger.live.len())) == ledger,
{
    let m = modulus();
    let grown = ledger.after(Step::Spawn(weight));
    let back = grown.after(Step::Release(ledger.live.len()));
    assert(grown.live[ledger.live.len() as int] == weight);
    assert(back.live =~= ledger.live);
    lemma_sub_mod_noop(ledger.count + weight, weight as int, m);
    lemma_small_mod(weight as nat, m as nat);
    lemma_small_mod(ledger.count as nat, m as nat);
    assert(back.count == ledger.count);
}

/// One step keeps the cell in balance with the live counters.
pub proof fn lemma_step_keeps_balance(ledger: Ledger, step: Step)
    requires
        ledger.balanced(),
        ledger.admits(step),
    ensures
        ledger.after(step).balanced(),
{
    let m = modulus();
    let sum = total(ledger.live) as int;
    match step {
        Step::Spawn(weight) => {
            lemma_total_push(ledger.live, weight);
            lemma_add_mod_noop(sum, weight as int, m);
            lemma_small_mod(weight as nat, m as nat);
        },
        Step::Clone(at) => {
            let weight = ledger.live[at as int];
            lemma_total_push(ledger.live, weight);
            lemma_add_mod_noop(sum, weight as int, m);
            lemma_small_mod(weight as nat, m as nat);
        },
        Step::Look => {},
        Step::Release(at) => {
            let weight = ledger.live[at as int];
            lemma_total_remove(ledger.live, at as int);
            lemma_sub_mod_noop(sum, weight as int, m);
            lemma_small_mod(weight as nat, m as nat);
        },
    }
}

/// Any sequence of steps keeps the cell in balance.
pub proof fn lemma_steps_keep_balance(ledger: Ledger, steps: Seq<Step>)
    requires
        ledger.balanced(),
        ledger.admits_all(steps),
    ensures
        ledger.after_all(steps).balanced(),
    decreases steps.len(),
{
    if steps.len() > 0 {
        lemma_step_keeps_balance(ledger, steps[0]);
        lemma_steps_keep_balance(ledger.after(steps[0]), steps.subrange(1, steps.len() as int));
    }
}

/// After any sequence of operations on a fresh cell, the cell shows the sum
/// of the weights of the counters that are alive, reduced modulo the number
/// of values it can hold.
pub proof fn lemma_count_is_wrapped_sum(steps: Seq<Step>)
    requires
        Ledger::fresh().admits_all(steps),
    ensures
        Ledger::fresh().after_all(steps).count == wrapped(
            total(Ledger::fresh().after_all(steps).live) as int,
        ),
{
    assert(total(Ledger::fresh().live) == 0);
    lemma_small_mod(0, modulus() as nat);
    lemma_steps_keep_balance(Ledger::fresh(), steps);
}

/// After any sequence of operations on a fresh cell, the cell shows
/// exactly the sum of the weights of the counters that are alive, provided
/// that sum fits the cell at that point. Sums that did not fit earlier in
/// the sequence do no lasting harm.
pub proof fn lemma_count_is_sum_of_live_weights(steps: Seq<Step>)
    requires
        Ledger::fresh().admits_all(steps),
        total(Ledger::fresh().after_all(steps).live) <= usize::MAX,
    ensures
        Ledger::fresh().after_all(steps).count == total(Ledger::fresh().after_all(steps).live),
{
    lemma_count_is_wrapped_sum(steps);
    lemma_wrapped_small(total(Ledger::fresh().after_all(steps).live) as int);
}

/// The same in terms of the handles: where the counters alive on a cell,
/// oldest first, are `counters`, the cell shows the sum of their weights,
/// provided the sum fits.
pub proof fn lemma_count_is_sum_over_counters(steps: Seq<Step>, counters: Seq<Counter>)
    requires
        Ledger::fresh().admits_all(steps),
        Ledger::fresh().after_all(steps).live == weights(counters),
        total(weights(counters)) <= usize::MAX,
    ensures
        Ledger::fresh().after_all(steps).count == total(weights(counters)),
{
    lemma_count_is_sum_of_live_weights(steps);
}

/// Once every counter has been dropped the cell is back at 0, whatever
/// happened before.
pub proof fn lemma_count_is_zero_when_none_live(steps: Seq<Step>)
    requires
        Ledger::fresh().admits_all(steps),
        Ledger::fresh().after_all(steps).live.len() == 0,
    ensures
        Ledger::fresh().after_all(steps).count == 0,
{
    lemma_count_is_sum_of_live_weights(steps);
}

} // verus!
