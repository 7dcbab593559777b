//! A thread-safe, size-weighted count of live handles.
//!
//! A [`Counter`] adds its weight to a shared count cell when it is made or
//! cloned and takes it away again when it is dropped. A [`WeakCounter`]
//! looks at the same cell without contributing to it. A [`NotifyHandle`]
//! lets one thread sleep until the count satisfies a predicate.
//!
//! The cell wraps around on overflow and underflow; [`ledger`] is a model
//! of what that means for the value a reader sees, and [`wakeup`] a model
//! of the order in which a waiter and the counters touch the flag, the
//! cell and the channel.

pub mod counter;
pub mod ledger;
pub mod notify;
pub mod primitives;
pub mod wakeup;

pub use counter::{Counter, CounterBuilder, WeakCounter, WeakCounterBuilder};
pub use notify::{NotifyError, NotifyHandle, NotifyTimeoutError};
