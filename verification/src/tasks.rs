//! Bookkeeping for background tasks.
//!
//! The repository spawns background jobs (network connection loops) that
//! must be cancelled en masse on shutdown.  The registry records each
//! spawned task and hands the whole batch back exactly once, so shutdown
//! can abort every task without leaking any; it is decoupled from any one
//! transport, so any kind of task handle can be registered.

use vstd::prelude::*;

verus! {

/// A registry of background task handles, in registration order.
pub struct TaskRegistry<T> {
    tasks: Vec<T>,
}

impl<T> TaskRegistry<T> {
    /// The registered task handles, oldest first.
    pub closed spec fn tasks_spec(self) -> Seq<T> {
        self.tasks@
    }

    /// An empty registry.
    pub fn new() -> (r: TaskRegistry<T>)
        ensures
            r.tasks_spec() == Seq::<T>::empty(),
    {
        TaskRegistry { tasks: Vec::new() }
    }

    /// How many tasks are currently registered.
    pub fn len(&self) -> (n: usize)
        ensures
            n == self.tasks_spec().len(),
    {
        self.tasks.len()
    }

    /// Records one spawned task for later cancellation.
    pub fn register(&mut self, t: T)
        ensures
            final(self).tasks_spec() == old(self).tasks_spec().push(t),
    {
        self.tasks.push(t);
    }

    /// Removes and returns every registered task, in registration
    /// order, leaving the registry empty.  Draining an already empty
    /// registry returns nothing and is not an error, so shutdown can
    /// run any number of times.
    pub fn drain_all(&mut self) -> (r: Vec<T>)
        ensures
            final(self).tasks_spec() == Seq::<T>::empty(),
            r@ == old(self).tasks_spec(),
    {
        let mut v: Vec<T> = Vec::new();
        core::mem::swap(&mut v, &mut self.tasks);
        v
    }
}

} // verus!
