//! The scheduler's record of running check loops: one task handle per
//! monitor id. Spawning, aborting and locking the tasks happen in the
//! program around this library; it keeps its handles here.

use std::collections::HashMap;

use vstd::prelude::*;

verus! {

broadcast use vstd::std_specs::hash::group_hash_axioms;

/// The running check loop of each monitor, by monitor id.
pub struct TaskRegistry<H> {
    tasks: HashMap<i64, H>,
}

impl<H> View for TaskRegistry<H> {
    type V = Map<i64, H>;

    closed spec fn view(&self) -> Map<i64, H> {
        self.tasks@
    }
}

impl<H> TaskRegistry<H> {
    /// A registry with no task.
    pub fn new() -> (r: Self)
        ensures
            r@ == Map::<i64, H>::empty(),
    {
        TaskRegistry { tasks: HashMap::new() }
    }

    /// Records `handle` as the check loop of monitor `id`, and gives back the
    /// handle it replaces, if any.
    pub fn register(&mut self, id: i64, handle: H) -> (prev: Option<H>)
        ensures
            final(self)@ == old(self)@.insert(id, handle),
            prev == (if old(self)@.contains_key(id) {
                Some(old(self)@[id])
            } else {
                None
            }),
    {
        self.tasks.insert(id, handle)
    }

    /// Forgets the check loop of monitor `id` and gives back its handle, so
    /// that the caller can abort it.
    pub fn take(&mut self, id: i64) -> (r: Option<H>)
        ensures
            final(self)@ == old(self)@.remove(id),
            r == (if old(self)@.contains_key(id) {
                Some(old(self)@[id])
            } else {
                None
            }),
    {
        self.tasks.remove(&id)
    }

    /// Replaces the check loop of monitor `id` by `handle`: afterwards the
    /// monitor has exactly that loop, and the handle of the loop it had
    /// before, if any, is given back to be aborted.
    pub fn replace(&mut self, id: i64, handle: H) -> (r: Option<H>)
        ensures
            final(self)@ == old(self)@.insert(id, handle),
            r == (if old(self)@.contains_key(id) {
                Some(old(self)@[id])
            } else {
                None
            }),
    {
        let stopped = self.take(id);
        let displaced = self.register(id, handle);
        assert(displaced is None);
        assert(self@ =~= old(self)@.insert(id, handle));
        stopped
    }

    /// Whether monitor `id` has a check loop.
    pub fn contains(&self, id: i64) -> (r: bool)
        ensures
            r == self@.contains_key(id),
    {
        self.tasks.contains_key(&id)
    }
}

} // verus!
