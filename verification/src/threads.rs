//! Completion tracking for the background write pool.
//!
//! Every frame save runs on its own background task.  A shared counter is
//! incremented exactly once when a task is spawned and decremented exactly
//! once when it finishes, success or failure, so a caller can wait for all
//! pending writes by watching the counter fall to zero.

use vstd::prelude::*;

verus! {

/// The count of in-flight background write tasks, together with the ghost
/// history it summarises: how many tasks were ever spawned and how many have
/// finished.
pub struct ExportThreads {
    /// Number of write tasks spawned and not yet finished.
    pub count: usize,
    /// Total write tasks ever spawned.
    pub spawned: Ghost<nat>,
    /// Total write tasks that have finished, successfully or not.
    pub completed: Ghost<nat>,
}

impl ExportThreads {
    /// The counter equals the spawned tasks not yet completed: no increment
    /// and no decrement is ever leaked.
    pub open spec fn wf(self) -> bool {
        self.completed@ <= self.spawned@ && self.count == self.spawned@ - self.completed@
    }

    /// A fresh pool tracker with no in-flight writes.
    pub fn new() -> (r: ExportThreads)
        ensures
            r.wf(),
            r.count == 0,
            r.spawned@ == 0,
            r.completed@ == 0,
    {
        ExportThreads { count: 0, spawned: Ghost(0), completed: Ghost(0) }
    }

    /// Records that one write task was handed to the pool.
    pub fn begin_write(&mut self)
        requires
            old(self).wf(),
            old(self).count < usize::MAX,
        ensures
            final(self).wf(),
            final(self).count == old(self).count + 1,
            final(self).spawned@ == old(self).spawned@ + 1,
            final(self).completed@ == old(self).completed@,
    {
        self.count = self.count + 1;
        self.spawned = Ghost(self.spawned@ + 1);
    }

    /// Records that one write task finished, whether its write succeeded or
    /// failed: the decrement happens on every exit path of a task.
    pub fn end_write(&mut self)
        requires
            old(self).wf(),
            old(self).count > 0,
        ensures
            final(self).wf(),
            final(self).count == old(self).count - 1,
            final(self).spawned@ == old(self).spawned@,
            final(self).completed@ == old(self).completed@ + 1,
    {
        self.count = self.count - 1;
        self.completed = Ghost(self.completed@ + 1);
    }

    /// True exactly when no write task is in flight; a waiter that polls this
    /// returns as soon as it holds, so a wait after all tasks have finished
    /// returns at once.
    pub fn is_idle(&self) -> (r: bool)
        ensures
            r == (self.count == 0),
            self.wf() ==> (r <==> self.spawned@ == self.completed@),
    {
        self.count == 0
    }
}

/// Once every spawned write has finished, the pool is idle: a caller that
/// waits for the counter to reach zero after all tasks completed is never
/// blocked, because no increment outlives its task.
pub proof fn lemma_idle_after_all_writes_finish(pool: ExportThreads)
    requires
        pool.wf(),
        pool.spawned@ == pool.completed@,
    ensures
        pool.count == 0,
{
}

} // verus!
