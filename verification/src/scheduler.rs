//! The cooperative task scheduler: a fixed set of long-running tasks on one
//! execution context, with no preemption and no priorities. A task is
//! registered before the scheduler starts running and is never cancelled;
//! it gives up control only at an explicit suspension point, and when
//! several tasks are ready at once, the first registered resumes first.
//!
//! The scheduler holds the bookkeeping only — which tasks exist and which
//! are ready. What a task does between two suspension points lives in the
//! task's own state machine.

use vstd::prelude::*;

verus! {

/// The task bookkeeping of the scheduler. Task identities are registration
/// indices, so registration order is resume order.
pub struct Scheduler {
    /// Readiness per task, indexed by registration order.
    ready: Vec<bool>,
    /// Whether the scheduler has started running tasks.
    running: bool,
}

impl Scheduler {
    /// Readiness per task, indexed by registration order.
    pub closed spec fn ready_spec(self) -> Seq<bool> {
        self.ready@
    }

    /// Whether the scheduler has started running tasks.
    pub closed spec fn running_spec(self) -> bool {
        self.running
    }

    /// How many tasks are registered.
    pub open spec fn task_count(self) -> nat {
        self.ready_spec().len()
    }

    /// A fresh scheduler: no tasks, not yet running.
    pub fn new() -> (s: Scheduler)
        ensures
            s.task_count() == 0,
            !s.running_spec(),
    {
        Scheduler { ready: Vec::new(), running: false }
    }

    /// Registers one task and returns its identity. Tasks can only be
    /// registered before the scheduler starts; the fixed set never grows
    /// afterwards. A new task is ready to run.
    pub fn spawn(&mut self) -> (id: usize)
        requires
            !old(self).running_spec(),
            old(self).task_count() < usize::MAX,
        ensures
            !final(self).running_spec(),
            id == old(self).task_count(),
            final(self).ready_spec() == old(self).ready_spec().push(true),
    {
        let id = self.ready.len();
        self.ready.push(true);
        id
    }

    /// Starts running: from here on the task set is fixed.
    pub fn start(&mut self)
        ensures
            final(self).running_spec(),
            final(self).ready_spec() == old(self).ready_spec(),
    {
        self.running = true;
    }

    /// The task that runs next: the first-registered task among the ready
    /// ones, or none when every task is suspended. The scheduler never
    /// preempts: the chosen task keeps running until it suspends itself.
    pub fn next_ready(&self) -> (r: Option<usize>)
        ensures
            match r {
                Some(id) => {
                    &&& id < self.task_count()
                    &&& self.ready_spec()[id as int]
                    &&& forall|j: int| 0 <= j < id ==> !self.ready_spec()[j]
                },
                None => forall|j: int| 0 <= j < self.task_count() ==> !self.ready_spec()[j],
            },
    {
        let mut i: usize = 0;
        while i < self.ready.len()
            invariant
                i <= self.ready@.len(),
                forall|j: int| 0 <= j < i ==> !self.ready@[j],
            decreases self.ready@.len() - i,
        {
            if self.ready[i] {
                return Some(i);
            }
            i = i + 1;
        }
        None
    }

    /// Marks a task suspended: it reached an explicit suspension point
    /// (a timer, I/O readiness, or a signal wait).
    pub fn suspend(&mut self, id: usize)
        requires
            id < old(self).task_count(),
        ensures
            final(self).ready_spec() == old(self).ready_spec().update(id as int, false),
            final(self).running_spec() == old(self).running_spec(),
    {
        self.ready.set(id, false);
    }

    /// Marks a task ready: what it was suspended on has happened.
    pub fn wake(&mut self, id: usize)
        requires
            id < old(self).task_count(),
        ensures
            final(self).ready_spec() == old(self).ready_spec().update(id as int, true),
            final(self).running_spec() == old(self).running_spec(),
    {
        self.ready.set(id, true);
    }
}

} // verus!
