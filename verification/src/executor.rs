//! The cooperative task executor: a fixed bank of task slots plus one
//! ready bit per slot.  Futures themselves live outside this crate; the
//! executor's bookkeeping decides which slot may be polled, and a slot is
//! offered for polling only while its ready bit is set.  The bit is cleared
//! before the poll, so a wake issued from inside the poll is kept for the
//! next sweep.

use vstd::prelude::*;

verus! {

pub const NTASKS: usize = 8;

/// Handle to one installed task: the slot index that its waker carries.
pub struct Driver {
    pub id: usize,
}

pub struct Executor {
    drivers_len: usize,
    work_queue: Vec<bool>,
}

impl Executor {
    /// Ready bit of every slot.
    pub closed spec fn ready(self) -> Seq<bool> {
        self.work_queue@
    }

    /// Number of installed tasks.
    pub closed spec fn task_count(self) -> nat {
        self.drivers_len as nat
    }

    pub open spec fn wf(self) -> bool {
        &&& self.ready().len() == NTASKS
        &&& self.task_count() <= NTASKS
    }

    pub fn new() -> (e: Executor)
        ensures
            e.wf(),
            e.task_count() == 0,
            forall|i: int| 0 <= i < NTASKS ==> !e.ready()[i],
    {
        let mut work_queue: Vec<bool> = Vec::new();
        let mut i: usize = 0;
        while i < NTASKS
            invariant
                i <= NTASKS,
                work_queue@.len() == i,
                forall|j: int| 0 <= j < i ==> !work_queue@[j],
            decreases NTASKS - i,
        {
            work_queue.push(false);
            i = i + 1;
        }
        Executor { drivers_len: 0, work_queue }
    }

    /// Install a task in the next free slot; it is polled once `run`'s
    /// first sweep marks every installed slot ready.  Capacity exhaustion
    /// is fatal in the firmware, so callers must show a slot is free.
    pub fn add_async_driver(&mut self) -> (d: Driver)
        requires
            old(self).wf(),
            old(self).task_count() < NTASKS,
        ensures
            final(self).wf(),
            d.id == old(self).task_count(),
            final(self).task_count() == old(self).task_count() + 1,
            final(self).ready() == old(self).ready(),
    {
        let id = self.drivers_len;
        self.drivers_len = self.drivers_len + 1;
        Driver { id }
    }

    /// Mark a slot as needing a poll; this is what a waker does.
    pub fn add_work(&mut self, driver_id: usize)
        requires
            old(self).wf(),
            driver_id < NTASKS,
        ensures
            final(self).wf(),
            final(self).ready() == old(self).ready().update(driver_id as int, true),
            final(self).task_count() == old(self).task_count(),
    {
        self.work_queue[driver_id] = true;
    }

    /// Mark every installed task ready, as the first sweep of the poll
    /// loop does.
    pub fn queue_all_work(&mut self)
        requires
            old(self).wf(),
        ensures
            final(self).wf(),
            final(self).task_count() == old(self).task_count(),
            forall|i: int|
                0 <= i < NTASKS ==> final(self).ready()[i] == (i < old(self).task_count()
                    || old(self).ready()[i]),
    {
        let count = self.drivers_len;
        let mut id: usize = 0;
        while id < count
            invariant
                self.wf(),
                count == self.task_count(),
                self.task_count() == old(self).task_count(),
                id <= count,
                forall|j: int|
                    0 <= j < NTASKS ==> self.ready()[j] == (j < id || old(self).ready()[j]),
            decreases count - id,
        {
            self.add_work(id);
            id = id + 1;
        }
    }

    /// Decide whether slot `driver_id` may be polled in this sweep: it may
    /// if and only if its ready bit was set, and the bit is cleared before
    /// the poll so that a wake from inside the poll is not lost.
    pub fn begin_poll(&mut self, driver_id: usize) -> (do_poll: bool)
        requires
            old(self).wf(),
            driver_id < NTASKS,
        ensures
            final(self).wf(),
            do_poll == old(self).ready()[driver_id as int],
            final(self).ready() == old(self).ready().update(driver_id as int, false),
            final(self).task_count() == old(self).task_count(),
    {
        let was_ready = self.work_queue[driver_id];
        self.work_queue[driver_id] = false;
        was_ready
    }

    /// Number of installed tasks, for the poll loop's sweep bound.
    pub fn driver_count(&self) -> (n: usize)
        ensures
            n == self.task_count(),
    {
        self.drivers_len
    }
}

} // verus!
