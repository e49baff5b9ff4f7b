//! A deadline paired with the waker it fires: the entry type of the
//! timed-waker queue.  Wakers carry the slot index of their task, never a
//! reference to its state, so an interrupt handler can wake a task without
//! touching the executor's storage.  Entries are ordered by their deadline
//! alone.

use vstd::prelude::*;

verus! {

pub struct TimedWaker {
    pub trigger_time_ms: u32,
    pub waker: usize,
}

impl PartialEq for TimedWaker {
    fn eq(&self, other: &Self) -> (r: bool)
        ensures
            r == (self.trigger_time_ms == other.trigger_time_ms),
    {
        self.trigger_time_ms == other.trigger_time_ms
    }
}

impl Eq for TimedWaker {

}

impl vstd::std_specs::cmp::PartialEqSpecImpl for TimedWaker {
    open spec fn obeys_eq_spec() -> bool {
        true
    }

    open spec fn eq_spec(&self, other: &TimedWaker) -> bool {
        self.trigger_time_ms == other.trigger_time_ms
    }
}

impl PartialOrd for TimedWaker {
    fn partial_cmp(&self, other: &Self) -> (r: Option<core::cmp::Ordering>)
        ensures
            r == Some(
                if self.trigger_time_ms < other.trigger_time_ms {
                    core::cmp::Ordering::Less
                } else if self.trigger_time_ms == other.trigger_time_ms {
                    core::cmp::Ordering::Equal
                } else {
                    core::cmp::Ordering::Greater
                },
            ),
    {
        Some(self.trigger_time_ms.cmp(&other.trigger_time_ms))
    }
}

impl vstd::std_specs::cmp::PartialOrdSpecImpl for TimedWaker {
    open spec fn obeys_partial_cmp_spec() -> bool {
        true
    }

    open spec fn partial_cmp_spec(&self, other: &TimedWaker) -> Option<core::cmp::Ordering> {
        if self.trigger_time_ms < other.trigger_time_ms {
            Some(core::cmp::Ordering::Less)
        } else if self.trigger_time_ms == other.trigger_time_ms {
            Some(core::cmp::Ordering::Equal)
        } else {
            Some(core::cmp::Ordering::Greater)
        }
    }
}

} // verus!
