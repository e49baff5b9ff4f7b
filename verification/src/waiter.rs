//! A delay future.  Built with a duration, it computes its trigger time
//! from the millisecond clock; the first poll before the trigger registers
//! a timed waker, later polls wait for it, and no poll ever answers ready
//! before the trigger time has arrived.  The arithmetic is modular, so a
//! waiter built within 2^31 ms of the clock's 49-day wrap is still never
//! ready early; a deadline that lands past the wrap is registered only
//! once the clock has wrapped too, since the timed-waker queue orders
//! plain deadlines.

use crate::executor::NTASKS;
use crate::minarray::ARRAY_SIZE;
use crate::timers::TimerState;
use vstd::prelude::*;

verus! {

/// What one poll of a suspendable operation answers.
#[derive(Clone, Copy, PartialEq, Eq, Structural, Debug)]
pub enum PollResult {
    Ready,
    Pending,
}

/// The deadline has arrived when the clock, read modulo 2^32, stands at
/// the trigger time or less than 2^31 ms past it.
pub open spec fn deadline_reached(now_ms: u32, trigger_time_ms: u32) -> bool {
    vstd::wrapping::u32_specs::wrapping_sub(now_ms, trigger_time_ms) < 0x8000_0000
}

pub struct Waiter {
    pub trigger_time_ms: u32,
    pub interrupt_set: bool,
}

impl Waiter {
    /// A waiter due `wait_ms` milliseconds after `now_ms`, the clock read
    /// at construction.  Durations stay below 2^31 so that the modular
    /// deadline test is unambiguous.
    pub fn new(wait_ms: u32, now_ms: u32) -> (w: Waiter)
        requires
            wait_ms < 0x8000_0000,
        ensures
            w.trigger_time_ms == vstd::wrapping::u32_specs::wrapping_add(now_ms, wait_ms),
            !w.interrupt_set,
    {
        Waiter { trigger_time_ms: now_ms.wrapping_add(wait_ms), interrupt_set: false }
    }

    /// One poll against the clock: ready exactly when the trigger time has
    /// arrived, never before.  The first pending poll registers `waker`
    /// with the timer, at most one registration per waiter; a deadline
    /// beyond the clock's wrap waits for the wrap before registering.
    pub fn poll(&mut self, timer: &mut TimerState, waker: usize) -> (r: PollResult)
        requires
            old(timer).wf(),
            waker < NTASKS,
            !old(self).interrupt_set && !deadline_reached(
                old(timer).elapsed_ms,
                old(self).trigger_time_ms,
            ) ==> old(timer).waiters@.len() < ARRAY_SIZE,
        ensures
            final(timer).wf(),
            final(self).trigger_time_ms == old(self).trigger_time_ms,
            final(timer).elapsed_ms == old(timer).elapsed_ms,
            final(timer).timer0_ovf_count == old(timer).timer0_ovf_count,
            final(timer).ocr0a == old(timer).ocr0a,
            // ready exactly when the deadline has arrived
            r == PollResult::Ready <==> deadline_reached(
                old(timer).elapsed_ms,
                old(self).trigger_time_ms,
            ),
            r == PollResult::Ready ==> {
                &&& !final(self).interrupt_set
                &&& final(timer).waiters@ == old(timer).waiters@
            },
            r == PollResult::Pending && !old(self).interrupt_set && old(self).trigger_time_ms > old(
                timer,
            ).elapsed_ms ==> {
                &&& final(timer).waiters@ == old(timer).waiters@.push(
                    (old(self).trigger_time_ms, waker),
                )
                &&& final(self).interrupt_set
            },
            r == PollResult::Pending && !old(self).interrupt_set && old(self).trigger_time_ms
                <= old(timer).elapsed_ms ==> {
                &&& final(timer).waiters@ == old(timer).waiters@
                &&& !final(self).interrupt_set
            },
            r == PollResult::Pending && old(self).interrupt_set ==> {
                &&& final(timer).waiters@ == old(timer).waiters@
                &&& final(self).interrupt_set
            },
    {
        let now = timer.millis();
        if now.wrapping_sub(self.trigger_time_ms) < 0x8000_0000 {
            self.interrupt_set = false;
            return PollResult::Ready;
        } else if !self.interrupt_set && self.trigger_time_ms > now {
            timer.register_timed_waker(self.trigger_time_ms, waker);
            self.interrupt_set = true;
        }
        PollResult::Pending
    }
}

} // verus!
