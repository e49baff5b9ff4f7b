//! Debounced pushbutton handling.  The pin is sampled on a polling
//! interval; a level counts as reached only when two reads a debounce
//! interval apart agree, and an optional deadline bounds the wait.  The
//! waiting and counting decisions are state machines here; reading the
//! pin and sleeping between polls stay outside the crate.

use crate::state_machine::UPDATE_DELAY_MS;
use vstd::prelude::*;

verus! {

pub const DEBOUNCE_MS: u32 = 10;

#[derive(Clone, Copy, PartialEq, Eq, Structural, Debug)]
pub enum ButtonState {
    Pressed,
    Released,
}

/// The level that a waited-for state reads at the pin: pressed pulls the
/// pull-up input low.
pub open spec fn state_matches(state: ButtonState, pin_low: bool) -> bool {
    match state {
        ButtonState::Pressed => pin_low,
        ButtonState::Released => !pin_low,
    }
}

/// Whether a wait's deadline has passed at `now_ms`.
pub open spec fn wait_expired(w: ButtonWait, now_ms: u32) -> bool {
    w.end_time_ms is Some && now_ms > w.end_time_ms->0
}

/// Whether one sample ends the wait, and with what outcome: a confirming
/// sample during the debounce interval finishes true, and a sample past
/// the deadline (outside a debounce) finishes false.
pub open spec fn wait_finishes(w: ButtonWait, pin_low: bool, now_ms: u32) -> Option<bool> {
    if w.debouncing && state_matches(w.target, pin_low) {
        Some(true)
    } else if !w.debouncing && wait_expired(w, now_ms) {
        Some(false)
    } else {
        None
    }
}

/// How long a wait that did not finish asks to sleep: nothing after a
/// failed debounce, the debounce interval after a first match, and the
/// coarse polling interval otherwise.
pub open spec fn wait_continue_delay(w: ButtonWait, pin_low: bool) -> u32 {
    if w.debouncing {
        0
    } else if state_matches(w.target, pin_low) {
        DEBOUNCE_MS
    } else {
        UPDATE_DELAY_MS
    }
}

/// Whether the next sample opens a debounce interval.
pub open spec fn wait_will_debounce(w: ButtonWait, pin_low: bool, now_ms: u32) -> bool {
    !w.debouncing && !wait_expired(w, now_ms) && state_matches(w.target, pin_low)
}

/// What one step of a waiting machine asks of its caller: sample the pin
/// again after so many milliseconds, or stop with the wait's outcome.
#[derive(Clone, Copy, PartialEq, Eq, Structural, Debug)]
pub enum WaitStep {
    Continue(u32),
    Finished(bool),
}

/// Waiting for the pin to hold a level: one sample per step, a
/// confirmation sample a debounce interval after a first match, and a
/// false outcome once the deadline has passed.
pub struct ButtonWait {
    pub target: ButtonState,
    pub end_time_ms: Option<u32>,
    pub debouncing: bool,
}

impl ButtonWait {
    pub fn new(target: ButtonState, end_time_ms: Option<u32>) -> (w: ButtonWait)
        ensures
            w.target == target,
            w.end_time_ms == end_time_ms,
            !w.debouncing,
    {
        ButtonWait { target, end_time_ms, debouncing: false }
    }

    /// Feed one pin sample taken at `now_ms`.  The wait finishes true only
    /// on a confirming sample a debounce interval after a first match, and
    /// finishes false only once the deadline has passed.
    pub fn step(&mut self, pin_low: bool, now_ms: u32) -> (r: WaitStep)
        ensures
            final(self).target == old(self).target,
            final(self).end_time_ms == old(self).end_time_ms,
            wait_finishes(*old(self), pin_low, now_ms) matches Some(t) ==> r
                == WaitStep::Finished(t) && !final(self).debouncing,
            wait_finishes(*old(self), pin_low, now_ms) is None ==> r == WaitStep::Continue(
                wait_continue_delay(*old(self), pin_low),
            ) && final(self).debouncing == wait_will_debounce(*old(self), pin_low, now_ms),
    {
        let matches_target = match self.target {
            ButtonState::Pressed => pin_low,
            ButtonState::Released => !pin_low,
        };
        if self.debouncing {
            self.debouncing = false;
            if matches_target {
                return WaitStep::Finished(true);
            }
            return WaitStep::Continue(0);
        }
        let expired = match self.end_time_ms {
            Some(end) => now_ms > end,
            None => false,
        };
        if expired {
            return WaitStep::Finished(false);
        }
        if matches_target {
            self.debouncing = true;
            WaitStep::Continue(DEBOUNCE_MS)
        } else {
            WaitStep::Continue(UPDATE_DELAY_MS)
        }
    }
}

#[derive(Clone, Copy, PartialEq, Eq, Structural, Debug)]
pub enum PressPhase {
    Press,
    Release,
}

/// Waiting for one complete press: the pin held low, then released, each
/// debounced; true only when both waits triggered before the deadline.
pub struct PressWait {
    pub phase: PressPhase,
    pub wait: ButtonWait,
    pub end_time_ms: Option<u32>,
    pub press_seen: bool,
}

impl PressWait {
    pub open spec fn wf(self) -> bool {
        &&& self.wait.end_time_ms == self.end_time_ms
        &&& self.wait.target == (match self.phase {
            PressPhase::Press => ButtonState::Pressed,
            PressPhase::Release => ButtonState::Released,
        })
    }

    pub fn new(end_time_ms: Option<u32>) -> (w: PressWait)
        ensures
            w.wf(),
            w.phase == PressPhase::Press,
            w.end_time_ms == end_time_ms,
            !w.wait.debouncing,
            !w.press_seen,
    {
        PressWait {
            phase: PressPhase::Press,
            wait: ButtonWait::new(ButtonState::Pressed, end_time_ms),
            end_time_ms,
            press_seen: false,
        }
    }

    /// Feed one pin sample.  A finished press wait moves on to the release
    /// wait; the machine finishes true only when both waits did.
    pub fn step(&mut self, pin_low: bool, now_ms: u32) -> (r: WaitStep)
        requires
            old(self).wf(),
        ensures
            final(self).wf(),
            final(self).end_time_ms == old(self).end_time_ms,
            ({
                let fin = wait_finishes(old(self).wait, pin_low, now_ms);
                &&& (fin is None ==> {
                    &&& r == WaitStep::Continue(wait_continue_delay(old(self).wait, pin_low))
                    &&& final(self).phase == old(self).phase
                    &&& final(self).press_seen == old(self).press_seen
                    &&& final(self).wait.debouncing == wait_will_debounce(
                        old(self).wait,
                        pin_low,
                        now_ms,
                    )
                })
                &&& (fin is Some && old(self).phase == PressPhase::Press ==> {
                    &&& r == WaitStep::Continue(0)
                    &&& final(self).phase == PressPhase::Release
                    &&& final(self).press_seen == fin->0
                    &&& !final(self).wait.debouncing
                })
                &&& (fin is Some && old(self).phase == PressPhase::Release ==> {
                    &&& r == WaitStep::Finished(fin->0 && old(self).press_seen)
                    &&& final(self).phase == PressPhase::Release
                })
            }),
    {
        let inner = self.wait.step(pin_low, now_ms);
        match inner {
            WaitStep::Continue(d) => WaitStep::Continue(d),
            WaitStep::Finished(triggered) => {
                match self.phase {
                    PressPhase::Press => {
                        self.phase = PressPhase::Release;
                        self.wait = ButtonWait::new(ButtonState::Released, self.end_time_ms);
                        self.press_seen = triggered;
                        WaitStep::Continue(0)
                    },
                    PressPhase::Release => WaitStep::Finished(triggered && self.press_seen),
                }
            },
        }
    }
}

/// What one step of the press counter asks of its caller: sample again
/// after so many milliseconds, or stop with the number of complete
/// press-release cycles seen before the deadline.
#[derive(Clone, Copy, PartialEq, Eq, Structural, Debug)]
pub enum CounterStep {
    Wait(u32),
    Done(u8),
}

/// Counting complete press-release cycles until a deadline.
pub struct PressCounter {
    pub end_time_ms: u32,
    pub count: u8,
    pub wait: PressWait,
}

impl PressCounter {
    pub open spec fn wf(self) -> bool {
        &&& self.wait.wf()
        &&& self.wait.end_time_ms == Some(self.end_time_ms)
    }

    pub fn new(end_time_ms: u32) -> (c: PressCounter)
        ensures
            c.wf(),
            c.end_time_ms == end_time_ms,
            c.count == 0,
            c.wait.phase == PressPhase::Press,
            !c.wait.press_seen,
            !c.wait.wait.debouncing,
    {
        PressCounter { end_time_ms, count: 0, wait: PressWait::new(Some(end_time_ms)) }
    }

    /// Feed one pin sample.  A completed press raises the count; once the
    /// deadline has passed the count so far is the answer.
    pub fn step(&mut self, pin_low: bool, now_ms: u32) -> (r: CounterStep)
        requires
            old(self).wf(),
            old(self).count < u8::MAX,
        ensures
            final(self).wf(),
            final(self).end_time_ms == old(self).end_time_ms,
            ({
                let fin = wait_finishes(old(self).wait.wait, pin_low, now_ms);
                let completes = old(self).wait.phase == PressPhase::Release && fin is Some;
                let counted = completes && fin->0 && old(self).wait.press_seen;
                &&& final(self).count == old(self).count + (if counted {
                    1int
                } else {
                    0int
                })
                &&& (!completes && fin is None ==> r == CounterStep::Wait(
                    wait_continue_delay(old(self).wait.wait, pin_low),
                ))
                &&& (!completes && fin is Some ==> r == CounterStep::Wait(0))
                &&& (completes && now_ms <= old(self).end_time_ms ==> {
                    &&& r == CounterStep::Wait(0)
                    &&& final(self).wait.phase == PressPhase::Press
                    &&& !final(self).wait.press_seen
                    &&& !final(self).wait.wait.debouncing
                })
                &&& (completes && now_ms > old(self).end_time_ms ==> r == CounterStep::Done(
                    final(self).count,
                ))
            }),
    {
        match self.wait.step(pin_low, now_ms) {
            WaitStep::Continue(d) => CounterStep::Wait(d),
            WaitStep::Finished(triggered) => {
                if triggered {
                    self.count = self.count + 1;
                }
                if now_ms <= self.end_time_ms {
                    self.wait = PressWait::new(Some(self.end_time_ms));
                    CounterStep::Wait(0)
                } else {
                    CounterStep::Done(self.count)
                }
            },
        }
    }
}

} // verus!
