//! A self-contained two-state drive plan used on bring-up runs, beside
//! the full mode machine: exploration shuttles back and forth, reversing
//! direction once a second on the microsecond clock, and a detected
//! boundary stops both motors.  Each update answers with the speed to
//! command on both motors, if any; driving the pins stays outside.

use vstd::prelude::*;

verus! {

/// Microseconds between two direction reversals of the shuttling plan.
pub const REVERSAL_PERIOD_US: u32 = 1_000_000;

/// Shuttling speed, in thousandths of full scale.
pub const SHUTTLE_SPEED: i16 = 500;

#[derive(Clone, Copy, PartialEq, Eq, Structural, Debug)]
pub enum State {
    Exploration(ExplorationState),
    BoundaryDetected(BoundaryDetectedState),
}

/// What one shuttling update leaves behind and answers: at or past the
/// reversal time the speed flips and is commanded, otherwise nothing
/// changes.
pub open spec fn exploration_update_spec(s: ExplorationState, current_time_us: u32) -> (
    ExplorationState,
    (Option<State>, Option<i16>),
) {
    if current_time_us >= s.next_update_time_us {
        let flipped = ExplorationState {
            next_update_time_us: (current_time_us + REVERSAL_PERIOD_US) as u32,
            speed: (0 - s.speed) as i16,
        };
        (flipped, (None, Some(flipped.speed)))
    } else {
        (s, (None, None))
    }
}

/// A drive plan state: each update may hand back a next state and the
/// speed to command on both motors.
pub trait StateObject: Sized {
    /// Whether an update at this time is within the plan's clock range.
    spec fn ready_for(&self, current_time_us: u32) -> bool;

    /// The plan's transition relation: the state an update leaves behind
    /// and what it answers.
    spec fn update_spec(&self, current_time_us: u32) -> (Self, (Option<State>, Option<i16>));

    fn update(&mut self, current_time_us: u32) -> (r: (Option<State>, Option<i16>))
        requires
            old(self).ready_for(current_time_us),
        ensures
            (*final(self), r) == old(self).update_spec(current_time_us),
    ;
}

impl StateObject for State {
    open spec fn ready_for(&self, current_time_us: u32) -> bool {
        match self {
            State::Exploration(s) => s.wf() && current_time_us + REVERSAL_PERIOD_US <= u32::MAX,
            State::BoundaryDetected(_) => true,
        }
    }

    open spec fn update_spec(&self, current_time_us: u32) -> (State, (Option<State>, Option<i16>)) {
        match self {
            State::Exploration(s) => {
                let (next, r) = exploration_update_spec(*s, current_time_us);
                (State::Exploration(next), r)
            },
            State::BoundaryDetected(s) => (
                State::BoundaryDetected(*s),
                (None, Some(0i16)),
            ),
        }
    }

    fn update(&mut self, current_time_us: u32) -> (r: (Option<State>, Option<i16>)) {
        match self {
            State::Exploration(s) => s.update(current_time_us),
            State::BoundaryDetected(s) => s.update(current_time_us),
        }
    }
}

/// Shuttling back and forth: holds the time of the next reversal and the
/// speed currently commanded, which flips sign at each reversal.
#[derive(Clone, Copy, PartialEq, Eq, Structural, Debug)]
pub struct ExplorationState {
    pub next_update_time_us: u32,
    pub speed: i16,
}

impl ExplorationState {
    pub open spec fn wf(self) -> bool {
        self.speed == SHUTTLE_SPEED || self.speed == -SHUTTLE_SPEED
    }

    /// Start shuttling: the first update reverses to forward.
    pub fn new() -> (s: State)
        ensures
            s matches State::Exploration(e) && e.wf() && e.next_update_time_us == 0 && e.speed
                == -SHUTTLE_SPEED,
    {
        State::Exploration(ExplorationState { next_update_time_us: 0, speed: -SHUTTLE_SPEED })
    }

    /// Once the reversal time arrives, flip the direction, command the new
    /// speed on both motors, and schedule the next reversal one period on.
    pub fn update(&mut self, current_time_us: u32) -> (r: (Option<State>, Option<i16>))
        requires
            old(self).wf(),
            current_time_us + REVERSAL_PERIOD_US <= u32::MAX,
        ensures
            final(self).wf(),
            current_time_us >= old(self).next_update_time_us ==> {
                &&& final(self).next_update_time_us == current_time_us + REVERSAL_PERIOD_US
                &&& final(self).speed == -old(self).speed
                &&& r.0 is None
                &&& r.1 == Some(final(self).speed)
            },
            current_time_us < old(self).next_update_time_us ==> {
                &&& *final(self) == *old(self)
                &&& r == (Option::<State>::None, Option::<i16>::None)
            },
    {
        if current_time_us >= self.next_update_time_us {
            self.next_update_time_us = current_time_us + REVERSAL_PERIOD_US;
            self.speed = -self.speed;
            (None, Some(self.speed))
        } else {
            (None, None)
        }
    }
}

/// A boundary was seen: every update commands both motors to rest.
#[derive(Clone, Copy, PartialEq, Eq, Structural, Debug)]
pub struct BoundaryDetectedState {}

impl BoundaryDetectedState {
    pub fn new() -> (s: State)
        ensures
            s matches State::BoundaryDetected(_),
    {
        State::BoundaryDetected(BoundaryDetectedState {  })
    }

    pub fn update(&mut self, current_time_us: u32) -> (r: (Option<State>, Option<i16>))
        ensures
            r.0 is None,
            r.1 == Some(0i16),
    {
        let _ = current_time_us;
        (None, Some(0))
    }
}

} // verus!
