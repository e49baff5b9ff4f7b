//! Reflectance sensing against the full 32-bit microsecond clock: the
//! same discharge protocol as the calibrated reader, but with wide
//! counters and a sentinel for channels that never fire, plus the polled
//! fallback that samples the pins in a tight loop instead of waiting for
//! pin-change interrupts.

use crate::ir_sensors::NUM_SENSORS;
use vstd::prelude::*;

verus! {

/// Value of a channel whose discharge was never observed.
pub const SENSOR_UNREAD: u32 = 0xffff_ffff;

/// The polled fallback gives up on a channel after this many
/// microseconds.
pub const POLL_TIMEOUT_US: u16 = 2000;

pub struct ZumoSensors {
    /// Latest discharge time of each channel, in microseconds.
    pub values: Vec<u32>,
    /// One bit per channel: whether it has fired during the current read.
    pub triggered: u8,
}

impl ZumoSensors {
    pub open spec fn wf(self) -> bool {
        self.values@.len() == NUM_SENSORS
    }

    pub fn new() -> (s: ZumoSensors)
        ensures
            s.wf(),
            s.triggered == 0,
            forall|i: int| 0 <= i < NUM_SENSORS ==> #[trigger] s.values@[i] == SENSOR_UNREAD,
    {
        let mut values: Vec<u32> = Vec::new();
        let mut i: usize = 0;
        while i < NUM_SENSORS
            invariant
                i <= NUM_SENSORS,
                values@.len() == i,
                forall|j: int| 0 <= j < i ==> #[trigger] values@[j] == SENSOR_UNREAD,
            decreases NUM_SENSORS - i,
        {
            values.push(SENSOR_UNREAD);
            i = i + 1;
        }
        ZumoSensors { values, triggered: 0 }
    }

    /// Start one read at `start_time` on the microsecond clock: prefill
    /// every channel with the start time and clear the triggered mask.
    pub fn begin_read(&mut self, start_time: u32)
        requires
            old(self).wf(),
        ensures
            final(self).wf(),
            forall|i: int| 0 <= i < NUM_SENSORS ==> #[trigger] final(self).values@[i] == start_time,
            final(self).triggered == 0,
    {
        let mut values: Vec<u32> = Vec::new();
        let mut i: usize = 0;
        while i < NUM_SENSORS
            invariant
                i <= NUM_SENSORS,
                values@.len() == i,
                forall|j: int| 0 <= j < i ==> #[trigger] values@[j] == start_time,
            decreases NUM_SENSORS - i,
        {
            values.push(start_time);
            i = i + 1;
        }
        self.values = values;
        self.triggered = 0;
    }

    /// The pin-change interrupt's work for channel `i`: the first time the
    /// pin reads low, store the discharge time (modular difference from
    /// the prefilled start time) and set the channel's bit.
    pub fn update_sensor(&mut self, i: usize, is_low: bool, end_time: u32)
        requires
            old(self).wf(),
            i < NUM_SENSORS,
        ensures
            final(self).wf(),
            !crate::ir_sensors::sensor_bit(old(self).triggered, i) && is_low ==> {
                &&& final(self).values@ == old(self).values@.update(
                    i as int,
                    vstd::wrapping::u32_specs::wrapping_sub(end_time, old(self).values@[i as int]),
                )
                &&& final(self).triggered == old(self).triggered | (1u8 << (i as u8))
            },
            crate::ir_sensors::sensor_bit(old(self).triggered, i) || !is_low ==> {
                &&& final(self).values@ == old(self).values@
                &&& final(self).triggered == old(self).triggered
            },
    {
        let sensor_triggered = self.triggered & (1u8 << (i as u8)) > 0;
        if !sensor_triggered && is_low {
            let start = self.values[i];
            self.values[i] = end_time.wrapping_sub(start);
            self.triggered = self.triggered | (1u8 << (i as u8));
        }
    }

    /// Finish one read: a channel still holding the start time never
    /// fired and is marked unread.
    pub fn finish_read(&mut self, start_time: u32)
        requires
            old(self).wf(),
        ensures
            final(self).wf(),
            final(self).triggered == old(self).triggered,
            forall|i: int|
                0 <= i < NUM_SENSORS ==> final(self).values@[i] == (if old(self).values@[i]
                    == start_time {
                    SENSOR_UNREAD
                } else {
                    old(self).values@[i]
                }),
    {
        let mut i: usize = 0;
        while i < NUM_SENSORS
            invariant
                self.wf(),
                self.triggered == old(self).triggered,
                i <= NUM_SENSORS,
                forall|j: int| i <= j < NUM_SENSORS ==> self.values@[j] == old(self).values@[j],
                forall|j: int|
                    0 <= j < i ==> self.values@[j] == (if old(self).values@[j] == start_time {
                        SENSOR_UNREAD
                    } else {
                        old(self).values@[j]
                    }),
            decreases NUM_SENSORS - i,
        {
            if self.values[i] == start_time {
                self.values[i] = SENSOR_UNREAD;
            }
            i = i + 1;
        }
    }
}

/// The polled discharge measurement: the caller samples all six pins in a
/// tight loop until the timeout, handing in each sample's microseconds
/// since charge and the six pin-low flags.  A channel's reading is the
/// earliest sample at which it was seen low, or the timeout if it never
/// was.
pub fn read_sensors_poll(samples: &Vec<(u16, Vec<bool>)>) -> (result: Vec<u16>)
    requires
        forall|j: int|
            0 <= j < samples@.len() ==> (#[trigger] samples@[j]).0 < POLL_TIMEOUT_US
                && samples@[j].1@.len() == NUM_SENSORS,
    ensures
        result@.len() == NUM_SENSORS,
        forall|i: int| 0 <= i < NUM_SENSORS ==> #[trigger] result@[i] <= POLL_TIMEOUT_US,
        forall|i: int, j: int|
            0 <= i < NUM_SENSORS && 0 <= j < samples@.len() && (#[trigger] samples@[j].1@[i])
                ==> result@[i] <= samples@[j].0,
        forall|i: int|
            0 <= i < NUM_SENSORS ==> #[trigger] result@[i] == POLL_TIMEOUT_US || exists|j: int|
                0 <= j < samples@.len() && samples@[j].1@[i] && samples@[j].0 == result@[i],
{
    let mut result: Vec<u16> = Vec::new();
    let mut i: usize = 0;
    while i < NUM_SENSORS
        invariant
            i <= NUM_SENSORS,
            result@.len() == i,
            forall|k: int| 0 <= k < i ==> #[trigger] result@[k] == POLL_TIMEOUT_US,
        decreases NUM_SENSORS - i,
    {
        result.push(POLL_TIMEOUT_US);
        i = i + 1;
    }
    let mut j: usize = 0;
    while j < samples.len()
        invariant
            forall|jj: int|
                0 <= jj < samples@.len() ==> (#[trigger] samples@[jj]).0 < POLL_TIMEOUT_US
                    && samples@[jj].1@.len() == NUM_SENSORS,
            j <= samples@.len(),
            result@.len() == NUM_SENSORS,
            forall|k: int| 0 <= k < NUM_SENSORS ==> #[trigger] result@[k] <= POLL_TIMEOUT_US,
            forall|k: int, jj: int|
                0 <= k < NUM_SENSORS && 0 <= jj < j && (#[trigger] samples@[jj].1@[k])
                    ==> result@[k] <= samples@[jj].0,
            forall|k: int|
                0 <= k < NUM_SENSORS ==> #[trigger] result@[k] == POLL_TIMEOUT_US || exists|
                    jj: int,
                | 0 <= jj < samples@.len() && samples@[jj].1@[k] && samples@[jj].0 == result@[k],
        decreases samples@.len() - j,
    {
        let (time, lows) = &samples[j];
        let mut k: usize = 0;
        while k < NUM_SENSORS
            invariant
                forall|jj: int|
                    0 <= jj < samples@.len() ==> (#[trigger] samples@[jj]).0 < POLL_TIMEOUT_US
                        && samples@[jj].1@.len() == NUM_SENSORS,
                j < samples@.len(),
                time == samples@[j as int].0,
                lows == &samples@[j as int].1,
                k <= NUM_SENSORS,
                result@.len() == NUM_SENSORS,
                forall|kk: int| 0 <= kk < NUM_SENSORS ==> #[trigger] result@[kk] <= POLL_TIMEOUT_US,
                forall|kk: int, jj: int|
                    0 <= kk < NUM_SENSORS && 0 <= jj < j && (#[trigger] samples@[jj].1@[kk])
                        ==> result@[kk] <= samples@[jj].0,
                forall|kk: int|
                    0 <= kk < k && samples@[j as int].1@[kk] ==> #[trigger] result@[kk]
                        <= samples@[j as int].0,
                forall|kk: int|
                    0 <= kk < NUM_SENSORS ==> #[trigger] result@[kk] == POLL_TIMEOUT_US || exists|
                        jj: int,
                    |
                        0 <= jj < samples@.len() && samples@[jj].1@[kk] && samples@[jj].0
                            == result@[kk],
            decreases NUM_SENSORS - k,
        {
            if lows[k] && *time < result[k] {
                result[k] = *time;
            }
            k = k + 1;
        }
        j = j + 1;
    }
    result
}

} // verus!
