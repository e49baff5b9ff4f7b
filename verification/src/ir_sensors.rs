//! Reflectance sensing.  Six pins are charged high and left to discharge;
//! per channel the pin-change interrupt records the discharge time in
//! microseconds, and a channel that never fires is clamped to the sensor
//! ceiling.  Calibration maps a raw discharge time through a per-channel
//! affine transform onto [0, MAX_CALIBRATED_VALUE].  Driving and watching
//! the pins stays outside the crate; the bookkeeping of one read and the
//! calibration arithmetic are modelled here.

use vstd::prelude::*;

verus! {

pub const NUM_SENSORS: usize = 6;

pub const CALIBRATION_ITERS: u8 = 10;

pub const SENSOR_CHARGE_TIME_US: u16 = 10;

pub const SENSOR_TIMEOUT_MS: u32 = 2;

/// Longest discharge time kept, in microseconds.
pub const MAX_SENSOR_READ_VALUE: u16 = 2000;

/// Top of the calibrated range.
pub const MAX_CALIBRATED_VALUE: u16 = 1000;

/// Whether channel `i`'s bit is set in the triggered mask.
pub open spec fn sensor_bit(mask: u8, i: usize) -> bool {
    mask & (1u8 << (i as u8)) > 0
}

/// A raw value mapped through the channel's (min, max) calibration:
/// rescaled to thousandths of the calibrated span and clamped to
/// [0, MAX_CALIBRATED_VALUE].
pub open spec fn calibrated_value(raw: int, min: int, max: int) -> int
    recommends
        min < max,
{
    let scaled = ((raw - min) * (MAX_CALIBRATED_VALUE as int)) / (max - min);
    if raw <= min {
        0
    } else if scaled > MAX_CALIBRATED_VALUE {
        MAX_CALIBRATED_VALUE as int
    } else {
        scaled
    }
}

pub struct IRSensors {
    /// Latest measurement of each channel, in microseconds until the pin
    /// fell, or a calibrated value after `read_calibrated`.
    pub values: Vec<u16>,
    /// One bit per channel: whether it has fired during the current read.
    pub triggered: u8,
    /// Per-channel calibration extremes (min, max).
    pub calibration: Vec<(u16, u16)>,
}

impl IRSensors {
    pub open spec fn wf(self) -> bool {
        &&& self.values@.len() == NUM_SENSORS
        &&& self.calibration@.len() == NUM_SENSORS
        &&& forall|i: int|
            0 <= i < NUM_SENSORS ==> (#[trigger] self.calibration@[i]).0 < self.calibration@[i].1
    }

    /// Fresh sensors: nothing measured, and a unit calibration span that
    /// sends any discharge at all to the top of the calibrated range.
    pub fn new() -> (s: IRSensors)
        ensures
            s.wf(),
            s.values@ == Seq::new(NUM_SENSORS as nat, |i: int| u16::MAX),
            s.triggered == 0,
            forall|i: int| 0 <= i < NUM_SENSORS ==> #[trigger] s.calibration@[i] == (0u16, 1u16),
    {
        let mut values: Vec<u16> = Vec::new();
        let mut calibration: Vec<(u16, u16)> = Vec::new();
        let mut i: usize = 0;
        while i < NUM_SENSORS
            invariant
                i <= NUM_SENSORS,
                values@.len() == i,
                calibration@.len() == i,
                forall|j: int| 0 <= j < i ==> values@[j] == u16::MAX,
                forall|j: int| 0 <= j < i ==> #[trigger] calibration@[j] == (0u16, 1u16),
            decreases NUM_SENSORS - i,
        {
            values.push(u16::MAX);
            calibration.push((0, 1));
            i = i + 1;
        }
        let s = IRSensors { values, triggered: 0, calibration };
        proof {
            assert(s.values@ =~= Seq::new(NUM_SENSORS as nat, |i: int| u16::MAX));
        }
        s
    }

    /// Install the per-channel (min, max) extremes.  Each channel's span
    /// must be non-empty, or the transform would divide by nothing.
    pub fn set_calibration_vector(&mut self, pairs: &Vec<(u16, u16)>)
        requires
            old(self).wf(),
            pairs@.len() == NUM_SENSORS,
            forall|i: int| 0 <= i < NUM_SENSORS ==> (#[trigger] pairs@[i]).0 < pairs@[i].1,
        ensures
            final(self).wf(),
            final(self).calibration@ == pairs@,
            final(self).values@ == old(self).values@,
            final(self).triggered == old(self).triggered,
    {
        let mut calibration: Vec<(u16, u16)> = Vec::new();
        let mut i: usize = 0;
        while i < NUM_SENSORS
            invariant
                i <= NUM_SENSORS,
                pairs@.len() == NUM_SENSORS,
                calibration@.len() == i,
                forall|j: int| 0 <= j < i ==> #[trigger] calibration@[j] == pairs@[j],
                forall|j: int| 0 <= j < NUM_SENSORS ==> (#[trigger] pairs@[j]).0 < pairs@[j].1,
            decreases NUM_SENSORS - i,
        {
            calibration.push(pairs[i]);
            i = i + 1;
        }
        self.calibration = calibration;
        proof {
            assert(final(self).calibration@ =~= pairs@);
        }
    }

    /// Start one read at `start_time` (the low 16 bits of the microsecond
    /// clock): prefill every channel with the start time and clear the
    /// triggered mask.
    pub fn begin_read(&mut self, start_time: u16)
        requires
            old(self).wf(),
        ensures
            final(self).wf(),
            final(self).values@ == Seq::new(NUM_SENSORS as nat, |i: int| start_time),
            final(self).triggered == 0,
            final(self).calibration@ == old(self).calibration@,
    {
        let mut values: Vec<u16> = Vec::new();
        let mut i: usize = 0;
        while i < NUM_SENSORS
            invariant
                i <= NUM_SENSORS,
                values@.len() == i,
                forall|j: int| 0 <= j < i ==> values@[j] == start_time,
            decreases NUM_SENSORS - i,
        {
            values.push(start_time);
            i = i + 1;
        }
        self.values = values;
        self.triggered = 0;
        proof {
            assert(final(self).values@ =~= Seq::new(NUM_SENSORS as nat, |i: int| start_time));
        }
    }

    /// The pin-change interrupt's work for channel `i`: the first time the
    /// pin reads low, store the discharge time (modular 16-bit difference
    /// from the prefilled start time) and set the channel's bit.
    pub fn update_sensor(&mut self, i: usize, is_low: bool, end_time: u16)
        requires
            old(self).wf(),
            i < NUM_SENSORS,
        ensures
            final(self).wf(),
            final(self).calibration@ == old(self).calibration@,
            !sensor_bit(old(self).triggered, i) && is_low ==> {
                &&& final(self).values@ == old(self).values@.update(
                    i as int,
                    vstd::wrapping::u16_specs::wrapping_sub(end_time, old(self).values@[i as int]),
                )
                &&& final(self).triggered == old(self).triggered | (1u8 << (i as u8))
            },
            sensor_bit(old(self).triggered, i) || !is_low ==> {
                &&& final(self).values@ == old(self).values@
                &&& final(self).triggered == old(self).triggered
            },
    {
        let sensor_triggered = self.triggered & (1u8 << (i as u8)) > 0;
        if !sensor_triggered && is_low {
            let start = self.values[i];
            self.values[i] = end_time.wrapping_sub(start);
            self.triggered = self.triggered | (1u8 << (i as u8));
        }
    }

    /// Finish one read: a channel still holding the start time never
    /// fired, and one beyond the ceiling discharged too slowly to matter;
    /// both are clamped to the ceiling.  Every value ends at or below
    /// `MAX_SENSOR_READ_VALUE`.
    pub fn finish_read(&mut self, start_time: u16)
        requires
            old(self).wf(),
        ensures
            final(self).wf(),
            final(self).calibration@ == old(self).calibration@,
            final(self).triggered == old(self).triggered,
            final(self).values@.len() == NUM_SENSORS,
            forall|i: int|
                0 <= i < NUM_SENSORS ==> final(self).values@[i] == (if old(self).values@[i]
                    == start_time || old(self).values@[i] > MAX_SENSOR_READ_VALUE {
                    MAX_SENSOR_READ_VALUE
                } else {
                    old(self).values@[i]
                }),
            forall|i: int|
                0 <= i < NUM_SENSORS ==> #[trigger] final(self).values@[i]
                    <= MAX_SENSOR_READ_VALUE,
    {
        let mut i: usize = 0;
        while i < NUM_SENSORS
            invariant
                self.wf(),
                self.calibration@ == old(self).calibration@,
                self.triggered == old(self).triggered,
                i <= NUM_SENSORS,
                forall|j: int|
                    i <= j < NUM_SENSORS ==> self.values@[j] == old(self).values@[j],
                forall|j: int|
                    0 <= j < i ==> self.values@[j] == (if old(self).values@[j] == start_time || old(
                        self,
                    ).values@[j] > MAX_SENSOR_READ_VALUE {
                        MAX_SENSOR_READ_VALUE
                    } else {
                        old(self).values@[j]
                    }),
            decreases NUM_SENSORS - i,
        {
            if self.values[i] == start_time || self.values[i] > MAX_SENSOR_READ_VALUE {
                self.values[i] = MAX_SENSOR_READ_VALUE;
            }
            i = i + 1;
        }
    }

    /// Map every channel through its calibration.  Afterwards each value
    /// lies in [0, MAX_CALIBRATED_VALUE].
    pub fn read_calibrated_values(&mut self)
        requires
            old(self).wf(),
        ensures
            final(self).wf(),
            final(self).calibration@ == old(self).calibration@,
            final(self).triggered == old(self).triggered,
            forall|i: int|
                0 <= i < NUM_SENSORS ==> final(self).values@[i] == calibrated_value(
                    old(self).values@[i] as int,
                    old(self).calibration@[i].0 as int,
                    old(self).calibration@[i].1 as int,
                ),
            forall|i: int|
                0 <= i < NUM_SENSORS ==> 0 <= #[trigger] final(self).values@[i]
                    <= MAX_CALIBRATED_VALUE,
    {
        let mut i: usize = 0;
        while i < NUM_SENSORS
            invariant
                self.wf(),
                self.calibration@ == old(self).calibration@,
                self.triggered == old(self).triggered,
                i <= NUM_SENSORS,
                forall|j: int|
                    i <= j < NUM_SENSORS ==> self.values@[j] == old(self).values@[j],
                forall|j: int|
                    0 <= j < i ==> self.values@[j] == calibrated_value(
                        old(self).values@[j] as int,
                        old(self).calibration@[j].0 as int,
                        old(self).calibration@[j].1 as int,
                    ),
                forall|j: int|
                    0 <= j < i ==> 0 <= #[trigger] self.values@[j] <= MAX_CALIBRATED_VALUE,
            decreases NUM_SENSORS - i,
        {
            let raw = self.values[i];
            let (min, max) = self.calibration[i];
            let calibrated: u16;
            if raw <= min {
                calibrated = 0;
            } else {
                let diff: i32 = raw as i32 - min as i32;
                let span: i32 = max as i32 - min as i32;
                proof {
                    lemma_calibrated_scale(raw as int, min as int, max as int);
                }
                let scaled: i32 = (diff * (MAX_CALIBRATED_VALUE as i32)) / span;
                if scaled > MAX_CALIBRATED_VALUE as i32 {
                    calibrated = MAX_CALIBRATED_VALUE;
                } else {
                    calibrated = scaled as u16;
                }
            }
            self.values[i] = calibrated;
            i = i + 1;
        }
    }
}

/// Bounds of the rescaling step: for a raw value above the channel
/// minimum the quotient is non-negative and fits comfortably.
proof fn lemma_calibrated_scale(raw: int, min: int, max: int)
    requires
        0 <= min < max <= u16::MAX,
        min < raw <= u16::MAX,
    ensures
        0 <= (raw - min) * (MAX_CALIBRATED_VALUE as int) <= 0x10_0000_00,
        (raw - min) * (MAX_CALIBRATED_VALUE as int) / (max - min) >= 0,
{
    assert(0 <= (raw - min) * 1000 <= 0x10_0000_00) by (nonlinear_arith)
        requires
            0 < raw - min <= 0x1_0000,
    ;
    vstd::arithmetic::div_mod::lemma_div_pos_is_pos((raw - min) * 1000, max - min);
}

/// Fold one calibration pass: the per-channel maximum of the readings for
/// a dark pass, the per-channel minimum for a light pass, starting from 0
/// and the sensor ceiling respectively.
pub fn calibrate_extremes(readings: &Vec<Vec<u16>>, dark: bool) -> (extremes: Vec<u16>)
    requires
        forall|j: int| 0 <= j < readings@.len() ==> (#[trigger] readings@[j])@.len() == NUM_SENSORS,
    ensures
        extremes@.len() == NUM_SENSORS,
        dark ==> forall|i: int, j: int|
            0 <= i < NUM_SENSORS && 0 <= j < readings@.len() ==> extremes@[i]
                >= #[trigger] readings@[j]@[i],
        dark ==> forall|i: int|
            0 <= i < NUM_SENSORS ==> #[trigger] extremes@[i] == 0 || exists|j: int|
                0 <= j < readings@.len() && extremes@[i] == readings@[j]@[i],
        !dark ==> forall|i: int, j: int|
            0 <= i < NUM_SENSORS && 0 <= j < readings@.len() ==> extremes@[i]
                <= #[trigger] readings@[j]@[i],
        !dark ==> forall|i: int|
            0 <= i < NUM_SENSORS ==> #[trigger] extremes@[i] == MAX_SENSOR_READ_VALUE || exists|
                j: int,
            | 0 <= j < readings@.len() && extremes@[i] == readings@[j]@[i],
    {
    let mut extremes: Vec<u16> = Vec::new();
    let mut i: usize = 0;
    let start: u16 = if dark {
        0
    } else {
        MAX_SENSOR_READ_VALUE
    };
    while i < NUM_SENSORS
        invariant
            i <= NUM_SENSORS,
            extremes@.len() == i,
            forall|k: int| 0 <= k < i ==> extremes@[k] == start,
        decreases NUM_SENSORS - i,
    {
        extremes.push(start);
        i = i + 1;
    }
    let mut j: usize = 0;
    while j < readings.len()
        invariant
            forall|jj: int|
                0 <= jj < readings@.len() ==> (#[trigger] readings@[jj])@.len() == NUM_SENSORS,
            j <= readings@.len(),
            extremes@.len() == NUM_SENSORS,
            dark ==> forall|i2: int, jj: int|
                0 <= i2 < NUM_SENSORS && 0 <= jj < j ==> extremes@[i2]
                    >= #[trigger] readings@[jj]@[i2],
            dark ==> forall|i2: int|
                0 <= i2 < NUM_SENSORS ==> #[trigger] extremes@[i2] == 0 || exists|jj: int|
                    0 <= jj < j && extremes@[i2] == readings@[jj]@[i2],
            !dark ==> forall|i2: int, jj: int|
                0 <= i2 < NUM_SENSORS && 0 <= jj < j ==> extremes@[i2]
                    <= #[trigger] readings@[jj]@[i2],
            !dark ==> forall|i2: int|
                0 <= i2 < NUM_SENSORS ==> #[trigger] extremes@[i2] == MAX_SENSOR_READ_VALUE
                    || exists|jj: int| 0 <= jj < j && extremes@[i2] == readings@[jj]@[i2],
        decreases readings@.len() - j,
    {
        let reading = &readings[j];
        let mut k: usize = 0;
        while k < NUM_SENSORS
            invariant
                forall|jj: int|
                    0 <= jj < readings@.len() ==> (#[trigger] readings@[jj])@.len() == NUM_SENSORS,
                j < readings@.len(),
                reading == &readings@[j as int],
                k <= NUM_SENSORS,
                extremes@.len() == NUM_SENSORS,
                dark ==> forall|i2: int, jj: int|
                    0 <= i2 < NUM_SENSORS && 0 <= jj < j ==> extremes@[i2]
                        >= #[trigger] readings@[jj]@[i2],
                dark ==> forall|i2: int|
                    0 <= i2 < k ==> #[trigger] extremes@[i2] >= readings@[j as int]@[i2],
                dark ==> forall|i2: int|
                    0 <= i2 < NUM_SENSORS ==> #[trigger] extremes@[i2] == 0 || exists|jj: int|
                        0 <= jj <= j && extremes@[i2] == readings@[jj]@[i2],
                !dark ==> forall|i2: int, jj: int|
                    0 <= i2 < NUM_SENSORS && 0 <= jj < j ==> extremes@[i2]
                        <= #[trigger] readings@[jj]@[i2],
                !dark ==> forall|i2: int|
                    0 <= i2 < k ==> #[trigger] extremes@[i2] <= readings@[j as int]@[i2],
                !dark ==> forall|i2: int|
                    0 <= i2 < NUM_SENSORS ==> #[trigger] extremes@[i2] == MAX_SENSOR_READ_VALUE
                        || exists|jj: int| 0 <= jj <= j && extremes@[i2] == readings@[jj]@[i2],
            decreases NUM_SENSORS - k,
        {
            let v = reading[k];
            if (dark && v > extremes[k]) || (!dark && v < extremes[k]) {
                extremes[k] = v;
            }
            k = k + 1;
        }
        j = j + 1;
    }
    extremes
}

} // verus!
