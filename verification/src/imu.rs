//! Magnetometer handling.  The inertial unit is read over the two-wire
//! bus outside this crate; what arrives is bytes and axis samples, and
//! everything decided from them is modelled here: reassembling the
//! little-endian axis triplet, the data-ready status bit, the calibration
//! pass that tracks axis extremes, and the stored calibration vector that
//! the heading computation scales by.

use vstd::prelude::*;

verus! {

pub const TOTAL_CALIBRATION_SAMPLES: u32 = 100;

pub const TIME_BETWEEN_SAMPLES_MS: u32 = 50;

pub const SMOOTHING_ITERS: u8 = 10;

/// One signed 16-bit axis value from its little-endian bytes.
pub open spec fn axis_from(lo: u8, hi: u8) -> i16 {
    (hi * 0x100 + lo) as i16
}

/// Reassemble the three axis values from a six-byte auto-increment read.
pub fn axes_from_bytes(data: &Vec<u8>) -> (axes: (i16, i16, i16))
    requires
        data@.len() == 6,
    ensures
        axes.0 == axis_from(data@[0], data@[1]),
        axes.1 == axis_from(data@[2], data@[3]),
        axes.2 == axis_from(data@[4], data@[5]),
{
    let x = (((data[1] as u16) << 8u16) | data[0] as u16) as i16;
    let y = (((data[3] as u16) << 8u16) | data[2] as u16) as i16;
    let z = (((data[5] as u16) << 8u16) | data[4] as u16) as i16;
    proof {
        lemma_axis_assembly(data@[0], data@[1]);
        lemma_axis_assembly(data@[2], data@[3]);
        lemma_axis_assembly(data@[4], data@[5]);
    }
    (x, y, z)
}

/// Shifting the high byte into place is the same as scaling it by 256.
proof fn lemma_axis_assembly(lo: u8, hi: u8)
    ensures
        ((((hi as u16) << 8u16) | lo as u16) as i16) == axis_from(lo, hi),
{
    assert((((hi as u16) << 8u16) | lo as u16) == hi as u16 * 0x100 + lo as u16) by (bit_vector);
}

/// The magnetometer's status byte announces fresh data in bit 3.
pub fn magnetometer_ready(status: u8) -> (r: bool)
    ensures
        r == (status & 0x08 > 0),
{
    (status & 0x08) > 0
}

/// One calibration pass over the given samples: the true minimum and
/// maximum of each axis, as `(x_min, x_max, y_min, y_max)`.  With no
/// samples the range is empty: each minimum is `i16::MAX` and each
/// maximum `i16::MIN`; with any sample at all, minimum and maximum are
/// attained, so minimum <= maximum on both axes.
pub fn magnetometer_extremes(samples: &Vec<(i16, i16)>) -> (r: (i16, i16, i16, i16))
    ensures
        forall|j: int|
            0 <= j < samples@.len() ==> r.0 <= (#[trigger] samples@[j]).0 <= r.1 && r.2
                <= samples@[j].1 <= r.3,
        samples@.len() == 0 ==> r == (i16::MAX, i16::MIN, i16::MAX, i16::MIN),
        samples@.len() > 0 ==> {
            &&& exists|j: int| 0 <= j < samples@.len() && r.0 == (#[trigger] samples@[j]).0
            &&& exists|j: int| 0 <= j < samples@.len() && r.1 == (#[trigger] samples@[j]).0
            &&& exists|j: int| 0 <= j < samples@.len() && r.2 == (#[trigger] samples@[j]).1
            &&& exists|j: int| 0 <= j < samples@.len() && r.3 == (#[trigger] samples@[j]).1
        },
{
    let mut x_min = i16::MAX;
    let mut x_max = i16::MIN;
    let mut y_min = i16::MAX;
    let mut y_max = i16::MIN;
    let mut j: usize = 0;
    while j < samples.len()
        invariant
            j <= samples@.len(),
            forall|k: int|
                0 <= k < j ==> x_min <= (#[trigger] samples@[k]).0 <= x_max && y_min
                    <= samples@[k].1 <= y_max,
            j == 0 ==> (x_min, x_max, y_min, y_max) == (i16::MAX, i16::MIN, i16::MAX, i16::MIN),
            j > 0 ==> {
                &&& exists|k: int| 0 <= k < j && x_min == (#[trigger] samples@[k]).0
                &&& exists|k: int| 0 <= k < j && x_max == (#[trigger] samples@[k]).0
                &&& exists|k: int| 0 <= k < j && y_min == (#[trigger] samples@[k]).1
                &&& exists|k: int| 0 <= k < j && y_max == (#[trigger] samples@[k]).1
            },
        decreases samples@.len() - j,
    {
        let (x, y) = samples[j];
        if x < x_min {
            x_min = x;
        }
        if x > x_max {
            x_max = x;
        }
        if y < y_min {
            y_min = y;
        }
        if y > y_max {
            y_max = y;
        }
        j = j + 1;
    }
    (x_min, x_max, y_min, y_max)
}

/// The stored magnetometer calibration: per-axis minimum and range, the
/// scale of the heading computation's inputs.
pub struct IMU {
    pub x_min: i16,
    pub x_range: i32,
    pub y_min: i16,
    pub y_range: i32,
}

impl IMU {
    /// An uncalibrated unit: empty ranges.
    pub fn new() -> (imu: IMU)
        ensures
            imu.x_min == 0,
            imu.x_range == 0,
            imu.y_min == 0,
            imu.y_range == 0,
    {
        IMU { x_min: 0, x_range: 0, y_min: 0, y_range: 0 }
    }

    /// Store the extremes of a calibration pass as minimum and range.
    pub fn set_calibration_vector(&mut self, x_min: i16, x_max: i16, y_min: i16, y_max: i16)
        ensures
            final(self).x_min == x_min,
            final(self).x_range == x_max - x_min,
            final(self).y_min == y_min,
            final(self).y_range == y_max - y_min,
    {
        self.x_min = x_min;
        self.x_range = x_max as i32 - x_min as i32;
        self.y_min = y_min;
        self.y_range = y_max as i32 - y_min as i32;
    }
}

} // verus!
