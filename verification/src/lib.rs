//! Core logic of a small autonomous ground robot: a cooperative
//! fixed-capacity task executor, a millisecond/microsecond clock with a
//! timed-waker queue, slew-limited motor control, reflectance-sensor
//! calibration, magnetometer heading arithmetic, EEPROM persistence of
//! calibration data, pushbutton debouncing, and the top-level mode state
//! machine.  Hardware access (pins, registers, I2C) lives outside this
//! crate; every function here works on plain values and is verified.

pub mod constvec;
pub mod drive_plan;
pub mod eeprom;
pub mod executor;
pub mod imu;
pub mod ir_sensors;
pub mod mem;
pub mod minarray;
pub mod motor;
pub mod pushbutton;
pub mod state_machine;
pub mod timers;
pub mod waiter;
pub mod waker;
pub mod zumo_sensors;
