use zumo_core::eeprom::Eeprom;
use zumo_core::imu::{axes_from_bytes, magnetometer_extremes, magnetometer_ready, IMU};
use zumo_core::ir_sensors::{calibrate_extremes, IRSensors};
use zumo_core::zumo_sensors::{read_sensors_poll, ZumoSensors};

#[test]
fn discharge_times_are_recorded_once_per_channel() {
    let mut s = IRSensors::new();
    s.begin_read(1000);
    assert_eq!(s.triggered, 0);
    s.update_sensor(2, true, 1500);
    assert_eq!(s.values[2], 500);
    assert_eq!(s.triggered, 0b100);
    // a later edge on the same channel is ignored
    s.update_sensor(2, true, 1900);
    assert_eq!(s.values[2], 500);
    // a high pin records nothing
    s.update_sensor(3, false, 1600);
    assert_eq!(s.values[3], 1000);
    assert_eq!(s.triggered, 0b100);
}

#[test]
fn discharge_time_uses_modular_sixteen_bit_arithmetic() {
    let mut s = IRSensors::new();
    s.begin_read(0xff00);
    s.update_sensor(0, true, 0x0064);
    assert_eq!(s.values[0], 0x0064u16.wrapping_sub(0xff00));
}

#[test]
fn unfired_channels_clamp_to_the_ceiling() {
    let mut s = IRSensors::new();
    s.begin_read(1000);
    s.update_sensor(1, true, 1200);
    s.finish_read(1000);
    for i in 0..6 {
        assert!(s.values[i] <= 2000);
    }
    assert_eq!(s.values[1], 200);
    assert_eq!(s.values[0], 2000);
}

#[test]
fn calibrated_values_stay_within_range() {
    let mut s = IRSensors::new();
    let pairs = vec![(100u16, 600u16); 6];
    s.set_calibration_vector(&pairs);
    s.values = vec![50, 100, 350, 600, 2000, 101];
    s.read_calibrated_values();
    for i in 0..6 {
        assert!(s.values[i] <= 1000);
    }
    assert_eq!(s.values[0], 0); // below the minimum
    assert_eq!(s.values[1], 0); // exactly the minimum
    assert_eq!(s.values[2], 500); // the middle of the span
    assert_eq!(s.values[3], 1000); // exactly the maximum
    assert_eq!(s.values[4], 1000); // beyond the maximum
    assert_eq!(s.values[5], 2); // 1 / 500 of the span
}

#[test]
fn calibration_passes_keep_the_extremes() {
    let dark_reads = vec![vec![1800u16, 1900, 2000, 1700, 1600, 1500], vec![
        1900u16, 1800, 1900, 1800, 1500, 1600,
    ]];
    let maxima = calibrate_extremes(&dark_reads, true);
    assert_eq!(maxima, vec![1900, 1900, 2000, 1800, 1600, 1600]);

    let light_reads = vec![vec![120u16, 90, 100, 110, 80, 70], vec![
        100u16, 95, 110, 100, 90, 75,
    ]];
    let minima = calibrate_extremes(&light_reads, false);
    assert_eq!(minima, vec![100, 90, 100, 100, 80, 70]);
}

#[test]
fn calibration_round_trip_through_eeprom() {
    // calibrate in the dark, persist, reload, and map a dark reading
    let dark = vec![2000u16, 1900, 1800, 2000, 1950, 1850];
    let light = vec![100u16, 90, 80, 100, 95, 85];
    let mut e = Eeprom::new();
    e.store_ir_extremes(&dark, true);
    e.store_ir_extremes(&light, false);

    let pairs = e.load_ir_calibration();
    for i in 0..6 {
        assert_eq!(pairs[i], (light[i], dark[i]));
    }

    let mut s = IRSensors::new();
    s.set_calibration_vector(&pairs);
    s.values = dark.clone();
    s.read_calibrated_values();
    for i in 0..6 {
        assert!(s.values[i] >= 999);
    }
}

#[test]
fn eeprom_words_round_trip() {
    let mut e = Eeprom::new();
    e.write_eeprom_u8(7, 0x5a);
    assert_eq!(e.read_eeprom_u8(7), 0x5a);
    e.write_eeprom_u16(40, 0xbeef);
    assert_eq!(e.read_eeprom_u16(40), 0xbeef);
    e.write_eeprom_u32(100, 0xdead_beef);
    assert_eq!(e.read_eeprom_u32(100), 0xdead_beef);
    // little-endian layout: low byte first
    assert_eq!(e.read_eeprom_u8(40), 0xef);
    assert_eq!(e.read_eeprom_u8(41), 0xbe);
    assert_eq!(e.read_eeprom_u8(100), 0xef);
    assert_eq!(e.read_eeprom_u8(103), 0xde);
}

#[test]
fn imu_calibration_round_trip_through_eeprom() {
    let mut e = Eeprom::new();
    e.store_imu_calibration(-123, 456, -789, 321);
    let (x_min, x_max, y_min, y_max) = e.load_imu_calibration();
    assert_eq!((x_min, x_max, y_min, y_max), (-123, 456, -789, 321));

    let mut imu = IMU::new();
    imu.set_calibration_vector(x_min, x_max, y_min, y_max);
    assert_eq!(imu.x_min, -123);
    assert_eq!(imu.x_range, 579);
    assert_eq!(imu.y_min, -789);
    assert_eq!(imu.y_range, 1110);
}

#[test]
fn axes_reassemble_little_endian_signed() {
    let data = vec![0x34u8, 0x12, 0xff, 0xff, 0x00, 0x80];
    let (x, y, z) = axes_from_bytes(&data);
    assert_eq!(x, 0x1234);
    assert_eq!(y, -1);
    assert_eq!(z, i16::MIN);
}

#[test]
fn magnetometer_status_bit() {
    assert!(magnetometer_ready(0x08));
    assert!(magnetometer_ready(0xff));
    assert!(!magnetometer_ready(0x00));
    assert!(!magnetometer_ready(0xf7));
}

#[test]
fn magnetometer_extreme_fold() {
    let samples = vec![(3i16, 1i16), (10, 2)];
    assert_eq!(magnetometer_extremes(&samples), (3, 10, 1, 2));
    // a sample that lowers the minimum still counts toward the maximum
    let skewed = vec![(10i16, 5i16), (3, 2)];
    assert_eq!(magnetometer_extremes(&skewed), (3, 10, 2, 5));
    // negative data is tracked faithfully on both ends
    let negative = vec![(-40i16, -7i16), (-90, -3)];
    assert_eq!(magnetometer_extremes(&negative), (-90, -40, -7, -3));
    assert_eq!(magnetometer_extremes(&Vec::new()), (i16::MAX, i16::MIN, i16::MAX, i16::MIN));
}

#[test]
fn wide_counter_read_marks_unfired_channels() {
    let mut s = ZumoSensors::new();
    s.begin_read(1_000_000);
    s.update_sensor(4, true, 1_000_750);
    s.finish_read(1_000_000);
    assert_eq!(s.values[4], 750);
    assert_eq!(s.values[0], 0xffff_ffff);
}

#[test]
fn polled_read_keeps_earliest_low_sample() {
    let samples = vec![
        (100u16, vec![false, true, false, false, false, false]),
        (200u16, vec![true, true, false, false, false, false]),
        (300u16, vec![true, true, true, false, false, false]),
    ];
    let result = read_sensors_poll(&samples);
    assert_eq!(result, vec![200, 100, 300, 2000, 2000, 2000]);
}
