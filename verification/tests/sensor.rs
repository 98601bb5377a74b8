use kornal::aht20::{AHT20, FRAME_LENGTH, INIT_WAIT, MEASUREMENT_WAIT, SCALE};
use kornal::bus::Operation;

const ADDRESS: u8 = 0x38;

fn frame_of(humidity: u32, temperature: u32) -> [u8; 7] {
    [
        0x1C,
        (humidity >> 12) as u8,
        (humidity >> 4) as u8,
        ((humidity << 4) as u8) | ((temperature >> 16) as u8),
        (temperature >> 8) as u8,
        temperature as u8,
        0x00,
    ]
}

#[test]
fn sensor_init_script() {
    let sensor = AHT20::new(ADDRESS);
    assert_eq!(
        sensor.init(),
        vec![
            Operation::Write { address: ADDRESS, bytes: vec![0xBE, 0x08, 0x00] },
            Operation::Delay { micros: 350 },
        ]
    );
}

#[test]
fn sensor_measure_script() {
    let sensor = AHT20::new(ADDRESS);
    assert_eq!(
        sensor.measure(),
        vec![
            Operation::Write { address: ADDRESS, bytes: vec![0xAC, 0x33, 0x00] },
            Operation::Delay { micros: 80_000 },
            Operation::Read { address: ADDRESS, length: 7 },
        ]
    );
}

#[test]
fn sensor_scripts_go_to_the_address_given() {
    let sensor = AHT20::new(0x39);
    assert_eq!(sensor.init()[0], Operation::Write { address: 0x39, bytes: vec![0xBE, 0x08, 0x00] });
    assert_eq!(sensor.measure()[2], Operation::Read { address: 0x39, length: 7 });
}

#[test]
fn sensor_waits_are_in_the_right_unit() {
    // Hundreds of microseconds after initialization, tens of milliseconds
    // for a conversion.
    assert_eq!(INIT_WAIT, 350);
    assert_eq!(MEASUREMENT_WAIT, 80_000);
    assert_eq!(FRAME_LENGTH, 7);
    assert_eq!(SCALE, 1 << 20);
}

#[test]
fn half_scale_humidity_is_fifty_percent() {
    let sensor = AHT20::new(ADDRESS);
    let reading = sensor.read_values(&[0x00, 0x80, 0x00, 0x00, 0x00, 0x00, 0x00]);
    assert_eq!(reading.humidity_raw(), 524_288);
    assert_eq!(reading.humidity_scaled(), 50 * SCALE);
    assert_eq!(reading.humidity_scaled() as f32 / SCALE as f32, 50.0);
}

#[test]
fn quarter_scale_temperature_is_zero_degrees() {
    let sensor = AHT20::new(ADDRESS);
    let reading = sensor.read_values(&[0x00, 0x00, 0x00, 0x04, 0x00, 0x00, 0x00]);
    assert_eq!(reading.temperature_raw(), 262_144);
    assert_eq!(reading.temperature_scaled(), 0);
    assert_eq!(reading.temperature_scaled() as f32 / SCALE as f32, 0.0);
}

#[test]
fn lowest_codes() {
    let sensor = AHT20::new(ADDRESS);
    let reading = sensor.read_values(&[0xFF, 0x00, 0x00, 0x00, 0x00, 0x00, 0xFF]);
    assert_eq!(reading.humidity_raw(), 0);
    assert_eq!(reading.temperature_raw(), 0);
    assert_eq!(reading.humidity_scaled(), 0);
    assert_eq!(reading.temperature_scaled(), -50 * (SCALE as i32));
}

#[test]
fn highest_codes() {
    let sensor = AHT20::new(ADDRESS);
    let reading = sensor.read_values(&[0x00, 0xFF, 0xFF, 0xFF, 0xFF, 0xFF, 0x00]);
    assert_eq!(reading.humidity_raw(), 0xF_FFFF);
    assert_eq!(reading.temperature_raw(), 0xF_FFFF);
    assert_eq!(reading.humidity_scaled(), 104_857_500);
    assert_eq!(reading.temperature_scaled(), 157_286_200);
    assert!(reading.humidity_scaled() < 100 * SCALE);
    assert!(reading.temperature_scaled() < 150 * (SCALE as i32));
}

#[test]
fn byte_three_is_shared() {
    let sensor = AHT20::new(ADDRESS);
    let reading = sensor.read_values(&[0x00, 0x12, 0x34, 0x5A, 0xBC, 0xDE, 0x00]);
    assert_eq!(reading.humidity_raw(), 0x12345);
    assert_eq!(reading.temperature_raw(), 0xABCDE);
    let upper = sensor.read_values(&[0x00, 0x00, 0x00, 0xF0, 0x00, 0x00, 0x00]);
    assert_eq!(upper.humidity_raw(), 0x0000F);
    assert_eq!(upper.temperature_raw(), 0);
    let lower = sensor.read_values(&[0x00, 0x00, 0x00, 0x0F, 0x00, 0x00, 0x00]);
    assert_eq!(lower.humidity_raw(), 0);
    assert_eq!(lower.temperature_raw(), 0xF0000);
}

#[test]
fn status_and_checksum_do_not_matter() {
    let sensor = AHT20::new(ADDRESS);
    let plain = sensor.read_values(&[0x00, 0x12, 0x34, 0x5A, 0xBC, 0xDE, 0x00]);
    let other = sensor.read_values(&[0x98, 0x12, 0x34, 0x5A, 0xBC, 0xDE, 0x77]);
    assert_eq!(plain, other);
}

#[test]
fn room_conditions() {
    let sensor = AHT20::new(ADDRESS);
    // 45 % and 22.5 degrees.
    let humidity = 471_859;
    let temperature = 380_108;
    let reading = sensor.read_values(&frame_of(humidity, temperature));
    assert_eq!(reading.humidity_raw(), humidity);
    assert_eq!(reading.temperature_raw(), temperature);
    assert_eq!(reading.humidity_scaled(), 47_185_900);
    assert_eq!(reading.temperature_scaled(), 76_021_600 - 52_428_800);
    let percent = reading.humidity_scaled() as f64 / SCALE as f64;
    let degrees = reading.temperature_scaled() as f64 / SCALE as f64;
    assert!((percent - 45.0).abs() < 0.001);
    assert!((degrees - 22.5).abs() < 0.001);
}

#[test]
fn physical_values_stay_in_range() {
    let sensor = AHT20::new(ADDRESS);
    let mut code: u32 = 0;
    while code < SCALE {
        let reading = sensor.read_values(&frame_of(code, SCALE - 1 - code));
        assert_eq!(reading.humidity_raw(), code);
        assert_eq!(reading.temperature_raw(), SCALE - 1 - code);
        assert_eq!(reading.humidity_scaled(), code * 100);
        assert!(reading.humidity_scaled() < 100 * SCALE);
        let degrees = reading.temperature_scaled();
        assert_eq!(degrees as i64, (SCALE - 1 - code) as i64 * 200 - 50 * SCALE as i64);
        assert!(-50 * (SCALE as i32) <= degrees && degrees < 150 * (SCALE as i32));
        code += 997;
    }
}
