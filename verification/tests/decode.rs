use room_telemetry::device::{
    decode, decode_humidity, decode_temperature, raw_sample_of, RawSample,
};

const TICKS_PER_UNIT: f64 = 65536.0;

#[test]
fn temperature_zero_code_is_minus_forty() {
    let t = decode_temperature(0x0000);
    assert_eq!(t.ticks, -40 * 65536);
    assert_eq!(t.ticks as f64 / TICKS_PER_UNIT, -40.0);
}

#[test]
fn temperature_full_code_is_near_125() {
    let t = decode_temperature(0xFFFF);
    assert_eq!(t.ticks, 165 * 65535 - 40 * 65536);
    let celsius = t.ticks as f64 / TICKS_PER_UNIT;
    assert!((celsius - 125.0).abs() < 0.01);
    assert_eq!(celsius, 165.0 * 65535.0 / 65536.0 - 40.0);
}

#[test]
fn humidity_zero_code_is_zero() {
    let h = decode_humidity(0x0000);
    assert_eq!(h.ticks, 0);
    assert_eq!(h.ticks as f64 / TICKS_PER_UNIT, 0.0);
}

#[test]
fn humidity_full_code_is_near_100() {
    let h = decode_humidity(0xFFFF);
    assert_eq!(h.ticks, 100 * 65535);
    let percent = h.ticks as f64 / TICKS_PER_UNIT;
    assert!((percent - 100.0).abs() < 0.01);
    assert_eq!(percent, 100.0 * 65535.0 / 65536.0);
}

#[test]
fn raw_sample_is_big_endian() {
    let s = raw_sample_of(&vec![0x12, 0x34, 0xAB, 0xCD]);
    assert_eq!(
        s,
        RawSample { raw_temperature: 0x1234, raw_humidity: 0xABCD }
    );
}

#[test]
fn decode_splits_sample_into_both_quantities() {
    let r = decode(RawSample { raw_temperature: 0x8000, raw_humidity: 0x4000 });
    assert_eq!(r.temperature.ticks as f64 / TICKS_PER_UNIT, 42.5);
    assert_eq!(r.humidity.ticks as f64 / TICKS_PER_UNIT, 25.0);
}
