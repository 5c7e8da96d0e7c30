use room_telemetry::encode::{encode, write_url};
use room_telemetry::text::{fixed_to_string, i64_to_string, FixedValue};

#[test]
fn encode_produces_the_line_protocol_record() {
    let line = encode(
        "temperature",
        FixedValue { ticks: 21 * 65536 + 32768 },
        1700000000000000000,
    );
    assert_eq!(line, "temperature,sensor=hdc1000 value=21.5 1700000000000000000");
}

#[test]
fn encoded_record_parses_back_to_its_fields() {
    let line = encode(
        "temperature",
        FixedValue { ticks: 21 * 65536 + 32768 },
        1700000000000000000,
    );
    let (measurement, timestamp_field) = line.rsplit_once(' ').unwrap();
    let timestamp: i64 = timestamp_field.parse().unwrap();
    assert_eq!(timestamp, 1700000000000000000);
    let (series, tag_and_value) = measurement.split_once(',').unwrap();
    assert_eq!(series, "temperature");
    let (tag, value_field) = tag_and_value.split_once(" value=").unwrap();
    assert_eq!(tag, "sensor=hdc1000");
    let value: f64 = value_field.parse().unwrap();
    assert_eq!(value, 21.5);
}

#[test]
fn whole_values_print_without_a_fraction() {
    assert_eq!(fixed_to_string(FixedValue { ticks: 25 * 65536 }), "25");
    assert_eq!(fixed_to_string(FixedValue { ticks: 0 }), "0");
    assert_eq!(fixed_to_string(FixedValue { ticks: -40 * 65536 }), "-40");
}

#[test]
fn fractional_values_print_their_exact_expansion() {
    assert_eq!(fixed_to_string(FixedValue { ticks: 42 * 65536 + 32768 }), "42.5");
    assert_eq!(fixed_to_string(FixedValue { ticks: -(21 * 65536 + 32768) }), "-21.5");
    assert_eq!(
        fixed_to_string(FixedValue { ticks: 165 * 65535 - 40 * 65536 }),
        "124.9974822998046875"
    );
    assert_eq!(fixed_to_string(FixedValue { ticks: 1 }), "0.0000152587890625");
    assert_eq!(fixed_to_string(FixedValue { ticks: -1 }), "-0.0000152587890625");
}

#[test]
fn signed_integers_print_in_decimal() {
    assert_eq!(i64_to_string(0), "0");
    assert_eq!(i64_to_string(60), "60");
    assert_eq!(i64_to_string(-5), "-5");
    assert_eq!(i64_to_string(i64::MAX), "9223372036854775807");
    assert_eq!(i64_to_string(i64::MIN), "-9223372036854775808");
}

#[test]
fn distinct_values_print_distinctly() {
    let pairs = [
        (0i64, 1i64),
        (65536, 65537),
        (-1, 1),
        (2785280, 2785281),
        (-2621440, 2621440),
    ];
    for (a, b) in pairs {
        assert_ne!(
            fixed_to_string(FixedValue { ticks: a }),
            fixed_to_string(FixedValue { ticks: b })
        );
    }
}

#[test]
fn write_url_names_the_database() {
    assert_eq!(
        write_url("localhost:8086", "myroom"),
        "http://localhost:8086/write?db=myroom"
    );
}
