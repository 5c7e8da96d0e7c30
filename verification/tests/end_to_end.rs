use room_telemetry::bus::MockBus;
use room_telemetry::clock::nanos_from_seconds;
use room_telemetry::cycle::{initial_state, loop_step, LoopEvent, LoopState};
use room_telemetry::driver::sample;
use room_telemetry::publish::{influx_db_endpoint, influx_db_name, publish, MockSink};

#[test]
fn one_cycle_from_raw_bytes_to_two_posts() {
    let mut state = initial_state();
    state = loop_step(state, LoopEvent::CycleStart);
    assert_eq!(state, LoopState::Sampling);

    let mut bus = MockBus::new(vec![], vec![0x80, 0x00, 0x40, 0x00]);
    let reading = sample(&mut bus).unwrap();
    let celsius = reading.temperature.ticks as f64 / 65536.0;
    let percent = reading.humidity.ticks as f64 / 65536.0;
    assert_eq!(celsius, 32768.0 / 65536.0 * 165.0 - 40.0);
    assert_eq!(celsius, 42.5);
    assert_eq!(percent, 16384.0 / 65536.0 * 100.0);
    assert_eq!(percent, 25.0);

    state = loop_step(state, LoopEvent::SampleSucceeded(reading));
    assert_eq!(state, LoopState::Publishing(reading));

    let timestamp = nanos_from_seconds(1700000000).unwrap();
    let mut sink = MockSink::new(vec![]);
    let r = publish(&mut sink, &reading, timestamp, influx_db_endpoint(), influx_db_name());
    assert_eq!(r, Ok(()));

    let posts = sink.recorded_posts();
    assert_eq!(posts.len(), 2);
    assert_eq!(posts[0].body, "temperature,sensor=hdc1000 value=42.5 1700000000000000000");
    assert_eq!(posts[1].body, "humidity,sensor=hdc1000 value=25 1700000000000000000");

    state = loop_step(state, LoopEvent::PublishSucceeded);
    assert_eq!(state, LoopState::Sleeping);
}

#[test]
fn nanosecond_conversion_is_exact_and_bounded() {
    assert_eq!(nanos_from_seconds(1700000000), Some(1700000000000000000));
    assert_eq!(nanos_from_seconds(0), Some(0));
    assert_eq!(nanos_from_seconds(-1), Some(-1000000000));
    assert_eq!(nanos_from_seconds(9_223_372_036), Some(9_223_372_036_000_000_000));
    assert_eq!(nanos_from_seconds(9_223_372_037), None);
    assert_eq!(nanos_from_seconds(-9_223_372_037), None);
}

#[test]
fn the_current_timestamp_is_whole_seconds() {
    let ts = room_telemetry::clock::get_current_timestamp().unwrap();
    assert_eq!(ts % 1_000_000_000, 0);
    assert!(ts > 0);
}
