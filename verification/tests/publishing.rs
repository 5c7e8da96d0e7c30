use room_telemetry::device::Reading;
use room_telemetry::errors::CheckError;
use room_telemetry::publish::{
    humidity_series, influx_db_endpoint, influx_db_name, publish, temperature_series, MockSink,
};
use room_telemetry::text::FixedValue;

fn reading() -> Reading {
    Reading {
        temperature: FixedValue { ticks: 42 * 65536 + 32768 },
        humidity: FixedValue { ticks: 25 * 65536 },
    }
}

#[test]
fn publish_posts_both_series_to_the_write_endpoint() {
    let mut sink = MockSink::new(vec![]);
    let r = publish(
        &mut sink,
        &reading(),
        1700000000000000000,
        influx_db_endpoint(),
        influx_db_name(),
    );
    assert_eq!(r, Ok(()));
    let posts = sink.recorded_posts();
    assert_eq!(posts.len(), 2);
    assert_eq!(posts[0].url, "http://localhost:8086/write?db=myroom");
    assert_eq!(posts[1].url, "http://localhost:8086/write?db=myroom");
    assert_eq!(posts[0].body, "temperature,sensor=hdc1000 value=42.5 1700000000000000000");
    assert_eq!(posts[1].body, "humidity,sensor=hdc1000 value=25 1700000000000000000");
    assert!(posts[0].ok);
    assert!(posts[1].ok);
}

#[test]
fn partial_failure_still_fails_the_cycle() {
    let mut sink = MockSink::new(vec![true, false]);
    let r = publish(&mut sink, &reading(), 1700000000000000000, "localhost:8086", "myroom");
    assert_eq!(r, Err(CheckError::SendInfluxDB));
    let posts = sink.recorded_posts();
    assert_eq!(posts.len(), 2);
    assert!(posts[0].ok);
    assert!(posts[0].body.starts_with("temperature,"));
    assert!(!posts[1].ok);
    assert!(posts[1].body.starts_with("humidity,"));
}

#[test]
fn first_post_failure_skips_the_second() {
    let mut sink = MockSink::new(vec![false]);
    let r = publish(&mut sink, &reading(), 1700000000000000000, "localhost:8086", "myroom");
    assert_eq!(r, Err(CheckError::SendInfluxDB));
    let posts = sink.recorded_posts();
    assert_eq!(posts.len(), 1);
    assert!(!posts[0].ok);
    assert!(posts[0].body.starts_with("temperature,"));
}

#[test]
fn series_names_are_fixed() {
    assert_eq!(temperature_series(), "temperature");
    assert_eq!(humidity_series(), "humidity");
}
