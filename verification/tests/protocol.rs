use room_telemetry::bus::{MockBus, RecordedOp, WriteStage};
use room_telemetry::driver::sample;
use room_telemetry::errors::CheckError;

fn result_bytes() -> Vec<u8> {
    vec![0x80, 0x00, 0x40, 0x00]
}

#[test]
fn sample_performs_the_protocol_in_order() {
    let mut bus = MockBus::new(vec![], result_bytes());
    let reading = sample(&mut bus).unwrap();
    assert_eq!(reading.temperature.ticks as f64 / 65536.0, 42.5);
    assert_eq!(reading.humidity.ticks as f64 / 65536.0, 25.0);

    let ops = bus.recorded_ops();
    assert_eq!(ops.len(), 6);
    assert_eq!(ops[0], RecordedOp::Open { ok: true });
    assert_eq!(ops[1], RecordedOp::Select { address: 0x40, ok: true });
    assert_eq!(
        ops[2],
        RecordedOp::Write {
            bytes: vec![0x02, 0x10, 0x00],
            stage: WriteStage::Configuration,
            ok: true,
        }
    );
    assert_eq!(
        ops[3],
        RecordedOp::Write {
            bytes: vec![0x00],
            stage: WriteStage::ConversionTrigger,
            ok: true,
        }
    );
    assert_eq!(ops[4], RecordedOp::Wait { millis: 13 });
    assert_eq!(
        ops[5],
        RecordedOp::Read { count: 4, data: Some(result_bytes()) }
    );
}

#[test]
fn configuration_write_failure_is_setup_and_stops_the_protocol() {
    let mut bus = MockBus::new(vec![true, true, false], result_bytes());
    let r = sample(&mut bus);
    assert_eq!(r, Err(CheckError::Setup));

    let ops = bus.recorded_ops();
    assert_eq!(ops.len(), 3);
    assert_eq!(
        ops[2],
        RecordedOp::Write {
            bytes: vec![0x02, 0x10, 0x00],
            stage: WriteStage::Configuration,
            ok: false,
        }
    );
    for op in ops.iter() {
        assert!(!matches!(
            op,
            RecordedOp::Write { stage: WriteStage::ConversionTrigger, .. }
        ));
        assert!(!matches!(op, RecordedOp::Read { .. }));
        assert!(!matches!(op, RecordedOp::Wait { .. }));
    }
}

#[test]
fn open_failure_is_open_device() {
    let mut bus = MockBus::new(vec![false], result_bytes());
    assert_eq!(sample(&mut bus), Err(CheckError::OpenDevice));
    assert_eq!(bus.recorded_ops().len(), 1);
}

#[test]
fn select_failure_is_ioctl() {
    let mut bus = MockBus::new(vec![true, false], result_bytes());
    assert_eq!(sample(&mut bus), Err(CheckError::Ioctl));
    assert_eq!(bus.recorded_ops().len(), 2);
}

#[test]
fn trigger_write_failure_is_request_conversion() {
    let mut bus = MockBus::new(vec![true, true, true, false], result_bytes());
    assert_eq!(sample(&mut bus), Err(CheckError::RequestConversion));
    let ops = bus.recorded_ops();
    assert_eq!(ops.len(), 4);
    assert_eq!(
        ops[3],
        RecordedOp::Write {
            bytes: vec![0x00],
            stage: WriteStage::ConversionTrigger,
            ok: false,
        }
    );
}

#[test]
fn read_failure_is_read_result() {
    let mut bus = MockBus::new(vec![true, true, true, true, false], result_bytes());
    assert_eq!(sample(&mut bus), Err(CheckError::ReadResult));
    let ops = bus.recorded_ops();
    assert_eq!(ops.len(), 6);
    assert_eq!(ops[5], RecordedOp::Read { count: 4, data: None });
}

#[test]
fn short_read_is_read_result() {
    let mut bus = MockBus::new(vec![], vec![0x80, 0x00, 0x40]);
    assert_eq!(sample(&mut bus), Err(CheckError::ReadResult));
}
