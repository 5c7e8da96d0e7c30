use room_telemetry::cycle::{initial_state, loop_step, LoopEvent, LoopState, SLEEP_SECONDS};
use room_telemetry::device::Reading;
use room_telemetry::errors::CheckError;
use room_telemetry::text::FixedValue;

fn reading() -> Reading {
    Reading {
        temperature: FixedValue { ticks: 42 * 65536 + 32768 },
        humidity: FixedValue { ticks: 25 * 65536 },
    }
}

fn every_event() -> Vec<LoopEvent> {
    vec![
        LoopEvent::CycleStart,
        LoopEvent::SampleSucceeded(reading()),
        LoopEvent::SampleFailed(CheckError::Setup),
        LoopEvent::PublishSucceeded,
        LoopEvent::PublishFailed(CheckError::SendInfluxDB),
        LoopEvent::SleepElapsed,
    ]
}

#[test]
fn the_success_path_cycles_through_all_states() {
    let s0 = initial_state();
    assert_eq!(s0, LoopState::Idle);
    let s1 = loop_step(s0, LoopEvent::CycleStart);
    assert_eq!(s1, LoopState::Sampling);
    let s2 = loop_step(s1, LoopEvent::SampleSucceeded(reading()));
    assert_eq!(s2, LoopState::Publishing(reading()));
    let s3 = loop_step(s2, LoopEvent::PublishSucceeded);
    assert_eq!(s3, LoopState::Sleeping);
    let s4 = loop_step(s3, LoopEvent::SleepElapsed);
    assert_eq!(s4, LoopState::Sampling);
}

#[test]
fn sampling_failure_terminates_the_loop() {
    let s = loop_step(LoopState::Sampling, LoopEvent::SampleFailed(CheckError::ReadResult));
    assert_eq!(s, LoopState::Failed(CheckError::ReadResult));
}

#[test]
fn publishing_failure_terminates_the_loop() {
    let s = loop_step(
        LoopState::Publishing(reading()),
        LoopEvent::PublishFailed(CheckError::SendInfluxDB),
    );
    assert_eq!(s, LoopState::Failed(CheckError::SendInfluxDB));
}

#[test]
fn failed_absorbs_every_event() {
    for event in every_event() {
        let s = loop_step(LoopState::Failed(CheckError::Ioctl), event);
        assert_eq!(s, LoopState::Failed(CheckError::Ioctl));
    }
}

#[test]
fn foreign_events_leave_the_state_alone() {
    assert_eq!(loop_step(LoopState::Idle, LoopEvent::PublishSucceeded), LoopState::Idle);
    assert_eq!(loop_step(LoopState::Sleeping, LoopEvent::CycleStart), LoopState::Sleeping);
    assert_eq!(
        loop_step(LoopState::Sampling, LoopEvent::SleepElapsed),
        LoopState::Sampling
    );
}

#[test]
fn the_sleep_interval_is_a_minute() {
    assert_eq!(SLEEP_SECONDS, 60);
}

#[test]
fn error_kinds_describe_themselves() {
    assert_eq!(CheckError::OpenDevice.describe(), "OpenDevice");
    assert_eq!(CheckError::Ioctl.describe(), "Ioctl");
    assert_eq!(CheckError::Setup.describe(), "Setup");
    assert_eq!(CheckError::RequestConversion.describe(), "RequestConversion");
    assert_eq!(CheckError::ReadResult.describe(), "ReadResult");
    assert_eq!(CheckError::SendInfluxDB.describe(), "SendInfluxDB");
}
