//! The polling loop as a finite state machine: sample, publish, sleep,
//! repeat - with failure as a first-class terminal state.

use vstd::prelude::*;
use crate::device::Reading;
use crate::errors::CheckError;

verus! {

/// Seconds slept between cycles, measured from the start of sleeping; the
/// cycle period is this plus the cycle's own latency, not a fixed-rate
/// clock.
pub const SLEEP_SECONDS: u64 = 60;

/// The states of the polling loop.
#[derive(Clone, Copy, Debug, PartialEq, Eq, Structural)]
pub enum LoopState {
    /// Entered once at startup.
    Idle,
    /// A sampling attempt is in progress.
    Sampling,
    /// A reading was produced and is being published.
    Publishing(Reading),
    /// The inter-cycle sleep is in progress.
    Sleeping,
    /// Terminal: the failure is reported and the process exits non-zero.
    Failed(CheckError),
}

/// What happened in the world since the last transition.
#[derive(Clone, Copy, Debug, PartialEq, Eq, Structural)]
pub enum LoopEvent {
    /// Startup is complete; begin the first cycle.
    CycleStart,
    /// Sampling produced a reading.
    SampleSucceeded(Reading),
    /// Sampling failed at some protocol step.
    SampleFailed(CheckError),
    /// Both metric posts were delivered.
    PublishSucceeded,
    /// A metric post failed.
    PublishFailed(CheckError),
    /// The inter-cycle sleep has elapsed.
    SleepElapsed,
}

/// The transition function of the loop. An event that does not belong to
/// the current state leaves the state unchanged; a failure event moves to
/// Failed, which absorbs every event.
pub open spec fn spec_loop_step(state: LoopState, event: LoopEvent) -> LoopState {
    match state {
        LoopState::Failed(e) => LoopState::Failed(e),
        LoopState::Idle => match event {
            LoopEvent::CycleStart => LoopState::Sampling,
            _ => state,
        },
        LoopState::Sleeping => match event {
            LoopEvent::SleepElapsed => LoopState::Sampling,
            _ => state,
        },
        LoopState::Sampling => match event {
            LoopEvent::SampleSucceeded(reading) => LoopState::Publishing(reading),
            LoopEvent::SampleFailed(e) => LoopState::Failed(e),
            _ => state,
        },
        LoopState::Publishing(_) => match event {
            LoopEvent::PublishSucceeded => LoopState::Sleeping,
            LoopEvent::PublishFailed(e) => LoopState::Failed(e),
            _ => state,
        },
    }
}

/// The state the loop is in at startup.
pub fn initial_state() -> (r: LoopState)
    ensures
        r == LoopState::Idle,
{
    LoopState::Idle
}

/// Advance the loop by one event.
pub fn loop_step(state: LoopState, event: LoopEvent) -> (r: LoopState)
    ensures
        r == spec_loop_step(state, event),
{
    match state {
        LoopState::Failed(e) => LoopState::Failed(e),
        LoopState::Idle => match event {
            LoopEvent::CycleStart => LoopState::Sampling,
            _ => state,
        },
        LoopState::Sleeping => match event {
            LoopEvent::SleepElapsed => LoopState::Sampling,
            _ => state,
        },
        LoopState::Sampling => match event {
            LoopEvent::SampleSucceeded(reading) => LoopState::Publishing(reading),
            LoopEvent::SampleFailed(e) => LoopState::Failed(e),
            _ => state,
        },
        LoopState::Publishing(_) => match event {
            LoopEvent::PublishSucceeded => LoopState::Sleeping,
            LoopEvent::PublishFailed(e) => LoopState::Failed(e),
            _ => state,
        },
    }
}

/// Law: Failed is terminal. Once the loop has failed, no event leads
/// anywhere else, so no further cycle ever occurs.
pub proof fn lemma_failed_terminal(e: CheckError, event: LoopEvent)
    ensures
        spec_loop_step(LoopState::Failed(e), event) == LoopState::Failed(e),
{
}

/// Law: the loop reaches Failed only from Sampling or Publishing, and only
/// through that stage's own failure event.
pub proof fn lemma_failure_sources(state: LoopState, event: LoopEvent, e: CheckError)
    requires
        spec_loop_step(state, event) == LoopState::Failed(e),
        !(state is Failed),
    ensures
        (state is Sampling && event == LoopEvent::SampleFailed(e)) || (state is Publishing
            && event == LoopEvent::PublishFailed(e)),
{
}

} // verus!
