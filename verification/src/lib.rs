//! Driver and telemetry pipeline for an HDC1000 humidity/temperature sensor.
//!
//! The library covers the register-level protocol that produces one
//! temperature/humidity pair, the fixed-point decoding of the device's raw
//! codes, the line-protocol encoding of the readings, the two-request
//! publishing step, and the polling state machine that ties them together.
//! Hardware access and HTTP transport are capabilities supplied by the
//! caller; every decision the pipeline makes is verified here.

pub mod bus;
pub mod clock;
pub mod cycle;
pub mod device;
pub mod driver;
pub mod encode;
pub mod errors;
pub mod publish;
pub mod text;
