//! The sensor driver: the fixed four-step protocol that produces one
//! temperature/humidity pair, stated and proved over the bus's ghost log.

use vstd::prelude::*;
use crate::bus::{BusOp, RegisterBus, WriteStage};
use crate::device::{
    config_bytes, decode, raw_sample_of, spec_config_bytes, spec_reading_of, spec_trigger_bytes,
    trigger_bytes, Reading, CONVERSION_WAIT_MILLIS, I2C_ADDR, RESULT_LEN,
};
use crate::errors::CheckError;

verus! {

/// The bus interactions of one fully successful sampling cycle, ending in
/// the 4-byte result `data`: select, configuration write, trigger write,
/// conversion wait, result read - in that exact order.
pub open spec fn spec_success_ops(data: Seq<u8>) -> Seq<BusOp> {
    seq![
        BusOp::Open { ok: true },
        BusOp::Select { address: I2C_ADDR, ok: true },
        BusOp::Write { bytes: spec_config_bytes(), stage: WriteStage::Configuration, ok: true },
        BusOp::Write {
            bytes: spec_trigger_bytes(),
            stage: WriteStage::ConversionTrigger,
            ok: true,
        },
        BusOp::Wait { millis: CONVERSION_WAIT_MILLIS },
        BusOp::Read { count: RESULT_LEN, data: Some(data) },
    ]
}

/// Everything `sample` guarantees about its result and about what it did to
/// the bus, given the log before (`pre`) and after (`post`) the call: each
/// error kind comes exactly from its own protocol step, the first failure
/// aborts the cycle, and a success decodes the bytes the read returned.
pub open spec fn spec_sample_post(
    pre: Seq<BusOp>,
    post: Seq<BusOp>,
    r: Result<Reading, CheckError>,
) -> bool {
    match r {
        Ok(reading) => exists|data: Seq<u8>|
            data.len() == 4 && post == pre + spec_success_ops(data) && reading
                == spec_reading_of(data),
        Err(e) => match e {
            CheckError::OpenDevice => post == pre + seq![BusOp::Open { ok: false }],
            CheckError::Ioctl => post == pre + seq![
                BusOp::Open { ok: true },
                BusOp::Select { address: I2C_ADDR, ok: false },
            ],
            CheckError::Setup => post == pre + seq![
                BusOp::Open { ok: true },
                BusOp::Select { address: I2C_ADDR, ok: true },
                BusOp::Write {
                    bytes: spec_config_bytes(),
                    stage: WriteStage::Configuration,
                    ok: false,
                },
            ],
            CheckError::RequestConversion => post == pre + seq![
                BusOp::Open { ok: true },
                BusOp::Select { address: I2C_ADDR, ok: true },
                BusOp::Write {
                    bytes: spec_config_bytes(),
                    stage: WriteStage::Configuration,
                    ok: true,
                },
                BusOp::Write {
                    bytes: spec_trigger_bytes(),
                    stage: WriteStage::ConversionTrigger,
                    ok: false,
                },
            ],
            CheckError::ReadResult => post == pre + seq![
                BusOp::Open { ok: true },
                BusOp::Select { address: I2C_ADDR, ok: true },
                BusOp::Write {
                    bytes: spec_config_bytes(),
                    stage: WriteStage::Configuration,
                    ok: true,
                },
                BusOp::Write {
                    bytes: spec_trigger_bytes(),
                    stage: WriteStage::ConversionTrigger,
                    ok: true,
                },
                BusOp::Wait { millis: CONVERSION_WAIT_MILLIS },
                BusOp::Read { count: RESULT_LEN, data: None },
            ],
            CheckError::SendInfluxDB => false,
        },
    }
}

/// Execute the device's four-step protocol once: open and select the sensor,
/// write the configuration register, trigger a conversion, wait out the
/// conversion time, read and decode the 4-byte result. The first failure
/// aborts the call with that step's error kind; no step is retried.
pub fn sample<B: RegisterBus>(bus: &mut B) -> (r: Result<Reading, CheckError>)
    ensures
        spec_sample_post(old(bus).log(), final(bus).log(), r),
{
    let ghost pre = bus.log();
    if !bus.open() {
        proof {
            assert(bus.log() =~= pre + seq![BusOp::Open { ok: false }]);
        }
        return Err(CheckError::OpenDevice);
    }
    if !bus.select(I2C_ADDR) {
        proof {
            assert(bus.log() =~= pre + seq![
                BusOp::Open { ok: true },
                BusOp::Select { address: I2C_ADDR, ok: false },
            ]);
        }
        return Err(CheckError::Ioctl);
    }
    let configuration = config_bytes();
    if !bus.write(&configuration, WriteStage::Configuration) {
        proof {
            assert(bus.log() =~= pre + seq![
                BusOp::Open { ok: true },
                BusOp::Select { address: I2C_ADDR, ok: true },
                BusOp::Write {
                    bytes: spec_config_bytes(),
                    stage: WriteStage::Configuration,
                    ok: false,
                },
            ]);
        }
        return Err(CheckError::Setup);
    }
    let trigger = trigger_bytes();
    if !bus.write(&trigger, WriteStage::ConversionTrigger) {
        proof {
            assert(bus.log() =~= pre + seq![
                BusOp::Open { ok: true },
                BusOp::Select { address: I2C_ADDR, ok: true },
                BusOp::Write {
                    bytes: spec_config_bytes(),
                    stage: WriteStage::Configuration,
                    ok: true,
                },
                BusOp::Write {
                    bytes: spec_trigger_bytes(),
                    stage: WriteStage::ConversionTrigger,
                    ok: false,
                },
            ]);
        }
        return Err(CheckError::RequestConversion);
    }
    bus.wait_millis(CONVERSION_WAIT_MILLIS);
    let data = match bus.read(RESULT_LEN) {
        Some(data) => data,
        None => {
            proof {
                assert(bus.log() =~= pre + seq![
                    BusOp::Open { ok: true },
                    BusOp::Select { address: I2C_ADDR, ok: true },
                    BusOp::Write {
                        bytes: spec_config_bytes(),
                        stage: WriteStage::Configuration,
                        ok: true,
                    },
                    BusOp::Write {
                        bytes: spec_trigger_bytes(),
                        stage: WriteStage::ConversionTrigger,
                        ok: true,
                    },
                    BusOp::Wait { millis: CONVERSION_WAIT_MILLIS },
                    BusOp::Read { count: RESULT_LEN, data: None },
                ]);
            }
            return Err(CheckError::ReadResult);
        },
    };
    let raw = raw_sample_of(&data);
    let reading = decode(raw);
    proof {
        assert(bus.log() =~= pre + spec_success_ops(data@));
        assert(data@.len() == 4 && bus.log() == pre + spec_success_ops(data@) && reading
            == spec_reading_of(data@));
    }
    Ok(reading)
}

/// Law: a successful sample performed open, select, the 3-byte configuration
/// write, the 1-byte trigger write, the conversion wait, and the 4-byte read
/// - exactly these, in exactly this order - and its reading decodes the bytes
/// that the read returned.
pub proof fn lemma_protocol_ordering(pre: Seq<BusOp>, post: Seq<BusOp>, reading: Reading)
    requires
        spec_sample_post(pre, post, Ok(reading)),
    ensures
        post.len() == pre.len() + 6,
        post.subrange(0, pre.len() as int) == pre,
        post[pre.len() as int] == (BusOp::Open { ok: true }),
        post[pre.len() as int + 1] == (BusOp::Select { address: I2C_ADDR, ok: true }),
        post[pre.len() as int + 2] == (BusOp::Write {
            bytes: spec_config_bytes(),
            stage: WriteStage::Configuration,
            ok: true,
        }),
        post[pre.len() as int + 3] == (BusOp::Write {
            bytes: spec_trigger_bytes(),
            stage: WriteStage::ConversionTrigger,
            ok: true,
        }),
        post[pre.len() as int + 4] == (BusOp::Wait { millis: CONVERSION_WAIT_MILLIS }),
        ({
            &&& post[pre.len() as int + 5] matches BusOp::Read { count, data }
            &&& count == RESULT_LEN
            &&& data matches Some(bytes)
            &&& bytes.len() == 4
            &&& reading == spec_reading_of(bytes)
        }),
{
    let data = choose|data: Seq<u8>|
        data.len() == 4 && post == pre + spec_success_ops(data) && reading
            == spec_reading_of(data);
    assert(post.subrange(0, pre.len() as int) =~= pre);
}

/// Law: when the configuration write is the step that fails, the whole cycle
/// fails as Setup, and the driver attempted no conversion trigger, no wait,
/// and no read after it.
pub proof fn lemma_setup_failure_isolation(pre: Seq<BusOp>, post: Seq<BusOp>)
    requires
        spec_sample_post(pre, post, Err(CheckError::Setup)),
    ensures
        post.len() == pre.len() + 3,
        post.subrange(0, pre.len() as int) == pre,
        post[pre.len() as int + 2] == (BusOp::Write {
            bytes: spec_config_bytes(),
            stage: WriteStage::Configuration,
            ok: false,
        }),
        forall|i: int|
            pre.len() <= i < post.len() ==> !((#[trigger] post[i]) matches BusOp::Write {
                stage: WriteStage::ConversionTrigger,
                ..
            }),
        forall|i: int|
            pre.len() <= i < post.len() ==> !((#[trigger] post[i]) matches BusOp::Read { .. }),
        forall|i: int|
            pre.len() <= i < post.len() ==> !((#[trigger] post[i]) matches BusOp::Wait { .. }),
{
    assert(post.subrange(0, pre.len() as int) =~= pre);
}

} // verus!
