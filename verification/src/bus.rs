//! The register-bus capability: the narrow contract the sensor protocol
//! depends on, and a scriptable in-memory bus for exercising it.
//!
//! A bus keeps a ghost log of every interaction. The protocol's guarantees
//! are stated over that log, so any implementation that honours the method
//! contracts below - a hardware adapter as well as the in-memory bus here -
//! gets the same verified protocol behaviour.

use vstd::prelude::*;

verus! {

/// Which logical stage a bus write belongs to, so failures can be attributed.
#[derive(Clone, Copy, Debug, PartialEq, Eq, Structural)]
pub enum WriteStage {
    /// Writing the device's configuration register.
    Configuration,
    /// Writing the byte that triggers a conversion.
    ConversionTrigger,
}

/// One bus interaction, as it appears in the ghost log: what was attempted,
/// and how it went.
pub enum BusOp {
    /// An attempt to open the bus device.
    Open { ok: bool },
    /// An attempt to bind the session to a device address.
    Select { address: u8, ok: bool },
    /// An attempt to write raw bytes, tagged with its logical stage.
    Write { bytes: Seq<u8>, stage: WriteStage, ok: bool },
    /// A blocking wait.
    Wait { millis: u64 },
    /// An attempt to read exactly `count` bytes; `data` holds what arrived,
    /// or nothing on failure (a short read is a failure, never a partial
    /// success).
    Read { count: usize, data: Option<Seq<u8>> },
}

/// The ghost form of what a read handed back.
pub open spec fn spec_read_data(data: Option<Vec<u8>>) -> Option<Seq<u8>> {
    match data {
        Some(bytes) => Some(bytes@),
        None => None,
    }
}

/// An open session to a register-addressable bus.
///
/// Every method appends exactly one [`BusOp`] to the ghost log and touches
/// nothing already logged, so a caller can account for each interaction.
pub trait RegisterBus {
    /// The ghost log of every interaction so far. The default body keeps
    /// the log constantly empty, which no verified implementation can
    /// square with the method contracts below; it exists only so that
    /// adapters outside the verifier's view need not provide a log.
    open spec fn log(&self) -> Seq<BusOp> {
        Seq::empty()
    }

    /// Acquire the bus device; all later operations go through it.
    fn open(&mut self) -> (ok: bool)
        ensures
            final(self).log() == old(self).log().push(BusOp::Open { ok }),
    ;

    /// Bind subsequent reads and writes to the given 7-bit device address.
    fn select(&mut self, address: u8) -> (ok: bool)
        ensures
            final(self).log() == old(self).log().push(BusOp::Select { address, ok }),
    ;

    /// Write raw bytes to the selected device.
    fn write(&mut self, bytes: &Vec<u8>, stage: WriteStage) -> (ok: bool)
        ensures
            final(self).log() == old(self).log().push(
                BusOp::Write { bytes: bytes@, stage, ok },
            ),
    ;

    /// Block the calling thread for at least the given number of
    /// milliseconds.
    fn wait_millis(&mut self, millis: u64)
        ensures
            final(self).log() == old(self).log().push(BusOp::Wait { millis }),
    ;

    /// Read exactly `count` bytes; anything short is a failure.
    fn read(&mut self, count: usize) -> (data: Option<Vec<u8>>)
        ensures
            final(self).log() == old(self).log().push(
                BusOp::Read { count, data: spec_read_data(data) },
            ),
            data matches Some(bytes) ==> bytes@.len() == count,
    ;
}

/// One bus interaction as plain data, so callers can inspect what an
/// in-memory bus saw.
#[derive(Debug, PartialEq, Eq)]
pub enum RecordedOp {
    Open { ok: bool },
    Select { address: u8, ok: bool },
    Write { bytes: Vec<u8>, stage: WriteStage, ok: bool },
    Wait { millis: u64 },
    Read { count: usize, data: Option<Vec<u8>> },
}

impl View for RecordedOp {
    type V = BusOp;

    open spec fn view(&self) -> BusOp {
        match self {
            RecordedOp::Open { ok } => BusOp::Open { ok: *ok },
            RecordedOp::Select { address, ok } => BusOp::Select {
                address: *address,
                ok: *ok,
            },
            RecordedOp::Write { bytes, stage, ok } => BusOp::Write {
                bytes: bytes@,
                stage: *stage,
                ok: *ok,
            },
            RecordedOp::Wait { millis } => BusOp::Wait { millis: *millis },
            RecordedOp::Read { count, data } => BusOp::Read {
                count: *count,
                data: match data {
                    Some(bytes) => Some(bytes@),
                    None => None,
                },
            },
        }
    }
}

/// The ghost log corresponding to a sequence of recorded operations.
pub open spec fn log_of(ops: Seq<RecordedOp>) -> Seq<BusOp> {
    ops.map_values(|op: RecordedOp| op@)
}

proof fn lemma_log_push(ops: Seq<RecordedOp>, op: RecordedOp)
    ensures
        log_of(ops.push(op)) == log_of(ops).push(op@),
{
    assert(log_of(ops.push(op)) =~= log_of(ops).push(op@));
}

/// A byte-for-byte copy of a vector.
fn copy_bytes(src: &Vec<u8>) -> (r: Vec<u8>)
    ensures
        r@ == src@,
{
    let mut out: Vec<u8> = Vec::new();
    let mut i: usize = 0;
    while i < src.len()
        invariant
            i <= src@.len(),
            out@ == src@.subrange(0, i as int),
        decreases src@.len() - i,
    {
        out.push(src[i]);
        i = i + 1;
        proof {
            assert(out@ =~= src@.subrange(0, i as int));
        }
    }
    proof {
        assert(out@ =~= src@);
    }
    out
}

/// An in-memory [`RegisterBus`]: it answers each operation from a script of
/// outcomes, hands a fixed byte response to reads, and records everything.
pub struct MockBus {
    outcomes: Vec<bool>,
    next: usize,
    response: Vec<u8>,
    recorded: Vec<RecordedOp>,
}

impl MockBus {
    /// A bus that answers the k-th operation with the k-th scripted outcome
    /// (operations beyond the script succeed) and answers a successful read
    /// with `response`, failing the read instead if the requested count
    /// differs from the response's length.
    pub fn new(outcomes: Vec<bool>, response: Vec<u8>) -> (r: MockBus)
        ensures
            r.log() == Seq::<BusOp>::empty(),
    {
        let r = MockBus { outcomes, next: 0, response, recorded: Vec::new() };
        proof {
            assert(r.log() =~= Seq::<BusOp>::empty());
        }
        r
    }

    /// The operations performed on this bus, oldest first.
    pub fn recorded_ops(&self) -> (r: &Vec<RecordedOp>)
        ensures
            log_of(r@) == self.log(),
    {
        &self.recorded
    }

    /// Consume the next scripted outcome; success once the script runs out.
    fn take_outcome(&mut self) -> (ok: bool)
        ensures
            final(self).recorded == old(self).recorded,
            final(self).outcomes == old(self).outcomes,
            final(self).response == old(self).response,
    {
        if self.next < self.outcomes.len() {
            let ok = self.outcomes[self.next];
            self.next = self.next + 1;
            ok
        } else {
            true
        }
    }
}

impl RegisterBus for MockBus {
    closed spec fn log(&self) -> Seq<BusOp> {
        log_of(self.recorded@)
    }

    fn open(&mut self) -> (ok: bool)
        ensures
            final(self).log() == old(self).log().push(BusOp::Open { ok }),
    {
        let ok = self.take_outcome();
        let ghost before = self.recorded@;
        self.recorded.push(RecordedOp::Open { ok });
        proof {
            lemma_log_push(before, RecordedOp::Open { ok });
        }
        ok
    }

    fn select(&mut self, address: u8) -> (ok: bool)
        ensures
            final(self).log() == old(self).log().push(BusOp::Select { address, ok }),
    {
        let ok = self.take_outcome();
        let ghost before = self.recorded@;
        self.recorded.push(RecordedOp::Select { address, ok });
        proof {
            lemma_log_push(before, RecordedOp::Select { address, ok });
        }
        ok
    }

    fn write(&mut self, bytes: &Vec<u8>, stage: WriteStage) -> (ok: bool)
        ensures
            final(self).log() == old(self).log().push(
                BusOp::Write { bytes: bytes@, stage, ok },
            ),
    {
        let ok = self.take_outcome();
        let copy = copy_bytes(bytes);
        let ghost before = self.recorded@;
        self.recorded.push(RecordedOp::Write { bytes: copy, stage, ok });
        proof {
            lemma_log_push(before, RecordedOp::Write { bytes: copy, stage, ok });
        }
        ok
    }

    fn wait_millis(&mut self, millis: u64)
        ensures
            final(self).log() == old(self).log().push(BusOp::Wait { millis }),
    {
        let ghost before = self.recorded@;
        self.recorded.push(RecordedOp::Wait { millis });
        proof {
            lemma_log_push(before, RecordedOp::Wait { millis });
        }
    }

    fn read(&mut self, count: usize) -> (data: Option<Vec<u8>>)
        ensures
            final(self).log() == old(self).log().push(
                BusOp::Read { count, data: spec_read_data(data) },
            ),
            data matches Some(bytes) ==> bytes@.len() == count,
    {
        let ok = self.take_outcome();
        let data: Option<Vec<u8>> = if ok && self.response.len() == count {
            Some(copy_bytes(&self.response))
        } else {
            None
        };
        let record_data: Option<Vec<u8>> = match &data {
            Some(bytes) => Some(copy_bytes(bytes)),
            None => None,
        };
        let ghost before = self.recorded@;
        self.recorded.push(RecordedOp::Read { count, data: record_data });
        proof {
            lemma_log_push(before, RecordedOp::Read { count, data: record_data });
        }
        data
    }
}

} // verus!
