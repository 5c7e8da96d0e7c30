//! The telemetry publisher: two independent posts per cycle, one per metric
//! series, with the partial-failure behaviour stated over the sink's ghost
//! log.

use vstd::prelude::*;
use vstd::string::StringExecFns;
use crate::device::Reading;
use crate::encode::{encode, spec_encode, spec_write_url, write_url};
use crate::errors::CheckError;

verus! {

/// One attempted metric post, as it appears in the ghost log.
pub struct PostOp {
    pub url: Seq<char>,
    pub body: Seq<char>,
    pub ok: bool,
}

/// A transport capable of one POST-with-body at a time. Every call appends
/// exactly one [`PostOp`] to the ghost log.
pub trait MetricSink {
    /// The ghost log of every post attempted so far. The default body keeps
    /// the log constantly empty, which no verified implementation can
    /// square with the method contract below; it exists only so that
    /// adapters outside the verifier's view need not provide a log.
    open spec fn log(&self) -> Seq<PostOp> {
        Seq::empty()
    }

    /// POST `body` to `url`; any transport-level failure, a non-success
    /// response included, comes back as `false`.
    fn post(&mut self, url: &str, body: &str) -> (ok: bool)
        ensures
            final(self).log() == old(self).log().push(PostOp { url: url@, body: body@, ok }),
    ;
}

/// The fixed name of the remote time-series database.
pub fn influx_db_name() -> (r: &'static str)
    ensures
        r@ == "myroom"@,
{
    "myroom"
}

/// The fixed host and port of the remote write endpoint.
pub fn influx_db_endpoint() -> (r: &'static str)
    ensures
        r@ == "localhost:8086"@,
{
    "localhost:8086"
}

/// The name of the temperature series.
pub fn temperature_series() -> (r: &'static str)
    ensures
        r@ == "temperature"@,
{
    "temperature"
}

/// The name of the humidity series.
pub fn humidity_series() -> (r: &'static str)
    ensures
        r@ == "humidity"@,
{
    "humidity"
}

/// Everything `publish` guarantees of the sink's log and its result, given a
/// reading, the shared timestamp, and the endpoint and database: the
/// temperature record is posted first; the humidity record is posted only
/// when the temperature post succeeded; either failure surfaces as
/// SendInfluxDB and ends the cycle. A success of the first post followed by
/// a failure of the second means the temperature metric was already
/// delivered even though the cycle failed - the accepted partial-failure
/// case.
pub open spec fn spec_publish_post(
    pre: Seq<PostOp>,
    post: Seq<PostOp>,
    reading: Reading,
    timestamp: int,
    endpoint: Seq<char>,
    database: Seq<char>,
    r: Result<(), CheckError>,
) -> bool {
    let url = spec_write_url(endpoint, database);
    let temperature_body = spec_encode("temperature"@, reading.temperature.ticks as int, timestamp);
    let humidity_body = spec_encode("humidity"@, reading.humidity.ticks as int, timestamp);
    match r {
        Ok(()) => post == pre + seq![
            PostOp { url, body: temperature_body, ok: true },
            PostOp { url, body: humidity_body, ok: true },
        ],
        Err(e) => e == CheckError::SendInfluxDB && (post == pre + seq![
            PostOp { url, body: temperature_body, ok: false },
        ] || post == pre + seq![
            PostOp { url, body: temperature_body, ok: true },
            PostOp { url, body: humidity_body, ok: false },
        ]),
    }
}

/// Publish one reading: encode both series with one shared timestamp and
/// post them one after the other to `http://<endpoint>/write?db=<database>`.
/// The two posts are not transactional; the first failure aborts the rest of
/// the cycle.
pub fn publish<S: MetricSink>(
    sink: &mut S,
    reading: &Reading,
    timestamp: i64,
    endpoint: &str,
    database: &str,
) -> (r: Result<(), CheckError>)
    ensures
        spec_publish_post(
            old(sink).log(),
            final(sink).log(),
            *reading,
            timestamp as int,
            endpoint@,
            database@,
            r,
        ),
{
    let ghost pre = sink.log();
    let url = write_url(endpoint, database);
    let temperature_body = encode(temperature_series(), reading.temperature, timestamp);
    let humidity_body = encode(humidity_series(), reading.humidity, timestamp);
    if !sink.post(url.as_str(), temperature_body.as_str()) {
        proof {
            assert(sink.log() =~= pre + seq![
                PostOp {
                    url: spec_write_url(endpoint@, database@),
                    body: spec_encode("temperature"@, reading.temperature.ticks as int, timestamp as int),
                    ok: false,
                },
            ]);
        }
        return Err(CheckError::SendInfluxDB);
    }
    if !sink.post(url.as_str(), humidity_body.as_str()) {
        proof {
            assert(sink.log() =~= pre + seq![
                PostOp {
                    url: spec_write_url(endpoint@, database@),
                    body: spec_encode("temperature"@, reading.temperature.ticks as int, timestamp as int),
                    ok: true,
                },
                PostOp {
                    url: spec_write_url(endpoint@, database@),
                    body: spec_encode("humidity"@, reading.humidity.ticks as int, timestamp as int),
                    ok: false,
                },
            ]);
        }
        return Err(CheckError::SendInfluxDB);
    }
    proof {
        assert(sink.log() =~= pre + seq![
            PostOp {
                url: spec_write_url(endpoint@, database@),
                body: spec_encode("temperature"@, reading.temperature.ticks as int, timestamp as int),
                ok: true,
            },
            PostOp {
                url: spec_write_url(endpoint@, database@),
                body: spec_encode("humidity"@, reading.humidity.ticks as int, timestamp as int),
                ok: true,
            },
        ]);
    }
    Ok(())
}

/// Law: when the temperature post succeeded and the humidity post failed,
/// publish reports SendInfluxDB - the whole cycle fails - although the
/// temperature record was already delivered to the remote side.
pub proof fn lemma_partial_failure(
    pre: Seq<PostOp>,
    post: Seq<PostOp>,
    reading: Reading,
    timestamp: int,
    endpoint: Seq<char>,
    database: Seq<char>,
)
    requires
        spec_publish_post(
            pre,
            post,
            reading,
            timestamp,
            endpoint,
            database,
            Err(CheckError::SendInfluxDB),
        ),
        post.len() == pre.len() + 2,
    ensures
        post[pre.len() as int] == (PostOp {
            url: spec_write_url(endpoint, database),
            body: spec_encode("temperature"@, reading.temperature.ticks as int, timestamp),
            ok: true,
        }),
        post[pre.len() as int + 1] == (PostOp {
            url: spec_write_url(endpoint, database),
            body: spec_encode("humidity"@, reading.humidity.ticks as int, timestamp),
            ok: false,
        }),
{
}

/// A post as plain data, so callers can inspect what an in-memory sink saw.
#[derive(Debug, PartialEq, Eq)]
pub struct RecordedPost {
    pub url: String,
    pub body: String,
    pub ok: bool,
}

impl View for RecordedPost {
    type V = PostOp;

    open spec fn view(&self) -> PostOp {
        PostOp { url: self.url@, body: self.body@, ok: self.ok }
    }
}

/// The ghost log corresponding to a sequence of recorded posts.
pub open spec fn post_log_of(posts: Seq<RecordedPost>) -> Seq<PostOp> {
    posts.map_values(|p: RecordedPost| p@)
}

/// An in-memory [`MetricSink`]: it answers each post from a script of
/// outcomes and records everything.
pub struct MockSink {
    outcomes: Vec<bool>,
    next: usize,
    recorded: Vec<RecordedPost>,
}

impl MockSink {
    /// A sink that answers the k-th post with the k-th scripted outcome;
    /// posts beyond the script succeed.
    pub fn new(outcomes: Vec<bool>) -> (r: MockSink)
        ensures
            r.log() == Seq::<PostOp>::empty(),
    {
        let r = MockSink { outcomes, next: 0, recorded: Vec::new() };
        proof {
            assert(r.log() =~= Seq::<PostOp>::empty());
        }
        r
    }

    /// The posts attempted on this sink, oldest first.
    pub fn recorded_posts(&self) -> (r: &Vec<RecordedPost>)
        ensures
            post_log_of(r@) == self.log(),
    {
        &self.recorded
    }
}

impl MetricSink for MockSink {
    closed spec fn log(&self) -> Seq<PostOp> {
        post_log_of(self.recorded@)
    }

    fn post(&mut self, url: &str, body: &str) -> (ok: bool)
        ensures
            final(self).log() == old(self).log().push(PostOp { url: url@, body: body@, ok }),
    {
        let ok = if self.next < self.outcomes.len() {
            let scripted = self.outcomes[self.next];
            self.next = self.next + 1;
            scripted
        } else {
            true
        };
        let record = RecordedPost { url: String::from_str(url), body: String::from_str(body), ok };
        let ghost before = self.recorded@;
        self.recorded.push(record);
        proof {
            assert(post_log_of(self.recorded@) =~= post_log_of(before).push(
                PostOp { url: url@, body: body@, ok },
            ));
        }
        ok
    }
}

} // verus!
