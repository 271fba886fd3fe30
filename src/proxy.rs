//! Relay of a session's byte stream to an HTTP client: the response framing,
//! the running chunk and byte counts, and the events that report progress.
use vstd::prelude::*;
use crate::events::{StreamLogEvent, LogEventView, concat2, concat4};
use crate::text::{decimal, decimal_text};

verus! {

/// A progress event is published after every this many chunks.
pub const PROGRESS_EVERY: u64 = 100;

/// `a + b`, held at `u64::MAX`.
pub open spec fn sat_add(a: u64, b: u64) -> u64 {
    if a as int + b as int > u64::MAX as int { u64::MAX } else { (a + b) as u64 }
}

/// Running totals of a relay.
#[derive(Clone, Copy, Debug, PartialEq, Eq, Structural)]
pub struct RelayCounters {
    pub chunks: u64,
    pub bytes: u64,
}

/// Text of the progress event at the given totals.
pub open spec fn progress_text(chunks: u64, bytes: u64) -> Seq<char> {
    "Stream progress: "@ + decimal(chunks as nat) + " chunks, "@ + decimal(bytes as nat) + " bytes total"@
}

fn sat_add_u64(a: u64, b: u64) -> (r: u64)
    ensures
        r == sat_add(a, b),
{
    if a > u64::MAX - b { u64::MAX } else { a + b }
}

impl RelayCounters {
    /// Totals before the first chunk.
    pub fn new() -> (r: RelayCounters)
        ensures
            r.chunks == 0,
            r.bytes == 0,
    {
        RelayCounters { chunks: 0, bytes: 0 }
    }

    /// Counts a chunk of `len` bytes that was forwarded; every hundredth
    /// chunk yields a `Debug` progress event with the running totals. The
    /// totals hold at `u64::MAX` rather than wrap.
    pub fn record_chunk(&mut self, len: u64) -> (progress: Option<StreamLogEvent>)
        ensures
            final(self).chunks == sat_add(old(self).chunks, 1),
            final(self).bytes == sat_add(old(self).bytes, len),
            final(self).chunks % PROGRESS_EVERY != 0 ==> progress is None,
            final(self).chunks % PROGRESS_EVERY == 0 ==> (progress matches Some(e) && e@ == LogEventView::Debug(
                progress_text(final(self).chunks, final(self).bytes),
            )),
    {
        self.chunks = sat_add_u64(self.chunks, 1);
        self.bytes = sat_add_u64(self.bytes, len);
        if self.chunks % PROGRESS_EVERY == 0 {
            let mut m = String::from_str("Stream progress: ");
            let c = decimal_text(self.chunks);
            let b = decimal_text(self.bytes);
            m.append(c.as_str());
            m.append(" chunks, ");
            m.append(b.as_str());
            m.append(" bytes total");
            Some(StreamLogEvent::Debug { message: m })
        } else {
            None
        }
    }

    /// The `Error` event when reading a chunk fails; the relay then ends.
    pub fn chunk_failed_event(&self, cause: &str) -> (r: StreamLogEvent)
        ensures
            r@ == LogEventView::Error(
                "Stream chunk error after "@ + decimal(self.chunks as nat) + " chunks: "@ + cause@,
            ),
    {
        let c = decimal_text(self.chunks);
        StreamLogEvent::Error { message: concat4("Stream chunk error after ", c.as_str(), " chunks: ", cause) }
    }

    /// The `Info` summary when the relay ends.
    pub fn ended_event(&self) -> (r: StreamLogEvent)
        ensures
            r@ == LogEventView::Info(
                "Stream ended after "@ + decimal(self.chunks as nat) + " chunks, "@ + decimal(self.bytes as nat)
                    + " bytes"@,
            ),
    {
        let c = decimal_text(self.chunks);
        let b = decimal_text(self.bytes);
        let mut m = concat4("Stream ended after ", c.as_str(), " chunks, ", b.as_str());
        m.append(" bytes");
        StreamLogEvent::Info { message: m }
    }
}

/// The event announcing which URL is relayed.
pub fn proxying_event(url: &str) -> (r: StreamLogEvent)
    ensures
        r@ == LogEventView::Info("Proxying stream from: "@ + url@),
{
    StreamLogEvent::Info { message: concat2("Proxying stream from: ", url) }
}

/// The event before connecting upstream.
pub fn connecting_event() -> (r: StreamLogEvent)
    ensures
        r@ == LogEventView::Debug("Starting reqwest connection to simulator-server..."@),
{
    StreamLogEvent::Debug { message: String::from_str("Starting reqwest connection to simulator-server...") }
}

/// The event once connected upstream, with the answer's status and content
/// type.
pub fn connected_event(status: &str, content_type: &str) -> (r: StreamLogEvent)
    ensures
        r@ == LogEventView::Debug(
            "Connected to simulator-server: status="@ + status@ + ", content-type="@ + content_type@,
        ),
{
    StreamLogEvent::Debug {
        message: concat4("Connected to simulator-server: status=", status, ", content-type=", content_type),
    }
}

/// The `Error` event when the upstream connection fails; the relay then
/// sends nothing.
pub fn connect_failed_event(cause: &str) -> (r: StreamLogEvent)
    ensures
        r@ == LogEventView::Error("Failed to connect to simulator-server: "@ + cause@),
{
    StreamLogEvent::Error { message: concat2("Failed to connect to simulator-server: ", cause) }
}

/// The event once the response headers are set.
pub fn headers_set_event() -> (r: StreamLogEvent)
    ensures
        r@ == LogEventView::Debug("Response headers set, starting stream..."@),
{
    StreamLogEvent::Debug { message: String::from_str("Response headers set, starting stream...") }
}

fn header(name: &str, value: &str) -> (r: (String, String))
    ensures
        r.0@ == name@,
        r.1@ == value@,
{
    (String::from_str(name), String::from_str(value))
}

/// The fixed headers of a relayed stream: multipart MJPEG content, caching
/// disabled, any origin allowed.
pub fn stream_headers() -> (r: Vec<(String, String)>)
    ensures
        r@.len() == 7,
        r@[0].0@ == "content-type"@ && r@[0].1@ == "multipart/x-mixed-replace; boundary=--mjpegstream"@,
        r@[1].0@ == "cache-control"@ && r@[1].1@ == "no-cache, no-store, must-revalidate"@,
        r@[2].0@ == "pragma"@ && r@[2].1@ == "no-cache"@,
        r@[3].0@ == "expires"@ && r@[3].1@ == "0"@,
        r@[4].0@ == "access-control-allow-origin"@ && r@[4].1@ == "*"@,
        r@[5].0@ == "access-control-allow-methods"@ && r@[5].1@ == "GET, OPTIONS"@,
        r@[6].0@ == "access-control-allow-headers"@ && r@[6].1@ == "*"@,
{
    let mut v: Vec<(String, String)> = Vec::new();
    v.push(header("content-type", "multipart/x-mixed-replace; boundary=--mjpegstream"));
    v.push(header("cache-control", "no-cache, no-store, must-revalidate"));
    v.push(header("pragma", "no-cache"));
    v.push(header("expires", "0"));
    v.push(header("access-control-allow-origin", "*"));
    v.push(header("access-control-allow-methods", "GET, OPTIONS"));
    v.push(header("access-control-allow-headers", "*"));
    v
}

} // verus!
