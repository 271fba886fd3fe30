//! The protocol of one external mirroring process: its launch arguments, the
//! handshake that announces its stream URL, and the log events its output
//! becomes.
use vstd::prelude::*;
use crate::error::ControlError;
use crate::events::{StreamLogEvent, LogEventView, concat2, concat4};
use crate::text::{decimal, decimal_text, thousandths, thousandths_text, trim, trimmed, starts_with, has_prefix};

verus! {

/// Highest frame rate a stream may ask for, and the default.
pub const MAX_FPS: u32 = 60;

/// Default stream quality, in thousandths.
pub const DEFAULT_QUALITY_MILLI: u32 = 700;

/// Lowest stream quality, in thousandths.
pub const MIN_QUALITY_MILLI: u32 = 100;

/// Highest stream quality, in thousandths.
pub const MAX_QUALITY_MILLI: u32 = 1000;

/// The first value present among the request's and the environment's, else
/// the default.
pub open spec fn first_of(a: Option<u32>, b: Option<u32>, d: u32) -> u32 {
    match a {
        Some(v) => v,
        None => match b {
            Some(v) => v,
            None => d,
        },
    }
}

/// Frame rate of a stream: the request's, else the environment's, else 60;
/// never above 60.
pub open spec fn fps_of(query: Option<u32>, env: Option<u32>) -> u32 {
    let v = first_of(query, env, MAX_FPS);
    if v > MAX_FPS { MAX_FPS } else { v }
}

/// Quality of a stream in thousandths: the request's, else the
/// environment's, else 700; clamped to 100..=1000.
pub open spec fn quality_of(query: Option<u32>, env: Option<u32>) -> u32 {
    let v = first_of(query, env, DEFAULT_QUALITY_MILLI);
    if v < MIN_QUALITY_MILLI { MIN_QUALITY_MILLI } else if v > MAX_QUALITY_MILLI { MAX_QUALITY_MILLI } else { v }
}

/// The frame rate of a stream request.
pub fn resolve_fps(query: Option<u32>, env: Option<u32>) -> (r: u32)
    ensures
        r == fps_of(query, env),
{
    let v = match query {
        Some(v) => v,
        None => match env {
            Some(v) => v,
            None => MAX_FPS,
        },
    };
    if v > MAX_FPS { MAX_FPS } else { v }
}

/// The quality of a stream request, in thousandths.
pub fn resolve_quality(query: Option<u32>, env: Option<u32>) -> (r: u32)
    ensures
        r == quality_of(query, env),
{
    let v = match query {
        Some(v) => v,
        None => match env {
            Some(v) => v,
            None => DEFAULT_QUALITY_MILLI,
        },
    };
    if v < MIN_QUALITY_MILLI {
        MIN_QUALITY_MILLI
    } else if v > MAX_QUALITY_MILLI {
        MAX_QUALITY_MILLI
    } else {
        v
    }
}

/// Command-line arguments of the mirroring process.
pub fn server_args(udid: &str, fps: u32, quality_milli: u32) -> (r: Vec<String>)
    ensures
        r@.len() == 6,
        r@[0]@ == "--udid"@,
        r@[1]@ == udid@,
        r@[2]@ == "--fps"@,
        r@[3]@ == decimal(fps as nat),
        r@[4]@ == "--quality"@,
        r@[5]@ == thousandths(quality_milli as nat),
{
    let mut v: Vec<String> = Vec::new();
    v.push(String::from_str("--udid"));
    v.push(String::from_str(udid));
    v.push(String::from_str("--fps"));
    v.push(decimal_text(fps as u64));
    v.push(String::from_str("--quality"));
    v.push(thousandths_text(quality_milli as u64));
    v
}

/// The sentinel that opens the handshake line.
pub open spec fn ready_prefix() -> Seq<char> {
    "stream_ready "@
}

/// The stream URL that an output line announces, if it is the handshake:
/// the line as read begins with `stream_ready `; the rest of it, trimmed, is
/// the URL.
pub open spec fn announced_url(line: Seq<char>) -> Option<Seq<char>> {
    if has_prefix(line, ready_prefix()) {
        Some(trimmed(line.subrange(ready_prefix().len() as int, line.len() as int)))
    } else {
        None
    }
}

/// The result of one output line read before the handshake.
#[derive(Debug)]
pub struct HandshakeStep {
    /// The `Debug` event that reports the line.
    pub log: StreamLogEvent,
    /// The stream URL, when this line is the handshake.
    pub url: Option<String>,
}

/// Reads one line of the process's output while waiting for the handshake.
pub fn handshake_line(line: &str) -> (r: HandshakeStep)
    ensures
        r.log@ == LogEventView::Debug("simulator-server stdout: "@ + trimmed(line@)),
        match announced_url(line@) {
            Some(u) => r.url matches Some(url) && url@ == u,
            None => r.url is None,
        },
{
    let t = trim(line);
    let log = StreamLogEvent::Debug { message: concat2("simulator-server stdout: ", t) };
    if starts_with(line, "stream_ready ") {
        proof {
            reveal_strlit("stream_ready ");
        }
        let rest = line.substring_char(13, line.unicode_len());
        let url = String::from_str(trim(rest));
        HandshakeStep { log, url: Some(url) }
    } else {
        HandshakeStep { log, url: None }
    }
}

/// The failure when the output closes before the handshake.
pub fn handshake_closed() -> (r: ControlError)
    ensures
        r matches ControlError::HandshakeFailure { message }
            && message@ == "simulator-server closed without sending stream_ready"@,
{
    ControlError::HandshakeFailure {
        message: String::from_str("simulator-server closed without sending stream_ready"),
    }
}

/// The failure when reading the output fails before the handshake.
pub fn handshake_read_failed(cause: &str) -> (r: ControlError)
    ensures
        r matches ControlError::HandshakeFailure { message }
            && message@ == "Failed to read from simulator-server: "@ + cause@,
{
    ControlError::HandshakeFailure { message: concat2("Failed to read from simulator-server: ", cause) }
}

/// The failure when the process cannot be started.
pub fn spawn_failed(cause: &str) -> (r: ControlError)
    ensures
        r matches ControlError::ProcessSpawnFailure { message }
            && message@ == "Failed to spawn simulator-server: "@ + cause@,
{
    ControlError::ProcessSpawnFailure { message: concat2("Failed to spawn simulator-server: ", cause) }
}

/// The failure when a command cannot be written to a session.
pub fn command_write_failed(cause: &str) -> (r: ControlError)
    ensures
        r matches ControlError::CommandIoFailure { message }
            && message@ == "Failed to write command: "@ + cause@,
{
    ControlError::CommandIoFailure { message: concat2("Failed to write command: ", cause) }
}

/// The failure when a command written to a session cannot be flushed.
pub fn command_flush_failed(cause: &str) -> (r: ControlError)
    ensures
        r matches ControlError::CommandIoFailure { message }
            && message@ == "Failed to flush command: "@ + cause@,
{
    ControlError::CommandIoFailure { message: concat2("Failed to flush command: ", cause) }
}

/// The event for a standard-output line after the handshake: lines that are
/// blank once trimmed are dropped.
pub fn stdout_event(line: &str) -> (r: Option<StreamLogEvent>)
    ensures
        trimmed(line@).len() == 0 ==> r is None,
        trimmed(line@).len() > 0 ==> (r matches Some(e) && e@ == LogEventView::Debug(
            "simulator-server stdout: "@ + trimmed(line@),
        )),
{
    let t = trim(line);
    if t.unicode_len() == 0 {
        None
    } else {
        Some(StreamLogEvent::Debug { message: concat2("simulator-server stdout: ", t) })
    }
}

/// The event for a standard-error line: empty lines are dropped.
pub fn stderr_event(line: &str) -> (r: Option<StreamLogEvent>)
    ensures
        line@.len() == 0 ==> r is None,
        line@.len() > 0 ==> (r matches Some(e) && e@ == LogEventView::Debug("simulator-server stderr: "@ + line@)),
{
    if line.unicode_len() == 0 {
        None
    } else {
        Some(StreamLogEvent::Debug { message: concat2("simulator-server stderr: ", line) })
    }
}

/// The event announcing that a process is being started for `udid`.
pub fn spawning_event(udid: &str) -> (r: StreamLogEvent)
    ensures
        r@ == LogEventView::Info("Spawning simulator-server for "@ + udid@),
{
    StreamLogEvent::Info { message: concat2("Spawning simulator-server for ", udid) }
}

/// The event announcing that a process is ready at `url`.
pub fn ready_event(url: &str) -> (r: StreamLogEvent)
    ensures
        r@ == LogEventView::Info("simulator-server ready at "@ + url@),
{
    StreamLogEvent::Info { message: concat2("simulator-server ready at ", url) }
}

/// The event announcing a stream request for `udid`.
pub fn request_event(udid: &str) -> (r: StreamLogEvent)
    ensures
        r@ == LogEventView::Info("Stream request for simulator "@ + udid@),
{
    StreamLogEvent::Info { message: concat2("Stream request for simulator ", udid) }
}

/// The event reporting the parameters a stream uses.
pub fn params_event(fps: u32, quality_milli: u32) -> (r: StreamLogEvent)
    ensures
        r@ == LogEventView::Info(
            "Using FPS: "@ + decimal(fps as nat) + ", Quality: "@ + thousandths(quality_milli as nat),
        ),
{
    let f = decimal_text(fps as u64);
    let q = thousandths_text(quality_milli as u64);
    StreamLogEvent::Info { message: concat4("Using FPS: ", f.as_str(), ", Quality: ", q.as_str()) }
}

/// The event announcing that a cached session is reused.
pub fn reuse_event(udid: &str) -> (r: StreamLogEvent)
    ensures
        r@ == LogEventView::Info("Reusing cached session for "@ + udid@),
{
    StreamLogEvent::Info { message: concat2("Reusing cached session for ", udid) }
}

/// The event reporting that a session could not be started.
pub fn start_failed_event(cause: &str) -> (r: StreamLogEvent)
    ensures
        r@ == LogEventView::Error("Failed to start session: "@ + cause@),
{
    StreamLogEvent::Error { message: concat2("Failed to start session: ", cause) }
}

/// The events a session start publishes for device `udid` once it has read
/// `lines` of the process's output: the spawning notice, then one `Debug`
/// event per line.
pub open spec fn start_log(udid: Seq<char>, lines: Seq<Seq<char>>) -> Seq<LogEventView> {
    seq![LogEventView::Info("Spawning simulator-server for "@ + udid)] + lines.map_values(
        |l: Seq<char>| LogEventView::Debug("simulator-server stdout: "@ + trimmed(l)),
    )
}

/// A session start between the spawn and the handshake: it reads the
/// process's output line by line until one announces the stream URL.
pub struct SessionStart {
    udid: String,
    url: Option<String>,
    lines: Ghost<Seq<Seq<char>>>,
}

impl SessionStart {
    /// The device the session is for.
    pub closed spec fn device(&self) -> Seq<char> {
        self.udid@
    }

    /// The output lines read so far.
    pub closed spec fn lines(&self) -> Seq<Seq<char>> {
        self.lines@
    }

    /// The announced stream URL, once the handshake was read.
    pub closed spec fn announced(&self) -> Option<Seq<char>> {
        match self.url {
            Some(u) => Some(u@),
            None => None,
        }
    }

    /// Every event this start has published, in order.
    pub open spec fn log(&self) -> Seq<LogEventView> {
        start_log(self.device(), self.lines()) + match self.announced() {
            Some(u) => seq![LogEventView::Info("simulator-server ready at "@ + u)],
            None => Seq::<LogEventView>::empty(),
        }
    }

    /// Only the last line read may be the handshake, and the URL is the one
    /// it announces.
    pub open spec fn wf(&self) -> bool {
        &&& forall|j: int| 0 <= j < self.lines().len() - 1 ==> (#[trigger] announced_url(self.lines()[j])) is None
        &&& self.announced() == (if self.lines().len() > 0 {
            announced_url(self.lines().last())
        } else {
            None
        })
    }

    /// Starts reading for `udid`, with the spawning notice to publish.
    pub fn begin(udid: &str) -> (r: (SessionStart, StreamLogEvent))
        ensures
            r.0.wf(),
            r.0.device() == udid@,
            r.0.lines() == Seq::<Seq<char>>::empty(),
            r.0.announced() is None,
            r.0.log() == seq![r.1@],
    {
        let e = spawning_event(udid);
        let s = SessionStart { udid: String::from_str(udid), url: None, lines: Ghost(Seq::empty()) };
        assert(s.log() =~= seq![e@]);
        (s, e)
    }

    /// Reads one output line before the handshake, with the events to
    /// publish: the line's `Debug` event, and when it is the handshake the
    /// readiness notice.
    pub fn read_line(&mut self, line: &str) -> (r: Vec<StreamLogEvent>)
        requires
            old(self).wf(),
            old(self).announced() is None,
        ensures
            final(self).wf(),
            final(self).device() == old(self).device(),
            final(self).lines() == old(self).lines().push(line@),
            final(self).announced() == announced_url(line@),
            final(self).log() == old(self).log() + r@.map_values(|e: StreamLogEvent| e@),
    {
        let ghost l0 = self.lines@;
        let ghost log0 = self.log();
        let step = handshake_line(line);
        let ghost first = step.log@;
        let mut v: Vec<StreamLogEvent> = Vec::new();
        v.push(step.log);
        self.lines = Ghost(l0.push(line@));
        match step.url {
            Some(u) => {
                let ready = ready_event(u.as_str());
                let ghost second = ready@;
                v.push(ready);
                self.url = Some(u);
                assert(v@.map_values(|e: StreamLogEvent| e@) =~= seq![first, second]);
            },
            None => {
                assert(v@.map_values(|e: StreamLogEvent| e@) =~= seq![first]);
            },
        }
        assert(start_log(self.device(), self.lines()) =~= start_log(self.device(), l0).push(first));
        assert(self.log() =~= log0 + v@.map_values(|e: StreamLogEvent| e@));
        v
    }

    /// The announced stream URL, once the handshake was read.
    pub fn url(&self) -> (r: Option<String>)
        ensures
            match r {
                Some(u) => self.announced() == Some(u@),
                None => self.announced() is None,
            },
    {
        match &self.url {
            Some(u) => Some(u.clone()),
            None => None,
        }
    }
}

/// Once a start has read its handshake, what it published is, in order: the
/// spawning notice; one `Debug` event per line read, the handshake line
/// last and no earlier line beginning with `stream_ready `; then the
/// readiness notice with the URL that line announced.
pub proof fn lemma_start_order(s: &SessionStart)
    requires
        s.wf(),
        s.announced() is Some,
    ensures
        s.lines().len() > 0,
        s.log().len() == s.lines().len() + 2,
        s.log()[0] == LogEventView::Info("Spawning simulator-server for "@ + s.device()),
        forall|j: int|
            0 <= j < s.lines().len() ==> s.log()[j + 1] == LogEventView::Debug(
                "simulator-server stdout: "@ + trimmed(#[trigger] s.lines()[j]),
            ),
        forall|j: int| 0 <= j < s.lines().len() - 1 ==> !has_prefix(#[trigger] s.lines()[j], ready_prefix()),
        has_prefix(s.lines().last(), ready_prefix()),
        s.log().last() == LogEventView::Info("simulator-server ready at "@ + announced_url(s.lines().last())->0),
{
    assert forall|j: int| 0 <= j < s.lines().len() - 1 implies !has_prefix(#[trigger] s.lines()[j], ready_prefix()) by {
        assert(announced_url(s.lines()[j]) is None);
    }
}

} // verus!
