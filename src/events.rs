//! Diagnostic events published on the log bus.
use vstd::prelude::*;
use vstd::string::*;

verus! {

/// One diagnostic event.
#[derive(Clone, Debug)]
pub enum StreamLogEvent {
    Info { message: String },
    Error { message: String },
    Debug { message: String },
    Frame { frame_number: u64 },
}

/// What an event holds, with its text as characters.
pub enum LogEventView {
    Info(Seq<char>),
    Error(Seq<char>),
    Debug(Seq<char>),
    Frame(u64),
}

impl View for StreamLogEvent {
    type V = LogEventView;

    open spec fn view(&self) -> LogEventView {
        match self {
            StreamLogEvent::Info { message } => LogEventView::Info(message@),
            StreamLogEvent::Error { message } => LogEventView::Error(message@),
            StreamLogEvent::Debug { message } => LogEventView::Debug(message@),
            StreamLogEvent::Frame { frame_number } => LogEventView::Frame(*frame_number),
        }
    }
}

impl StreamLogEvent {
    /// A copy of this event.
    pub fn duplicate(&self) -> (r: StreamLogEvent)
        ensures
            r == *self,
    {
        match self {
            StreamLogEvent::Info { message } => StreamLogEvent::Info { message: message.clone() },
            StreamLogEvent::Error { message } => StreamLogEvent::Error { message: message.clone() },
            StreamLogEvent::Debug { message } => StreamLogEvent::Debug { message: message.clone() },
            StreamLogEvent::Frame { frame_number } => StreamLogEvent::Frame { frame_number: *frame_number },
        }
    }
}

/// `a` followed by `b`, as a new string.
pub fn concat2(a: &str, b: &str) -> (r: String)
    ensures
        r@ == a@ + b@,
{
    let mut s = String::from_str(a);
    s.append(b);
    s
}

/// `a`, `b` and `c` in sequence, as a new string.
pub fn concat3(a: &str, b: &str, c: &str) -> (r: String)
    ensures
        r@ == a@ + b@ + c@,
{
    let mut s = String::from_str(a);
    s.append(b);
    s.append(c);
    s
}

/// `a`, `b`, `c` and `d` in sequence, as a new string.
pub fn concat4(a: &str, b: &str, c: &str, d: &str) -> (r: String)
    ensures
        r@ == a@ + b@ + c@ + d@,
{
    let mut s = String::from_str(a);
    s.append(b);
    s.append(c);
    s.append(d);
    s
}

} // verus!
