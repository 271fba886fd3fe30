//! The log bus: a bounded broadcast of diagnostic events.
//!
//! Publishing never blocks. The bus holds the last `capacity` events; each
//! subscriber reads at its own cursor, and one that has fallen behind the held
//! window is told once how many events it missed, then reads on from the
//! oldest held event.
use vstd::prelude::*;
use std::collections::VecDeque;
use crate::events::StreamLogEvent;
use crate::text::{decimal, decimal_text};

verus! {

/// Number of events the process-wide bus holds.
pub const LOG_BUS_CAPACITY: usize = 256;

/// A bounded broadcast of events.
pub struct LogBus {
    capacity: usize,
    buffer: VecDeque<StreamLogEvent>,
    published: u64,
    history: Ghost<Seq<StreamLogEvent>>,
}

/// A subscriber's cursor: the number of the next event it will read.
pub struct Subscription {
    next: u64,
}

/// What one read of a subscription yields.
#[derive(Debug)]
pub enum Received {
    /// The next event, in publish order.
    Event(StreamLogEvent),
    /// This many events were dropped for this subscriber.
    Lagged(u64),
    /// Nothing new has been published.
    Empty,
}

/// The result of one read at `cursor`, and the cursor after it, given every
/// event published so far and the number of the oldest one still held.
pub open spec fn receive_spec(history: Seq<StreamLogEvent>, oldest: int, cursor: int) -> (Received, int) {
    if cursor < oldest {
        (Received::Lagged((oldest - cursor) as u64), oldest)
    } else if cursor >= history.len() {
        (Received::Empty, cursor)
    } else {
        (Received::Event(history[cursor]), cursor + 1)
    }
}

/// The results of `n` reads in a row starting at `cursor`, with nothing
/// published in between.
pub open spec fn receive_run(history: Seq<StreamLogEvent>, oldest: int, cursor: int, n: nat) -> Seq<Received>
    decreases n,
{
    if n == 0 {
        Seq::<Received>::empty()
    } else {
        let (r, c) = receive_spec(history, oldest, cursor);
        seq![r] + receive_run(history, oldest, c, (n - 1) as nat)
    }
}

/// The text of the notice that replaces `n` dropped events.
pub open spec fn lag_notice(n: u64) -> Seq<char> {
    "Skipped "@ + decimal(n as nat) + " log messages due to buffer overflow"@
}

impl Subscription {
    /// The number of the next event this subscriber will read.
    pub closed spec fn position(&self) -> int {
        self.next as int
    }

    /// The number of the next event this subscriber will read.
    pub fn cursor(&self) -> (r: u64)
        ensures
            r == self.position(),
    {
        self.next
    }
}

impl LogBus {
    /// Every event published on this bus, in order.
    pub closed spec fn history(&self) -> Seq<StreamLogEvent> {
        self.history@
    }

    /// How many events the bus holds at most.
    pub closed spec fn capacity_spec(&self) -> nat {
        self.capacity as nat
    }

    /// The number of the oldest event still held.
    pub open spec fn oldest(&self) -> int {
        if self.history().len() > self.capacity_spec() {
            self.history().len() - self.capacity_spec()
        } else {
            0
        }
    }

    /// The bus holds exactly the last `capacity` published events.
    pub closed spec fn wf(&self) -> bool {
        &&& self.capacity > 0
        &&& self.published as int == self.history@.len()
        &&& self.buffer@.len() == self.history@.len() - self.oldest()
        &&& self.buffer@ == self.history@.subrange(self.oldest(), self.history@.len() as int)
    }

    /// An empty bus holding up to `capacity` events.
    pub fn new(capacity: usize) -> (r: LogBus)
        requires
            capacity > 0,
        ensures
            r.wf(),
            r.history() == Seq::<StreamLogEvent>::empty(),
            r.capacity_spec() == capacity,
    {
        let r = LogBus {
            capacity,
            buffer: VecDeque::new(),
            published: 0,
            history: Ghost(Seq::empty()),
        };
        assert(r.buffer@ =~= r.history@.subrange(0, 0));
        r
    }

    /// How many events have been published.
    pub fn published(&self) -> (r: u64)
        requires
            self.wf(),
        ensures
            r == self.history().len(),
    {
        self.published
    }

    /// Publishes `event` to every subscriber, dropping the oldest held event
    /// when the bus is full.
    pub fn publish(&mut self, event: StreamLogEvent)
        requires
            old(self).wf(),
            old(self).history().len() < u64::MAX,
        ensures
            final(self).wf(),
            final(self).history() == old(self).history().push(event),
            final(self).capacity_spec() == old(self).capacity_spec(),
    {
        let ghost h0 = self.history@;
        self.buffer.push_back(event);
        if self.buffer.len() > self.capacity {
            let _ = self.buffer.pop_front();
        }
        self.published = self.published + 1;
        self.history = Ghost(h0.push(event));
        assert(self.buffer@ =~= self.history@.subrange(self.oldest(), self.history@.len() as int));
    }

    /// A subscriber that will read the events published from now on.
    pub fn subscribe(&self) -> (r: Subscription)
        requires
            self.wf(),
        ensures
            r.position() == self.history().len(),
    {
        Subscription { next: self.published }
    }

    /// Reads the next event for `sub`, or reports how many it missed.
    pub fn receive(&self, sub: &mut Subscription) -> (r: Received)
        requires
            self.wf(),
            old(sub).position() <= self.history().len(),
        ensures
            (r, final(sub).position()) == receive_spec(self.history(), self.oldest(), old(sub).position()),
    {
        let oldest: u64 = self.published - self.buffer.len() as u64;
        if sub.next < oldest {
            let missed = oldest - sub.next;
            sub.next = oldest;
            Received::Lagged(missed)
        } else if sub.next == self.published {
            Received::Empty
        } else {
            let i = (sub.next - oldest) as usize;
            let e = self.buffer[i].duplicate();
            sub.next = sub.next + 1;
            Received::Event(e)
        }
    }

    /// The next item of a subscriber's log stream: the next event, or in place
    /// of the events it missed a `Debug` notice saying how many; `None` when
    /// nothing new has been published.
    pub fn next_log_item(&self, sub: &mut Subscription) -> (r: Option<StreamLogEvent>)
        requires
            self.wf(),
            old(sub).position() <= self.history().len(),
        ensures
            final(sub).position() == receive_spec(self.history(), self.oldest(), old(sub).position()).1,
            final(sub).position() <= self.history().len(),
            match receive_spec(self.history(), self.oldest(), old(sub).position()).0 {
                Received::Event(e) => r == Some(e),
                Received::Lagged(n) => (r matches Some(StreamLogEvent::Debug { message })
                    && message@ == lag_notice(n)),
                Received::Empty => r is None,
            },
    {
        match self.receive(sub) {
            Received::Event(e) => Some(e),
            Received::Lagged(n) => {
                let mut message = String::from_str("Skipped ");
                let count = decimal_text(n);
                message.append(count.as_str());
                message.append(" log messages due to buffer overflow");
                Some(StreamLogEvent::Debug { message })
            },
            Received::Empty => None,
        }
    }

    /// A subscriber that has fallen `oldest - cursor` events behind the held
    /// window is told exactly once how many it missed; the reads after that
    /// yield the held events in publish order, each once, with none missing.
    pub proof fn lemma_lag_reported_once(&self, cursor: int, k: nat)
        requires
            self.wf(),
            0 <= cursor < self.oldest(),
            self.oldest() + k <= self.history().len(),
        ensures
            receive_run(self.history(), self.oldest(), cursor, k + 1) == seq![
                Received::Lagged((self.oldest() - cursor) as u64),
            ] + self.history().subrange(self.oldest(), self.oldest() + k).map_values(
                |e: StreamLogEvent| Received::Event(e),
            ),
    {
        lemma_in_order(self.history(), self.oldest(), self.oldest(), k);
        assert(receive_run(self.history(), self.oldest(), cursor, k + 1) =~= seq![
            Received::Lagged((self.oldest() - cursor) as u64),
        ] + receive_run(self.history(), self.oldest(), self.oldest(), k));
    }
}

/// From a cursor inside the held window, `k` reads yield the next `k` events.
proof fn lemma_in_order(history: Seq<StreamLogEvent>, oldest: int, cursor: int, k: nat)
    requires
        0 <= oldest <= cursor,
        cursor + k <= history.len(),
    ensures
        receive_run(history, oldest, cursor, k) == history.subrange(cursor, cursor + k).map_values(
            |e: StreamLogEvent| Received::Event(e),
        ),
    decreases k,
{
    let f = |e: StreamLogEvent| Received::Event(e);
    if k == 0 {
        assert(history.subrange(cursor, cursor).map_values(f) =~= Seq::<Received>::empty());
    } else {
        lemma_in_order(history, oldest, cursor + 1, (k - 1) as nat);
        assert(history.subrange(cursor, cursor + k).map_values(f) =~= seq![Received::Event(history[cursor])]
            + history.subrange(cursor + 1, cursor + k).map_values(f));
    }
}

} // verus!
