//! The output relay: one independent reading loop per output stream of the
//! worker, turning raw reads into an ordered stream of line events. The
//! host owns the blocking reads; each read outcome is fed through
//! [`StreamRelay::on_read`], which decides what to forward. Within one
//! stream every delivered line appears in exactly the order the worker
//! wrote it; nothing is stated about the interleaving of the two streams,
//! which are drained independently.

use vstd::prelude::*;

verus! {

/// Which of the worker's two output channels a line came from.
#[derive(Clone, Copy, PartialEq, Eq, Structural, Debug)]
pub enum StreamKind {
    Stdout,
    Stderr,
}

impl StreamKind {
    /// The event name under which this stream's lines are emitted to the
    /// host's event sink; ordering is guaranteed within each name, not
    /// between them.
    pub fn event_name(&self) -> (r: &'static str)
        ensures
            *self == StreamKind::Stdout ==> r@ == "worker-line"@,
            *self == StreamKind::Stderr ==> r@ == "worker-error"@,
    {
        match self {
            StreamKind::Stdout => "worker-line",
            StreamKind::Stderr => "worker-error",
        }
    }
}

/// One ordered unit of the relay: the stream it belongs to and the line's
/// text.
pub struct OutputLine {
    pub stream: StreamKind,
    pub text: String,
}

/// One outcome of a blocking line read on the underlying pipe.
pub enum ReadEvent {
    /// A line decoded successfully.
    Line(String),
    /// Bytes that were not valid text; dropped, the loop goes on.
    Undecodable,
    /// End of stream: the pipe closed (worker exit or descriptor close).
    Closed,
}

/// The relay state for one stream. `delivered` is the history of every
/// line forwarded so far, in forwarding order; `closed` becomes true at end
/// of stream, after which the loop ends quietly and nothing more is ever
/// delivered.
pub struct StreamRelay {
    pub stream: StreamKind,
    pub closed: bool,
    pub delivered: Ghost<Seq<Seq<char>>>,
}

/// The spec-level transition of one read outcome: what the new state is
/// and the text of the forwarded line, if one is forwarded.
pub open spec fn spec_on_read(s: StreamRelay, ev: ReadEvent) -> (StreamRelay, Option<Seq<char>>) {
    if s.closed {
        (s, None)
    } else {
        match ev {
            ReadEvent::Line(t) => (
                StreamRelay {
                    stream: s.stream,
                    closed: false,
                    delivered: Ghost(s.delivered@.push(t@)),
                },
                Some(t@),
            ),
            ReadEvent::Undecodable => (s, None),
            ReadEvent::Closed => (
                StreamRelay { stream: s.stream, closed: true, delivered: s.delivered },
                None,
            ),
        }
    }
}

impl StreamRelay {
    /// A fresh relay for one stream: open, nothing delivered.
    pub fn new(stream: StreamKind) -> (r: StreamRelay)
        ensures
            r.stream == stream,
            !r.closed,
            r.delivered@ == Seq::<Seq<char>>::empty(),
    {
        StreamRelay { stream, closed: false, delivered: Ghost(Seq::empty()) }
    }

    /// Feeds one read outcome through the relay. A decoded line is
    /// forwarded as an event on this relay's stream and appended to the
    /// delivery history; undecodable bytes are dropped without aborting the
    /// loop; end of stream closes the relay quietly. The host must stop
    /// reading once the relay is closed.
    pub fn on_read(&mut self, ev: ReadEvent) -> (r: Option<OutputLine>)
        requires
            !old(self).closed,
        ensures
            final(self).stream == old(self).stream,
            ev matches ReadEvent::Line(t) ==> {
                &&& r matches Some(l) && l.stream == old(self).stream && l.text == t
                &&& final(self).delivered@ == old(self).delivered@.push(t@)
                &&& !final(self).closed
            },
            ev is Undecodable ==> r is None && *final(self) == *old(self),
            ev is Closed ==> {
                &&& r is None
                &&& final(self).closed
                &&& final(self).delivered@ == old(self).delivered@
            },
            *final(self) == spec_on_read(*old(self), ev).0,
            (match spec_on_read(*old(self), ev).1 {
                Some(t) => r matches Some(l) && l.stream == old(self).stream && l.text@ == t,
                None => r is None,
            }),
    {
        match ev {
            ReadEvent::Line(t) => {
                self.delivered = Ghost(self.delivered@.push(t@));
                Some(OutputLine { stream: self.stream, text: t })
            },
            ReadEvent::Undecodable => None,
            ReadEvent::Closed => {
                self.closed = true;
                None
            },
        }
    }
}

/// Folds a whole sequence of read outcomes through the relay.
pub open spec fn spec_run(s: StreamRelay, events: Seq<ReadEvent>) -> StreamRelay
    decreases events.len(),
{
    if events.len() == 0 {
        s
    } else {
        spec_run(spec_on_read(s, events[0]).0, events.drop_first())
    }
}

/// The lines a sequence of read outcomes carries, in write order: every
/// decoded line up to the first end-of-stream, with undecodable reads
/// skipped.
pub open spec fn decoded_lines(events: Seq<ReadEvent>) -> Seq<Seq<char>>
    decreases events.len(),
{
    if events.len() == 0 {
        Seq::empty()
    } else {
        match events[0] {
            ReadEvent::Line(t) => seq![t@] + decoded_lines(events.drop_first()),
            ReadEvent::Undecodable => decoded_lines(events.drop_first()),
            ReadEvent::Closed => Seq::empty(),
        }
    }
}

/// Helper for the delivery-order law, generalized over a mid-run state:
/// whatever was already delivered stays in place, and an open relay then
/// delivers exactly the decoded lines, in order; a closed relay delivers
/// nothing more.
proof fn lemma_run_delivers(s: StreamRelay, events: Seq<ReadEvent>)
    ensures
        spec_run(s, events).delivered@ == s.delivered@ + (if s.closed {
            Seq::<Seq<char>>::empty()
        } else {
            decoded_lines(events)
        }),
    decreases events.len(),
{
    if events.len() == 0 {
        assert(s.delivered@ + Seq::<Seq<char>>::empty() =~= s.delivered@);
        if !s.closed {
            assert(s.delivered@ + decoded_lines(events) =~= s.delivered@);
        }
    } else {
        let (s1, _) = spec_on_read(s, events[0]);
        lemma_run_delivers(s1, events.drop_first());
        if s.closed {
            assert(s.delivered@ + Seq::<Seq<char>>::empty() =~= s.delivered@);
        } else {
            match events[0] {
                ReadEvent::Line(t) => {
                    assert(s1.delivered@ == s.delivered@.push(t@));
                    assert(s.delivered@.push(t@) + decoded_lines(events.drop_first()) =~= s.delivered@
                        + (seq![t@] + decoded_lines(events.drop_first())));
                },
                ReadEvent::Undecodable => {},
                ReadEvent::Closed => {
                    assert(s1.delivered@ + Seq::<Seq<char>>::empty() =~= s.delivered@
                        + Seq::<Seq<char>>::empty());
                },
            }
        }
    }
}

/// Delivery order within one stream: a fresh relay fed any sequence of
/// read outcomes delivers exactly the decoded lines of that sequence, in
/// the order the worker wrote them — no reordering, no duplication, no
/// line after end of stream.
pub proof fn lemma_stream_fifo(stream: StreamKind, events: Seq<ReadEvent>)
    ensures
        ({
            let fresh = StreamRelay { stream, closed: false, delivered: Ghost(Seq::empty()) };
            spec_run(fresh, events).delivered@ == decoded_lines(events)
        }),
{
    let fresh = StreamRelay { stream, closed: false, delivered: Ghost(Seq::empty()) };
    lemma_run_delivers(fresh, events);
    assert(Seq::<Seq<char>>::empty() + decoded_lines(events) =~= decoded_lines(events));
}

} // verus!
