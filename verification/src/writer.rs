//! The writer's half of the runtime: routes each arriving event through the
//! one-slot coalescing buffer and produces the exact text appended to the
//! trace file, so that the finished file is one JSON array holding every
//! submitted event's records in arrival order.

use vstd::prelude::*;

use crate::buffer::{buffer_seq, CoalescingBuffer};
use crate::event::{render_record, spec_record, SimpleEvent};

verus! {

/// The text already emitted for a sequence of drained events: each one's
/// records in order, every one followed by the record separator.
pub open spec fn spec_chunks(events: Seq<SimpleEvent>, pid: u64) -> Seq<char>
    decreases events.len(),
{
    if events.len() == 0 {
        Seq::empty()
    } else {
        spec_chunks(events.drop_last(), pid) + spec_record(events.last(), pid) + ",\n"@
    }
}

/// The complete trace file for a run that received `events` in that order:
/// the array-open token, the records in arrival order separated by
/// comma-newline, a final newline after the last record, and the
/// array-close token. With no events the file is exactly the open token
/// followed by the close token.
pub open spec fn spec_file(events: Seq<SimpleEvent>, pid: u64) -> Seq<char> {
    if events.len() == 0 {
        "[\n"@ + "]"@
    } else {
        "[\n"@ + spec_chunks(events.drop_last(), pid) + spec_record(events.last(), pid) + "\n"@
            + "]"@
    }
}

/// All records of `events`, in arrival order, separated by comma-newline,
/// with no separator before the first or after the last.
pub open spec fn spec_records_joined(events: Seq<SimpleEvent>, pid: u64) -> Seq<char>
    decreases events.len(),
{
    if events.len() == 0 {
        Seq::empty()
    } else if events.len() == 1 {
        spec_record(events[0], pid)
    } else {
        spec_records_joined(events.drop_last(), pid) + ",\n"@ + spec_record(events.last(), pid)
    }
}

/// Arrival-order preservation: an event arriving after `events` has its
/// records appended after everything already present — behind one
/// separator — and changes nothing that came before it.
pub proof fn lemma_arrival_order(events: Seq<SimpleEvent>, e: SimpleEvent, pid: u64)
    ensures
        spec_records_joined(events.push(e), pid) == if events.len() == 0 {
            spec_record(e, pid)
        } else {
            spec_records_joined(events, pid) + ",\n"@ + spec_record(e, pid)
        },
{
    let p = events.push(e);
    assert(p.drop_last() =~= events);
    assert(p.last() == e);
    if events.len() == 0 {
        assert(p[0] == e);
    }
}

/// What the writer has emitted for the drained events, followed by the one
/// still buffered, is exactly all records joined in arrival order: the
/// buffer delays the last record but loses nothing.
pub proof fn lemma_chunks_then_last(events: Seq<SimpleEvent>, e: SimpleEvent, pid: u64)
    ensures
        spec_chunks(events, pid) + spec_record(e, pid) == spec_records_joined(
            events.push(e),
            pid,
        ),
    decreases events.len(),
{
    lemma_arrival_order(events, e, pid);
    if events.len() == 0 {
        assert(spec_chunks(events, pid) + spec_record(e, pid) =~= spec_record(e, pid));
    } else {
        lemma_chunks_then_last(events.drop_last(), events.last(), pid);
        assert(events.drop_last().push(events.last()) =~= events);
        assert(spec_chunks(events, pid) + spec_record(e, pid) =~= spec_records_joined(events, pid)
            + ",\n"@ + spec_record(e, pid));
    }
}

/// The shape of a finished, non-empty run's file: one array holding every
/// submitted event's records, in arrival order, separated by comma-newline,
/// then the closing newline and the array-close token.
pub proof fn lemma_file_shape(events: Seq<SimpleEvent>, pid: u64)
    requires
        events.len() > 0,
    ensures
        spec_file(events, pid) == "[\n"@ + spec_records_joined(events, pid) + "\n"@ + "]"@,
{
    lemma_chunks_then_last(events.drop_last(), events.last(), pid);
    assert(events.drop_last().push(events.last()) =~= events);
    assert(spec_file(events, pid) =~= "[\n"@ + spec_records_joined(events, pid) + "\n"@ + "]"@);
}

/// No-loss: the last event submitted before terminate stands in the file,
/// its records are the final ones, and no separator follows them — only the
/// closing newline and the array-close token.
pub proof fn lemma_last_record_final(events: Seq<SimpleEvent>, pid: u64)
    requires
        events.len() > 0,
    ensures
        spec_file(events, pid) == ("[\n"@ + spec_chunks(events.drop_last(), pid)) + (spec_record(
            events.last(),
            pid,
        ) + "\n"@ + "]"@),
{
    assert(spec_file(events, pid) =~= ("[\n"@ + spec_chunks(events.drop_last(), pid)) + (
    spec_record(events.last(), pid) + "\n"@ + "]"@));
}

/// Boundary: a run that saw no events produces exactly the open token,
/// its newline, and the close token.
pub proof fn lemma_empty_file(pid: u64)
    ensures
        spec_file(Seq::<SimpleEvent>::empty(), pid) == "[\n]"@,
{
    reveal_strlit("[\n");
    reveal_strlit("]");
    reveal_strlit("[\n]");
    assert(spec_file(Seq::<SimpleEvent>::empty(), pid) =~= "[\n]"@);
}

/// Events the writer accepts never run backwards in time.
pub open spec fn events_ordered(events: Seq<SimpleEvent>) -> bool {
    forall|i: int| 0 <= i < events.len() ==> (#[trigger] events[i]).from <= events[i].to
}

/// The writer thread's state: the coalescing buffer and (ghost) the events
/// received so far.
pub struct WriterState {
    pub pid: u64,
    pub buf: CoalescingBuffer,
    pub history: Ghost<Seq<SimpleEvent>>,
}

impl WriterState {
    /// The buffer holds exactly the most recently arrived event (nothing
    /// before the first arrival), and every accepted event is a valid
    /// interval.
    pub open spec fn wf(self) -> bool {
        &&& if self.history@.len() == 0 {
            buffer_seq(self.buf).len() == 0
        } else {
            buffer_seq(self.buf) == seq![self.history@.last()]
        }
        &&& events_ordered(self.history@)
    }

    /// A fresh writer for a run: nothing arrived, nothing buffered.
    pub fn new(pid: u64) -> (w: WriterState)
        ensures
            w.wf(),
            w.pid == pid,
            w.history@ == Seq::<SimpleEvent>::empty(),
    {
        WriterState { pid, buf: CoalescingBuffer::new(), history: Ghost(Seq::empty()) }
    }

    /// The array-open token written before any record.
    pub fn array_open() -> (s: String)
        ensures
            s@ == "[\n"@,
    {
        let mut s = String::new();
        s.push_str("[\n");
        assert(s@ =~= "[\n"@);
        s
    }

    /// Accepts the next arriving event: it goes into the buffer, and the
    /// previously buffered event — when there was one — comes back
    /// serialized, with its trailing separator, ready to append to the
    /// file.
    pub fn on_event(&mut self, e: SimpleEvent) -> (out: Option<String>)
        requires
            old(self).wf(),
            e.from <= e.to,
        ensures
            final (self).wf(),
            final (self).pid == old(self).pid,
            final (self).history@ == old(self).history@.push(e),
            match out {
                None => old(self).history@.len() == 0,
                Some(s) => old(self).history@.len() > 0 && s@ == spec_record(
                    old(self).history@.last(),
                    old(self).pid,
                ) + ",\n"@,
            },
    {
        let ghost h0: Seq<SimpleEvent> = self.history@;
        let ghost b0: Seq<SimpleEvent> = buffer_seq(self.buf);
        let evicted = self.buf.force_push(e);
        self.history = Ghost(h0.push(e));
        proof {
            assert(self.history@.last() == e);
            assert(self.history@.drop_last() =~= h0);
            assert forall|i: int| 0 <= i < self.history@.len() implies (#[trigger] self.history@[i]).from
                <= self.history@[i].to by {
                if i < h0.len() {
                    assert(h0[i].from <= h0[i].to);
                }
            }
        }
        match evicted {
            None => {
                proof {
                    assert(b0.len() == 0);
                    assert(h0.len() == 0);
                }
                None
            },
            Some(prev) => {
                proof {
                    assert(b0 == seq![prev]);
                    assert(h0.len() > 0);
                    assert(b0 == seq![h0.last()]);
                    assert(prev == b0[0]);
                    assert(prev == h0.last());
                }
                let mut s = render_record(&prev, self.pid);
                s.push_str(",\n");
                Some(s)
            },
        }
    }

    /// Drains the buffer at shutdown: the last record — when any event
    /// arrived at all — without a trailing separator, a closing newline,
    /// and the array-close token. Appending this to what was emitted so far
    /// completes the file.
    pub fn finish(&mut self) -> (out: String)
        requires
            old(self).wf(),
        ensures
            old(self).history@.len() == 0 ==> out@ == "]"@,
            old(self).history@.len() > 0 ==> out@ == spec_record(
                old(self).history@.last(),
                old(self).pid,
            ) + "\n"@ + "]"@,
    {
        let ghost h0: Seq<SimpleEvent> = self.history@;
        let ghost b0: Seq<SimpleEvent> = buffer_seq(self.buf);
        let last = self.buf.pop();
        match last {
            Some(e) => {
                proof {
                    assert(b0.len() > 0);
                    assert(h0.len() > 0);
                    assert(b0 == seq![h0.last()]);
                    assert(e == b0[0]);
                    assert(e == h0.last());
                    assert(e.from <= e.to);
                }
                let mut r = render_record(&e, self.pid);
                r.push_str("\n");
                r.push_str("]");
                assert(r@ =~= spec_record(h0.last(), self.pid) + "\n"@ + "]"@);
                r
            },
            None => {
                proof {
                    assert(b0.len() == 0);
                    assert(h0.len() == 0);
                }
                let mut s = String::new();
                s.push_str("]");
                assert(s@ =~= "]"@);
                s
            },
        }
    }
}

/// Replays a whole run in one call: every event is pushed through the
/// writer in order, and the concatenated output is returned. The result is
/// exactly the trace file that a run receiving `events` (in that order)
/// before shutdown produces.
pub fn run_writer(events: Vec<SimpleEvent>, pid: u64) -> (out: String)
    requires
        events_ordered(events@),
    ensures
        out@ == spec_file(events@, pid),
{
    let ghost all: Seq<SimpleEvent> = events@;
    let mut w = WriterState::new(pid);
    let mut out = WriterState::array_open();
    let mut rest = events;
    while rest.len() > 0
        invariant
            w.wf(),
            w.pid == pid,
            all == w.history@ + rest@,
            events_ordered(rest@),
            out@ == "[\n"@ + (if w.history@.len() == 0 {
                Seq::<char>::empty()
            } else {
                spec_chunks(w.history@.drop_last(), pid)
            }),
        decreases rest.len(),
    {
        let ghost h0: Seq<SimpleEvent> = w.history@;
        let ghost r0: Seq<SimpleEvent> = rest@;
        assert(r0[0].from <= r0[0].to);
        let e = rest.remove(0);
        assert(e == r0[0]);
        assert forall|i: int| 0 <= i < rest@.len() implies (#[trigger] rest@[i]).from
            <= rest@[i].to by {
            assert(rest@[i] == r0[i + 1]);
            assert(r0[i + 1].from <= r0[i + 1].to);
        }
        let chunk = w.on_event(e);
        proof {
            assert(w.history@ == h0.push(e));
            assert(w.history@.drop_last() =~= h0);
            assert(all =~= w.history@ + rest@);
        }
        match chunk {
            Some(c) => {
                out.push_str(c.as_str());
                proof {
                    assert(h0.len() > 0);
                    assert(spec_chunks(h0, pid) == spec_chunks(h0.drop_last(), pid) + spec_record(
                        h0.last(),
                        pid,
                    ) + ",\n"@);
                    assert(out@ =~= "[\n"@ + spec_chunks(w.history@.drop_last(), pid));
                }
            },
            None => {
                proof {
                    assert(h0.len() == 0);
                    assert(w.history@.drop_last() =~= h0);
                    assert(spec_chunks(h0, pid) == Seq::<char>::empty());
                    assert(out@ =~= "[\n"@ + spec_chunks(w.history@.drop_last(), pid));
                }
            },
        }
    }
    proof {
        assert(w.history@ =~= all);
    }
    let tail = w.finish();
    out.push_str(tail.as_str());
    assert(out@ =~= spec_file(all, pid));
    out
}

} // verus!
