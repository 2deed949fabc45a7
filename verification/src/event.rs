//! The trace event value and its serialization to one trace-format JSON
//! record (or a begin/end pair for asynchronous events).

use vstd::prelude::*;

use crate::json::{push_decimal, push_micros, spec_decimal, spec_micros};

verus! {

/// A measured interval reported by instrumented code. `from` and `to` are
/// nanoseconds relative to the runtime's shared epoch; `tid` identifies the
/// submitting thread.
pub struct SimpleEvent {
    pub name: String,
    pub from: u64,
    pub to: u64,
    pub is_async: bool,
    pub tid: u64,
}

/// The record of a synchronous (complete) event: one object with a
/// timestamp, a duration, and phase "X".
pub open spec fn spec_sync_record(e: SimpleEvent, pid: u64) -> Seq<char> {
    "{\"name\":\""@ + e.name@ + "\",\"ts\":"@ + spec_micros(e.from as nat) + ",\"dur\":"@
        + spec_micros((e.to - e.from) as nat) + ",\"pid\":"@ + spec_decimal(pid as nat)
        + ",\"tid\":"@ + spec_decimal(e.tid as nat) + ",\"ph\":\"X\"}"@
}

/// One half of an asynchronous pair: phase `ph` ("b" or "e") at timestamp
/// `ts_ns`, tagged with category "async" and the pair's shared id (the raw
/// nanosecond start value).
pub open spec fn spec_async_record(e: SimpleEvent, pid: u64, ts_ns: nat, ph: Seq<char>) -> Seq<
    char,
> {
    "{\"name\":\""@ + e.name@ + "\",\"ts\":"@ + spec_micros(ts_ns) + ",\"pid\":"@ + spec_decimal(
        pid as nat,
    ) + ",\"tid\":"@ + spec_decimal(e.tid as nat) + ",\"id\":"@ + spec_decimal(e.from as nat)
        + ",\"ph\":\""@ + ph + "\",\"cat\":\"async\"}"@
}

/// Everything the serializer writes for one event: a single record for a
/// synchronous event, a begin record, separator, and end record for an
/// asynchronous one.
pub open spec fn spec_record(e: SimpleEvent, pid: u64) -> Seq<char> {
    if e.is_async {
        spec_async_record(e, pid, e.from as nat, "b"@) + ",\n"@ + spec_async_record(
            e,
            pid,
            e.to as nat,
            "e"@,
        )
    } else {
        spec_sync_record(e, pid)
    }
}

fn push_async_half(out: &mut String, e: &SimpleEvent, ts_ns: u64, ph: &str, pid: u64)
    ensures
        final (out)@ == old(out)@ + spec_async_record(*e, pid, ts_ns as nat, ph@),
{
    let ghost orig: Seq<char> = out@;
    out.push_str("{\"name\":\"");
    out.push_str(e.name.as_str());
    out.push_str("\",\"ts\":");
    push_micros(out, ts_ns);
    out.push_str(",\"pid\":");
    push_decimal(out, pid);
    out.push_str(",\"tid\":");
    push_decimal(out, e.tid);
    out.push_str(",\"id\":");
    push_decimal(out, e.from);
    out.push_str(",\"ph\":\"");
    out.push_str(ph);
    out.push_str("\",\"cat\":\"async\"}");
    assert(out@ =~= orig + spec_async_record(*e, pid, ts_ns as nat, ph@));
}

/// Serializes `e` as its trace-format JSON record(s), exactly as
/// `spec_record` states. The process id `pid` is supplied by the embedder.
pub fn render_record(e: &SimpleEvent, pid: u64) -> (s: String)
    requires
        e.from <= e.to,
    ensures
        s@ == spec_record(*e, pid),
{
    let mut s = String::new();
    if e.is_async {
        push_async_half(&mut s, e, e.from, "b", pid);
        s.push_str(",\n");
        push_async_half(&mut s, e, e.to, "e", pid);
        assert(s@ =~= spec_record(*e, pid));
    } else {
        s.push_str("{\"name\":\"");
        s.push_str(e.name.as_str());
        s.push_str("\",\"ts\":");
        push_micros(&mut s, e.from);
        s.push_str(",\"dur\":");
        push_micros(&mut s, e.to - e.from);
        s.push_str(",\"pid\":");
        push_decimal(&mut s, pid);
        s.push_str(",\"tid\":");
        push_decimal(&mut s, e.tid);
        s.push_str(",\"ph\":\"X\"}");
        assert(s@ =~= spec_record(*e, pid));
    }
    s
}

} // verus!
