//! An in-process instrumentation runtime: callers emit timestamped trace
//! events describing work intervals, and a background writer persists them
//! as one well-formed JSON array in the trace-viewer event format.

use vstd::prelude::*;

mod event;
mod buffer;
mod json;
mod tracer;
mod writer;

pub use event::{render_record, spec_async_record, spec_record, spec_sync_record, SimpleEvent};
pub use json::{decimal_u64, is_digit, lemma_decimal_chars_are_digits, lemma_decimal_round_trip, lemma_micros_round_trip, spec_digit_val, spec_parse_decimal, spec_parse_frac, spec_parse_micros_ns, micros_u64, spec_decimal, spec_digit, spec_micros, spec_micros_frac};
pub use buffer::{buffer_seq, CoalescingBuffer};
pub use tracer::{builder, current, AlreadyInitialized, ChromeTracer, ChromeTracerBuilder, ChromeTracerGuard, ChromeTracerMessage, RunningTracer};
pub use writer::{events_ordered, lemma_arrival_order, lemma_chunks_then_last, lemma_empty_file, lemma_file_shape, lemma_last_record_final, spec_records_joined, run_writer, spec_chunks, spec_file, WriterState};

verus! {

/// A named interval with optionally-known endpoints (nanoseconds against
/// the shared epoch), as sketched by instrumentation experiments.
pub struct Span {
    pub name: String,
    pub from: Option<u64>,
    pub to: Option<u64>,
}

} // verus!
