//! The runtime handles: the per-thread tracer handle, the builder that
//! configures a runtime, the producer-side channel endpoint, and the guard
//! whose release starts the shutdown drain. The process-wide singleton
//! cell, the thread-local cache, the writer thread, and the output file are
//! the embedder's: this module holds the decisions they delegate.

use vstd::prelude::*;

use crate::event::SimpleEvent;
use crossbeam_channel::{Receiver, Sender};

verus! {

#[verifier::external_type_specification]
#[verifier::external_body]
#[verifier::reject_recursive_types(T)]
pub struct ExSender<T>(Sender<T>);

#[verifier::external_type_specification]
#[verifier::external_body]
#[verifier::reject_recursive_types(T)]
pub struct ExReceiver<T>(Receiver<T>);

#[verifier::external_type_specification]
#[verifier::external_body]
pub struct ExInstant(std::time::Instant);

/// What travels from producers to the writer: an event, or the terminate
/// marker that starts the shutdown drain.
pub enum ChromeTracerMessage {
    ChromeEvent(SimpleEvent),
    Terminate,
}

/// Relies on crossbeam_channel::unbounded: a multi-producer single-consumer
/// channel on which sends never block.
#[verifier::external_body]
fn channel_unbounded() -> (Sender<ChromeTracerMessage>, Receiver<ChromeTracerMessage>) {
    crossbeam_channel::unbounded()
}

/// Relies on crossbeam_channel::Sender::send: never blocks on an unbounded
/// channel, and fails only when all receivers are gone. Returns whether the
/// message was accepted.
#[verifier::external_body]
fn send_message(s: &Sender<ChromeTracerMessage>, m: ChromeTracerMessage) -> (accepted: bool) {
    s.send(m).is_ok()
}

/// Relies on crossbeam_channel::Sender::clone: the clone is an endpoint of
/// the same channel as the endpoint cloned.
#[verifier::external_body]
fn clone_sender(s: &Sender<ChromeTracerMessage>) -> (r: Sender<ChromeTracerMessage>)
    ensures
        r == *s,
{
    s.clone()
}

/// Relies on std::time::Instant being Copy: the copy is the same instant.
#[verifier::external_body]
fn copy_instant(t: &std::time::Instant) -> (r: std::time::Instant)
    ensures
        r == *t,
{
    *t
}

/// A handle to the active runtime: the shared epoch, an endpoint of the
/// channel to the writer, and the holding thread's cached id. Each thread
/// keeps its own copy; all copies share the epoch and the channel.
pub struct ChromeTracer {
    pub start: std::time::Instant,
    pub sender: Option<Sender<ChromeTracerMessage>>,
    pub tid: u64,
}

impl ChromeTracer {
    /// Best-effort submission: hands the event to the channel when this
    /// handle is connected; when the writer is gone (or the handle was
    /// never connected) the event is silently discarded.
    pub fn trace(&self, event: SimpleEvent) {
        match &self.sender {
            Some(s) => {
                let _ = send_message(s, ChromeTracerMessage::ChromeEvent(event));
            },
            None => {},
        }
    }
}

/// Refreshes one thread's cached handle. A populated cache is left alone. An
/// empty cache is filled from the installed runtime — when there is one —
/// as a copy whose thread id is overwritten with the calling thread's; with
/// no runtime installed the cache stays empty, so this call leaves no
/// sentinel and a later initialization is still picked up.
pub fn current(cached: &mut Option<ChromeTracer>, global: Option<&ChromeTracer>, tid: u64)
    ensures
        (*old(cached)) is Some ==> *final (cached) == *old(cached),
        (*old(cached)) is None && global is None ==> (*final (cached)) is None,
        (*old(cached)) is None && global is Some ==> {
            &&& (*final (cached)) is Some
            &&& (*final (cached))->Some_0.start == global->Some_0.start
            &&& (*final (cached))->Some_0.sender == global->Some_0.sender
            &&& (*final (cached))->Some_0.tid == tid
        },
{
    if cached.is_none() {
        match global {
            Some(g) => {
                let sender = match &g.sender {
                    Some(s) => Some(clone_sender(s)),
                    None => None,
                };
                *cached = Some(ChromeTracer { start: copy_instant(&g.start), sender, tid });
            },
            None => {},
        }
    }
}

/// The error of a second initialization attempt: a runtime is already
/// installed and is never silently replaced.
pub struct AlreadyInitialized;

/// The scoped shutdown token: it owns an endpoint of the channel and, on
/// release, sends the terminate marker that makes the writer drain and
/// close the file. The embedder joins the writer thread after the send.
pub struct ChromeTracerGuard {
    pub sender: Sender<ChromeTracerMessage>,
}

impl ChromeTracerGuard {
    /// Sends the terminate marker; returns whether the writer was still
    /// there to receive it.
    pub fn release(&self) -> bool {
        send_message(&self.sender, ChromeTracerMessage::Terminate)
    }
}

/// Everything a finalized runtime is made of: the handle producers copy,
/// the receiving endpoint the writer thread drains, and the guard whose
/// release shuts the run down.
pub struct RunningTracer {
    pub tracer: ChromeTracer,
    pub receiver: Receiver<ChromeTracerMessage>,
    pub guard: ChromeTracerGuard,
}

/// Configuration of a runtime before it starts: an optional epoch override
/// and an optional thread-id seed; what is left unset falls back to the
/// values the embedder captures at initialization (the time then, the
/// caller's thread id).
pub struct ChromeTracerBuilder {
    pub start: Option<std::time::Instant>,
    pub tid: Option<u64>,
}

/// An empty configuration: every option left to its default.
pub fn builder() -> (b: ChromeTracerBuilder)
    ensures
        b.start is None,
        b.tid is None,
{
    ChromeTracerBuilder { start: None, tid: None }
}

impl ChromeTracerBuilder {
    /// Overrides the epoch.
    pub fn start(self, start: std::time::Instant) -> (r: Self)
        ensures
            r.start == Some(start),
            r.tid == self.tid,
    {
        ChromeTracerBuilder { start: Some(start), ..self }
    }

    /// Overrides the thread-id seed.
    pub fn tid(self, tid: u64) -> (r: Self)
        ensures
            r.tid == Some(tid),
            r.start == self.start,
    {
        ChromeTracerBuilder { tid: Some(tid), ..self }
    }

    /// Finalizes the configuration into a running tracer — unless a runtime
    /// is already installed (`already_installed`, read from the process-wide
    /// cell by the embedder), which deterministically fails: a second
    /// runtime would race the first on the output file. `now` and
    /// `caller_tid` are the fallbacks for unset options. On success the
    /// tracer's handle and the guard hold endpoints of one fresh channel,
    /// whose receiving end is returned for the writer thread.
    pub fn init(self, already_installed: bool, now: std::time::Instant, caller_tid: u64) -> (r:
        Result<RunningTracer, AlreadyInitialized>)
        ensures
            r is Err <==> already_installed,
            r matches Ok(run) ==> {
                &&& run.tracer.start == (if self.start is Some {
                    self.start->Some_0
                } else {
                    now
                })
                &&& run.tracer.tid == (if self.tid is Some {
                    self.tid->Some_0
                } else {
                    caller_tid
                })
                &&& run.tracer.sender is Some
                &&& run.tracer.sender->Some_0 == run.guard.sender
            },
    {
        if already_installed {
            return Err(AlreadyInitialized);
        }
        let (sender, receiver) = channel_unbounded();
        let start = match self.start {
            Some(s) => s,
            None => now,
        };
        let tid = match self.tid {
            Some(t) => t,
            None => caller_tid,
        };
        let tracer_sender = clone_sender(&sender);
        let tracer = ChromeTracer { start, sender: Some(tracer_sender), tid };
        let guard = ChromeTracerGuard { sender };
        Ok(RunningTracer { tracer, receiver, guard })
    }
}

} // verus!
