//! The tracer handles: the no-runtime path, handle refresh, the builder's
//! defaults and overrides, the set-once initialization rule, and the
//! channel between producers and the writer.

use chrometracer::{builder, current, ChromeTracer, ChromeTracerMessage, SimpleEvent};

fn instant_now() -> std::time::Instant {
    std::time::Instant::now()
}

#[test]
fn without_init() {
    // No runtime was ever installed: the handle stays empty and the event
    // is simply not built, with no error and no sentinel left behind.
    let mut cached: Option<ChromeTracer> = None;
    current(&mut cached, None, 1);
    if let Some(tracer) = cached.as_ref() {
        let event = SimpleEvent {
            name: "hello".to_string(),
            from: 1_000_000_000,
            to: 2_000_000_000,
            is_async: false,
            tid: tracer.tid,
        };
        tracer.trace(event);
    }
    assert!(cached.is_none());
}

#[test]
fn tracer_ignore_span() {
    // Tracing without initialization is ignored.
    let mut cached: Option<ChromeTracer> = None;
    current(&mut cached, None, 2);
    if let Some(tracer) = cached.as_ref() {
        let event = SimpleEvent {
            name: "hello".to_string(),
            from: 0,
            to: 0,
            is_async: false,
            tid: tracer.tid,
        };
        tracer.trace(event);
    }
    assert!(cached.is_none());
}

#[test]
fn current_picks_up_later_initialization() {
    let mut cached: Option<ChromeTracer> = None;
    current(&mut cached, None, 5);
    assert!(cached.is_none());
    let run = builder().init(false, instant_now(), 1).ok().unwrap();
    current(&mut cached, Some(&run.tracer), 5);
    let handle = cached.as_ref().expect("handle should now be populated");
    assert_eq!(handle.tid, 5);
    assert!(handle.sender.is_some());
}

#[test]
fn current_keeps_populated_cache() {
    let run = builder().init(false, instant_now(), 1).ok().unwrap();
    let mut cached: Option<ChromeTracer> = None;
    current(&mut cached, Some(&run.tracer), 5);
    // A second refresh with another thread id must not disturb the cache.
    current(&mut cached, Some(&run.tracer), 99);
    assert_eq!(cached.as_ref().unwrap().tid, 5);
}

#[test]
fn builder_overrides_and_defaults() {
    let now = instant_now();
    let run = builder().tid(9).init(false, now, 1).ok().unwrap();
    assert_eq!(run.tracer.tid, 9);
    let run2 = builder().init(false, now, 3).ok().unwrap();
    assert_eq!(run2.tracer.tid, 3);
}

#[test]
fn scenario_second_init_fails() {
    let first = builder().init(false, instant_now(), 1);
    assert!(first.is_ok());
    // A runtime is now installed: every further attempt fails, every run.
    for _ in 0..3 {
        let again = builder().init(true, instant_now(), 1);
        assert!(again.is_err());
    }
}

#[test]
fn trace_delivers_event_to_channel() {
    let run = builder().init(false, instant_now(), 1).ok().unwrap();
    let event = SimpleEvent {
        name: "work".to_string(),
        from: 10,
        to: 20,
        is_async: false,
        tid: 1,
    };
    run.tracer.trace(event);
    match run.receiver.try_recv() {
        Ok(ChromeTracerMessage::ChromeEvent(e)) => {
            assert_eq!(e.name, "work");
            assert_eq!(e.from, 10);
            assert_eq!(e.to, 20);
        }
        _ => panic!("event did not arrive on the channel"),
    }
}

#[test]
fn release_sends_terminate() {
    let run = builder().init(false, instant_now(), 1).ok().unwrap();
    assert!(run.guard.release());
    match run.receiver.try_recv() {
        Ok(ChromeTracerMessage::Terminate) => {}
        _ => panic!("terminate marker did not arrive"),
    }
}

#[test]
fn refreshed_handle_traces_into_shared_channel() {
    let run = builder().init(false, instant_now(), 1).ok().unwrap();
    let mut cached: Option<ChromeTracer> = None;
    current(&mut cached, Some(&run.tracer), 42);
    let handle = cached.as_ref().unwrap();
    let event = SimpleEvent {
        name: "shared".to_string(),
        from: 1,
        to: 2,
        is_async: true,
        tid: handle.tid,
    };
    handle.trace(event);
    match run.receiver.try_recv() {
        Ok(ChromeTracerMessage::ChromeEvent(e)) => {
            assert_eq!(e.tid, 42);
            assert!(e.is_async);
        }
        _ => panic!("event did not arrive on the channel"),
    }
}
