//! The writer pipeline end to end: exact file text for known runs, record
//! counts, arrival order, JSON validity, and numeric round trips.

use chrometracer::{decimal_u64, micros_u64, run_writer, SimpleEvent, WriterState};

fn sync_event(name: &str, from: u64, to: u64, tid: u64) -> SimpleEvent {
    SimpleEvent { name: name.to_string(), from, to, is_async: false, tid }
}

fn async_event(name: &str, from: u64, to: u64, tid: u64) -> SimpleEvent {
    SimpleEvent { name: name.to_string(), from, to, is_async: true, tid }
}

#[test]
fn decimal_exact_values() {
    assert_eq!(decimal_u64(0), "0");
    assert_eq!(decimal_u64(7), "7");
    assert_eq!(decimal_u64(10), "10");
    assert_eq!(decimal_u64(100000), "100000");
    assert_eq!(decimal_u64(u64::MAX), "18446744073709551615");
}

#[test]
fn micros_exact_values() {
    assert_eq!(micros_u64(0), "0");
    assert_eq!(micros_u64(100_000), "100");
    assert_eq!(micros_u64(1_234_567), "1234.567");
    assert_eq!(micros_u64(1_500), "1.5");
    assert_eq!(micros_u64(1_050), "1.05");
    assert_eq!(micros_u64(1_005), "1.005");
    assert_eq!(micros_u64(999), "0.999");
    assert_eq!(micros_u64(1), "0.001");
}

#[test]
fn empty_run_gives_bare_array() {
    let out = run_writer(Vec::new(), 42);
    assert_eq!(out, "[\n]");
}

#[test]
fn scenario_single_sync_record() {
    let events = vec![sync_event("work", 100_000, 250_000, 7)];
    let out = run_writer(events, 4242);
    assert_eq!(
        out,
        "[\n{\"name\":\"work\",\"ts\":100,\"dur\":150,\"pid\":4242,\"tid\":7,\"ph\":\"X\"}\n]"
    );
}

#[test]
fn scenario_async_pair() {
    let events = vec![async_event("req", 1_000_000, 2_000_000, 3)];
    let out = run_writer(events, 9);
    let expected = "[\n{\"name\":\"req\",\"ts\":1000,\"pid\":9,\"tid\":3,\"id\":1000000,\"ph\":\"b\",\"cat\":\"async\"},\n{\"name\":\"req\",\"ts\":2000,\"pid\":9,\"tid\":3,\"id\":1000000,\"ph\":\"e\",\"cat\":\"async\"}\n]";
    assert_eq!(out, expected);
}

#[test]
fn scenario_two_producers_interleaved() {
    // Two producers' events as they arrived at the channel, interleaved.
    let events = vec![
        sync_event("a1", 1_000, 2_000, 1),
        sync_event("b1", 1_500, 2_500, 2),
        sync_event("a2", 3_000, 4_000, 1),
        sync_event("b2", 3_500, 4_500, 2),
        sync_event("a3", 5_000, 6_000, 1),
        sync_event("b3", 5_500, 6_500, 2),
    ];
    let out = run_writer(events, 1);
    let names = ["a1", "b1", "a2", "b2", "a3", "b3"];
    assert_eq!(out.matches("\"name\"").count(), 6);
    let mut last_pos = 0;
    for name in names {
        let needle = format!("\"name\":\"{}\"", name);
        let pos = out.find(&needle).expect("record missing");
        assert!(pos >= last_pos, "records out of arrival order");
        last_pos = pos;
    }
}

#[test]
fn record_counts_sync_and_async() {
    let events = vec![
        sync_event("s1", 0, 10, 1),
        async_event("x1", 10, 20, 1),
        sync_event("s2", 20, 30, 1),
        async_event("x2", 30, 40, 1),
    ];
    let out = run_writer(events, 5);
    // Two synchronous events and two asynchronous pairs: six records.
    assert_eq!(out.matches("\"name\"").count(), 6);
    assert_eq!(out.matches("\"ph\":\"X\"").count(), 2);
    assert_eq!(out.matches("\"ph\":\"b\"").count(), 2);
    assert_eq!(out.matches("\"ph\":\"e\"").count(), 2);
}

#[test]
fn output_is_valid_json_array() {
    let events = vec![
        sync_event("s1", 100, 1_100, 1),
        async_event("x1", 2_000, 3_000, 2),
        sync_event("s2", 4_000, 5_250, 3),
    ];
    let out = run_writer(events, 77);
    let parsed: serde_json::Value = serde_json::from_str(&out).expect("file is not valid JSON");
    let records = parsed.as_array().expect("file is not one array");
    assert_eq!(records.len(), 4);
    assert!(records.iter().all(|r| r.is_object()));
}

#[test]
fn empty_output_is_valid_json_array() {
    let out = run_writer(Vec::new(), 77);
    let parsed: serde_json::Value = serde_json::from_str(&out).expect("file is not valid JSON");
    assert_eq!(parsed.as_array().expect("not an array").len(), 0);
}

#[test]
fn no_trailing_separator_after_last_record() {
    let events = vec![sync_event("s1", 0, 10, 1), sync_event("s2", 10, 20, 1)];
    let out = run_writer(events, 5);
    assert!(out.ends_with("\"ph\":\"X\"}\n]"));
    assert!(!out.contains(",\n]"));
}

#[test]
fn round_trip_record_fields() {
    let events = vec![sync_event("work", 100_000, 250_000, 7)];
    let out = run_writer(events, 4242);
    let parsed: serde_json::Value = serde_json::from_str(&out).unwrap();
    let rec = &parsed.as_array().unwrap()[0];
    assert_eq!(rec["name"].as_str().unwrap(), "work");
    assert_eq!(rec["ts"].as_f64().unwrap(), 100.0);
    assert_eq!(rec["dur"].as_f64().unwrap(), 150.0);
    assert_eq!(rec["pid"].as_u64().unwrap(), 4242);
    assert_eq!(rec["tid"].as_u64().unwrap(), 7);
    assert_eq!(rec["ph"].as_str().unwrap(), "X");
}

#[test]
fn round_trip_async_fields_with_fractions() {
    let events = vec![async_event("req", 1_234_567, 2_000_001, 3)];
    let out = run_writer(events, 9);
    let parsed: serde_json::Value = serde_json::from_str(&out).unwrap();
    let arr = parsed.as_array().unwrap();
    assert_eq!(arr.len(), 2);
    assert_eq!(arr[0]["ts"].as_f64().unwrap(), 1234.567);
    assert_eq!(arr[1]["ts"].as_f64().unwrap(), 2000.001);
    assert_eq!(arr[0]["id"].as_u64().unwrap(), 1_234_567);
    assert_eq!(arr[1]["id"].as_u64().unwrap(), 1_234_567);
    assert_eq!(arr[0]["cat"].as_str().unwrap(), "async");
    assert_eq!(arr[1]["cat"].as_str().unwrap(), "async");
}

#[test]
fn writer_state_holds_back_one_event() {
    let mut w = WriterState::new(1);
    let first = w.on_event(sync_event("first", 0, 10, 1));
    assert!(first.is_none());
    let second = w.on_event(sync_event("second", 10, 20, 1));
    let chunk = second.expect("first event should be evicted");
    assert!(chunk.contains("\"name\":\"first\""));
    assert!(chunk.ends_with(",\n"));
    let tail = w.finish();
    assert!(tail.contains("\"name\":\"second\""));
    assert!(tail.ends_with("\n]"));
}

#[test]
fn writer_finish_without_events() {
    let mut w = WriterState::new(1);
    assert_eq!(WriterState::array_open() + &w.finish(), "[\n]");
}
