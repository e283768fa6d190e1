use notify_stream::health::{probe_succeeded, HealthMonitor, HealthSignal, HEALTH_INTERVAL_SECS};
use notify_stream::models::{default_event_type, resolve_timestamp, NotificationEvent};
use notify_stream::server::{
    create_event, health_check, ingest_status, keep_alive_text, poll_events, stream_step,
    CreateEventRequest, IngestError, StreamStep, KEEP_ALIVE_SECS,
};
use notify_stream::services::{EventBroadcaster, RecvOutcome, CAPACITY};
use notify_stream::sse_client::{
    self, ConnectionState, ConsumerAction, ConsumerEvent, SSEClient, RECONNECT_DELAY_SECS,
};
use notify_stream::timestamp::Timestamp;

fn event(n: u32) -> NotificationEvent {
    NotificationEvent {
        id: format!("id-{}", n),
        event_type: "notification".to_string(),
        title: format!("title {}", n),
        message: format!("message {}", n),
        timestamp: Timestamp { secs: n as i64, nanos: 0 },
    }
}

fn drain(b: &mut EventBroadcaster, id: u64) -> Vec<String> {
    let mut out = Vec::new();
    loop {
        match b.recv(id) {
            RecvOutcome::Event(e) => out.push(e.id),
            RecvOutcome::Lagged(n) => out.push(format!("lagged {}", n)),
            RecvOutcome::Empty | RecvOutcome::Closed => return out,
        }
    }
}

fn request(title: Option<&str>, message: Option<&str>, timestamp: Option<&str>) -> CreateEventRequest {
    CreateEventRequest {
        event_type: None,
        title: title.map(|s| s.to_string()),
        message: message.map(|s| s.to_string()),
        timestamp: timestamp.map(|s| s.to_string()),
    }
}

#[test]
fn order_is_preserved_for_every_subscriber() {
    let mut b = EventBroadcaster::new();
    let a = b.subscribe().unwrap();
    let c = b.subscribe().unwrap();
    for n in 0..10 {
        b.send(event(n));
    }
    let expected: Vec<String> = (0..10).map(|n| format!("id-{}", n)).collect();
    assert_eq!(drain(&mut b, a), expected);
    assert_eq!(drain(&mut b, c), expected);
}

#[test]
fn late_subscriber_gets_no_replay() {
    let mut b = EventBroadcaster::new();
    let early = b.subscribe().unwrap();
    b.send(event(1));
    let late = b.subscribe().unwrap();
    b.send(event(2));
    assert_eq!(drain(&mut b, late), vec!["id-2".to_string()]);
    assert_eq!(drain(&mut b, early), vec!["id-1".to_string(), "id-2".to_string()]);
}

#[test]
fn publish_without_subscribers_is_a_no_op() {
    let mut b = EventBroadcaster::new();
    b.send(event(1));
    assert_eq!(b.subscriber_count(), 0);
    let s = b.subscribe().unwrap();
    assert!(matches!(b.recv(s), RecvOutcome::Empty));
}

#[test]
fn lagging_subscriber_drops_oldest_and_continues() {
    let mut b = EventBroadcaster::new();
    let s = b.subscribe().unwrap();
    let total = CAPACITY as u32 + 5;
    for n in 0..total {
        b.send(event(n));
    }
    let got = drain(&mut b, s);
    assert_eq!(got.len(), CAPACITY + 1);
    assert_eq!(got[0], "lagged 5");
    assert_eq!(got[1], "id-5");
    assert_eq!(got[CAPACITY], format!("id-{}", total - 1));
    b.send(event(500));
    assert_eq!(drain(&mut b, s), vec!["id-500".to_string()]);
}

#[test]
fn unsubscribed_is_closed_and_discarded() {
    let mut b = EventBroadcaster::new();
    let s = b.subscribe().unwrap();
    let t = b.subscribe().unwrap();
    assert_ne!(s, t);
    b.send(event(1));
    assert!(b.unsubscribe(s));
    assert!(!b.unsubscribe(s));
    assert!(matches!(b.recv(s), RecvOutcome::Closed));
    assert_eq!(b.subscriber_count(), 1);
    assert_eq!(drain(&mut b, t), vec!["id-1".to_string()]);
}

#[test]
fn ingest_keeps_fields_and_supplied_timestamp() {
    let mut b = EventBroadcaster::new();
    let s = b.subscribe().unwrap();
    let r = create_event(&mut b, request(Some("T"), Some("M"), Some("2024-01-02T03:04:05.5+02:00")));
    assert_eq!(ingest_status(&r), 201);
    let e = r.unwrap();
    assert_eq!(e.title, "T");
    assert_eq!(e.message, "M");
    assert_eq!(e.timestamp, Timestamp { secs: 1704157445, nanos: 500_000_000 });
    match b.recv(s) {
        RecvOutcome::Event(got) => {
            assert_eq!(got.id, e.id);
            assert_eq!(got.title, "T");
            assert_eq!(got.message, "M");
            assert_eq!(got.timestamp, e.timestamp);
        }
        _ => panic!("event not delivered"),
    }
}

#[test]
fn ingest_with_unparsable_timestamp_uses_creation_instant() {
    let mut b = EventBroadcaster::new();
    let before = Timestamp::now();
    let e = create_event(&mut b, request(Some("T"), Some("M"), Some("yesterday"))).unwrap();
    assert!(e.timestamp.secs >= before.secs);
    let e2 = create_event(&mut b, request(Some("T"), Some("M"), None)).unwrap();
    assert!(e2.timestamp.secs >= before.secs);
}

#[test]
fn ingested_ids_are_present_and_distinct() {
    let mut b = EventBroadcaster::new();
    let e1 = create_event(&mut b, request(Some("a"), Some("b"), None)).unwrap();
    let e2 = create_event(&mut b, request(Some("a"), Some("b"), None)).unwrap();
    assert_eq!(e1.id.len(), 36);
    assert_eq!(e2.id.len(), 36);
    assert_ne!(e1.id, e2.id);
}

#[test]
fn post_then_stream_scenario() {
    let mut b = EventBroadcaster::new();
    let s = b.subscribe().unwrap();
    let r = create_event(&mut b, request(Some("T"), Some("M"), None));
    assert_eq!(ingest_status(&r), 201);
    let e = r.unwrap();
    assert_eq!(e.event_type, "notification");
    assert!(!e.id.is_empty());
    let outcome = b.recv(s);
    match stream_step(outcome) {
        StreamStep::Emit(frame) => {
            assert_eq!(frame.event, "notification");
            let v: serde_json::Value = serde_json::from_str(&frame.data).unwrap();
            assert_eq!(v["title"], "T");
            assert_eq!(v["message"], "M");
            assert_eq!(v["id"], e.id.as_str());
            assert_eq!(v["event_type"], "notification");
        }
        _ => panic!("expected a notification frame"),
    }
}

#[test]
fn ingest_without_title_or_message_is_refused() {
    let mut b = EventBroadcaster::new();
    let s = b.subscribe().unwrap();
    let r = create_event(&mut b, request(None, Some("M"), None));
    assert!(matches!(r, Err(IngestError::MissingTitle)));
    assert_eq!(ingest_status(&r), 422);
    let r = create_event(&mut b, request(Some("T"), None, None));
    assert!(matches!(r, Err(IngestError::MissingMessage)));
    assert!(matches!(b.recv(s), RecvOutcome::Empty));
}

#[test]
fn ingest_keeps_requested_event_type() {
    let mut b = EventBroadcaster::new();
    let mut req = request(Some("T"), Some("M"), None);
    req.event_type = Some("alert".to_string());
    let e = create_event(&mut b, req).unwrap();
    assert_eq!(e.event_type, "alert");
}

#[test]
fn event_json_has_wire_layout() {
    let e = NotificationEvent {
        id: "x".to_string(),
        event_type: "notification".to_string(),
        title: "say \"hi\"".to_string(),
        message: "a\nb".to_string(),
        timestamp: Timestamp { secs: 0, nanos: 123_000_000 },
    };
    assert_eq!(
        e.to_json().unwrap(),
        "{\"id\":\"x\",\"event_type\":\"notification\",\"title\":\"say \\\"hi\\\"\",\"message\":\"a\\nb\",\"timestamp\":\"1970-01-01T00:00:00.123Z\"}"
    );
}

#[test]
fn event_json_refuses_unrepresentable_instant() {
    let mut e = event(1);
    e.timestamp = Timestamp { secs: i64::MAX, nanos: 0 };
    assert!(e.to_json().is_none());
    assert!(matches!(stream_step(RecvOutcome::Event(e)), StreamStep::Emit(f) if f.event == "error"));
}

#[test]
fn stream_step_frames_errors_and_waits() {
    match stream_step(RecvOutcome::Lagged(3)) {
        StreamStep::Emit(f) => {
            assert_eq!(f.event, "error");
            assert_eq!(f.data, "Stream error");
        }
        _ => panic!("expected an error frame"),
    }
    match stream_step(RecvOutcome::Closed) {
        StreamStep::EmitAndEnd(f) => assert_eq!(f.event, "error"),
        _ => panic!("expected a final error frame"),
    }
    assert!(matches!(stream_step(RecvOutcome::Empty), StreamStep::Wait));
    assert_eq!(keep_alive_text(), "keep-alive");
    assert_eq!(KEEP_ALIVE_SECS, 15);
}

#[test]
fn timestamp_parse_and_format() {
    assert_eq!(
        Timestamp::parse_rfc3339("1970-01-01T01:00:00+01:00"),
        Some(Timestamp { secs: 0, nanos: 0 })
    );
    assert_eq!(Timestamp::parse_rfc3339("not a time"), None);
    assert_eq!(
        Timestamp { secs: 86_400, nanos: 0 }.to_rfc3339().unwrap(),
        "1970-01-02T00:00:00Z"
    );
}

#[test]
fn resolve_timestamp_prefers_supplied() {
    let now = Timestamp { secs: 10, nanos: 0 };
    let t = Timestamp { secs: 5, nanos: 7 };
    assert_eq!(resolve_timestamp(Some(t), now), t);
    assert_eq!(resolve_timestamp(None, now), now);
}

#[test]
fn endpoint_constants() {
    assert_eq!(default_event_type(), "notification");
    assert_eq!(health_check(), (200, "OK".to_string()));
    assert!(poll_events().is_empty());
}

fn client_event(title: &str) -> sse_client::NotificationEvent {
    sse_client::NotificationEvent {
        id: "1".to_string(),
        event_type: "notification".to_string(),
        title: title.to_string(),
        message: "m".to_string(),
        timestamp: "2024-01-01T00:00:00Z".to_string(),
    }
}

fn frame(event: &str, parsed: Option<sse_client::NotificationEvent>) -> ConsumerEvent {
    ConsumerEvent::Frame { event: event.to_string(), parsed }
}

#[test]
fn consumer_reconnects_after_stream_loss() {
    let mut c = SSEClient::new("http://localhost:9201/api/events/stream".to_string());
    assert_eq!(c.state(), ConnectionState::Disconnected);
    assert!(matches!(c.step(ConsumerEvent::Start), ConsumerAction::Open));
    assert_eq!(c.state(), ConnectionState::Connecting);
    assert!(matches!(c.step(ConsumerEvent::Opened), ConsumerAction::Continue));
    assert_eq!(c.state(), ConnectionState::Streaming);
    match c.step(frame("notification", Some(client_event("first")))) {
        ConsumerAction::Deliver(e) => assert_eq!(e.title, "first"),
        _ => panic!("expected a delivery"),
    }
    assert!(matches!(c.step(ConsumerEvent::StreamFailed), ConsumerAction::Sleep(5)));
    assert_eq!(c.state(), ConnectionState::Disconnected);
    assert!(matches!(c.step(ConsumerEvent::DelayElapsed), ConsumerAction::Open));
    assert!(matches!(c.step(ConsumerEvent::Opened), ConsumerAction::Continue));
    match c.step(frame("notification", Some(client_event("second")))) {
        ConsumerAction::Deliver(e) => assert_eq!(e.title, "second"),
        _ => panic!("expected a delivery after reconnecting"),
    }
    assert_eq!(RECONNECT_DELAY_SECS, 5);
    assert_eq!(c.url(), "http://localhost:9201/api/events/stream");
}

#[test]
fn consumer_retries_failed_open_forever() {
    let mut c = SSEClient::new("u".to_string());
    c.step(ConsumerEvent::Start);
    for _ in 0..3 {
        assert!(matches!(c.step(ConsumerEvent::OpenFailed), ConsumerAction::Sleep(5)));
        assert!(matches!(c.step(ConsumerEvent::DelayElapsed), ConsumerAction::Open));
    }
    assert_eq!(c.state(), ConnectionState::Connecting);
}

#[test]
fn consumer_skips_other_and_undecodable_frames() {
    let mut c = SSEClient::new("u".to_string());
    c.step(ConsumerEvent::Start);
    c.step(ConsumerEvent::Opened);
    assert!(matches!(c.step(frame("notification", None)), ConsumerAction::Continue));
    assert!(matches!(c.step(frame("error", Some(client_event("x")))), ConsumerAction::Continue));
    assert_eq!(c.state(), ConnectionState::Streaming);
    assert!(matches!(c.step(ConsumerEvent::StreamEnded), ConsumerAction::Sleep(5)));
}

#[test]
fn consumer_stop_halts_for_good() {
    let mut c = SSEClient::new("u".to_string());
    c.step(ConsumerEvent::Start);
    assert!(matches!(c.step(ConsumerEvent::Stop), ConsumerAction::Halt));
    assert!(matches!(c.step(ConsumerEvent::DelayElapsed), ConsumerAction::Halt));
    assert_eq!(c.state(), ConnectionState::Stopped);
}

#[test]
fn three_failed_probes_signal_three_times() {
    let mut m = HealthMonitor::new();
    for n in 1..=3u64 {
        assert_eq!(m.record(None), HealthSignal::Degraded);
        assert_eq!(m.consecutive_failures(), n);
    }
    assert_eq!(m.record(Some(200)), HealthSignal::Healthy);
    assert_eq!(m.consecutive_failures(), 0);
    assert_eq!(m.record(Some(204)), HealthSignal::Healthy);
    assert_eq!(m.record(Some(503)), HealthSignal::Degraded);
    assert_eq!(HEALTH_INTERVAL_SECS, 60);
}

#[test]
fn probe_success_is_the_2xx_range() {
    assert!(probe_succeeded(Some(200)));
    assert!(probe_succeeded(Some(299)));
    assert!(!probe_succeeded(Some(199)));
    assert!(!probe_succeeded(Some(300)));
    assert!(!probe_succeeded(Some(404)));
    assert!(!probe_succeeded(None));
}
