use cube_terminal::frame::{connect_envelope, drain_connect_frames, try_parse_connect_frames};
use cube_terminal::models::EnvdEvent;
use serde_json::Value;

fn object(entries: Vec<(&str, Value)>) -> Value {
    let mut m = serde_json::Map::new();
    for (k, v) in entries {
        m.insert(k.to_string(), v);
    }
    Value::Object(m)
}

fn event(kind: &str, body: Value) -> Value {
    object(vec![("event", object(vec![(kind, body)]))])
}

fn frame_of(v: &Value) -> Vec<u8> {
    connect_envelope(&serde_json::to_vec(v).unwrap())
}

#[test]
fn test_connect_envelope() {
    let frame = connect_envelope(b"hello");
    assert_eq!(frame[0], 0);
    assert_eq!(u32::from_be_bytes([frame[1], frame[2], frame[3], frame[4]]), 5);
    assert_eq!(&frame[5..], b"hello");
}

#[test]
fn test_parse_start_event() {
    let payload = event("start", object(vec![("pid", Value::from(42u64))]));
    let mut buf = frame_of(&payload);
    let events = drain_connect_frames(&mut buf);
    assert_eq!(events.len(), 1);
    assert!(matches!(events[0], EnvdEvent::Start { pid: 42 }));
}

#[test]
fn test_parse_data_event() {
    let payload = event("data", object(vec![("stdout", Value::from("aGVsbG8="))]));
    let mut buf = frame_of(&payload);
    let events = drain_connect_frames(&mut buf);
    assert_eq!(events.len(), 1);
    match &events[0] {
        EnvdEvent::Data { stdout, .. } => {
            assert_eq!(stdout.as_deref(), Some(b"hello".as_slice()));
        }
        _ => panic!("expected Data"),
    }
}

#[test]
fn test_parse_end_event() {
    let payload = event("end", object(vec![("exitCode", Value::from(0i64))]));
    let mut buf = frame_of(&payload);
    let events = drain_connect_frames(&mut buf);
    assert_eq!(events.len(), 1);
    assert!(matches!(events[0], EnvdEvent::End { exit_code: 0 }));
}

#[test]
fn test_parse_error_frame() {
    let payload = object(vec![("error", Value::from("permission denied"))]);
    let json_bytes = serde_json::to_vec(&payload).unwrap();
    let mut frame = vec![0x02u8];
    frame.extend_from_slice(&(json_bytes.len() as u32).to_be_bytes());
    frame.extend_from_slice(&json_bytes);

    let mut buf = frame;
    let events = drain_connect_frames(&mut buf);
    assert_eq!(events.len(), 1);
    match &events[0] {
        EnvdEvent::Error(msg) => assert!(msg.contains("permission denied")),
        _ => panic!("expected Error"),
    }
}

#[test]
fn test_parse_multiple_frames() {
    let p1 = event("start", object(vec![("pid", Value::from(1u64))]));
    let p2 = event("data", object(vec![("stdout", Value::from("bHM="))]));
    let p3 = event("end", object(vec![("exitCode", Value::from(0i64))]));

    let mut stream = Vec::new();
    stream.extend_from_slice(&frame_of(&p1));
    stream.extend_from_slice(&frame_of(&p2));
    stream.extend_from_slice(&frame_of(&p3));

    let events = drain_connect_frames(&mut stream);
    assert_eq!(events.len(), 3);
}

#[test]
fn test_partial_frame_handling() {
    let payload = event("start", object(vec![("pid", Value::from(1u64))]));
    let full = frame_of(&payload);

    let partial = &full[..full.len() / 2];
    let mut buf = partial.to_vec();
    let events = drain_connect_frames(&mut buf);
    assert!(events.is_empty());
    assert_eq!(buf.len(), partial.len());
}

#[test]
fn test_exit_status_parsing() {
    let payload = event("end", object(vec![("status", Value::from("exit status 137"))]));
    let mut buf = frame_of(&payload);
    let events = drain_connect_frames(&mut buf);
    assert!(matches!(events[0], EnvdEvent::End { exit_code: 137 }));
}

#[test]
fn envelope_of_empty_payload_is_a_bare_header() {
    assert_eq!(connect_envelope(b""), vec![0, 0, 0, 0, 0]);
    let big = vec![7u8; 300];
    let frame = connect_envelope(&big);
    assert_eq!(&frame[..5], &[0, 0, 0, 1, 44]);
    assert_eq!(frame.len(), 305);
}

#[test]
fn envelope_roundtrip_keeps_trailing_bytes() {
    let payload = event("start", object(vec![("pid", Value::from(9u64))]));
    let mut buf = frame_of(&payload);
    buf.extend_from_slice(&[0, 0, 0]);
    let events = drain_connect_frames(&mut buf);
    assert_eq!(events, vec![EnvdEvent::Start { pid: 9 }]);
    assert_eq!(buf, vec![0, 0, 0]);
}

#[test]
fn chunking_does_not_change_the_events() {
    let p1 = event("start", object(vec![("pid", Value::from(5u64))]));
    let p2 = event("data", object(vec![("stderr", Value::from("ZXJy"))]));
    let p3 = event("end", object(vec![("exitCode", Value::from(3i64))]));
    let mut stream = Vec::new();
    stream.extend_from_slice(&frame_of(&p1));
    stream.extend_from_slice(&frame_of(&p2));
    stream.extend_from_slice(&frame_of(&p3));

    let mut whole = stream.clone();
    let at_once = drain_connect_frames(&mut whole);

    for cut in 0..stream.len() {
        let mut buf = stream[..cut].to_vec();
        let mut got = drain_connect_frames(&mut buf);
        buf.extend_from_slice(&stream[cut..]);
        got.extend(drain_connect_frames(&mut buf));
        assert_eq!(got, at_once);
        assert!(buf.is_empty());
    }
    assert_eq!(at_once.len(), 3);
    assert_eq!(
        at_once[1],
        EnvdEvent::Data { stdout: None, stderr: Some(b"err".to_vec()) }
    );
}

#[test]
fn try_parse_reports_consumed_bytes_without_draining() {
    let p1 = event("start", object(vec![("pid", Value::from(77u64))]));
    let mut buf = frame_of(&p1);
    let first_len = buf.len();
    buf.extend_from_slice(&[0, 0, 0, 0, 9, 1]);
    let (events, consumed) = try_parse_connect_frames(&buf).unwrap();
    assert_eq!(events, vec![EnvdEvent::Start { pid: 77 }]);
    assert_eq!(consumed, first_len);
    assert!(try_parse_connect_frames(&buf[first_len..]).is_none());
    assert!(try_parse_connect_frames(&[]).is_none());
}

#[test]
fn frames_that_carry_no_event_are_consumed_silently() {
    // A frame whose payload is not JSON, and one without an event.
    let mut buf = connect_envelope(b"not json");
    buf.extend_from_slice(&frame_of(&object(vec![("other", Value::from(1u64))])));
    let total = buf.len();
    let (events, consumed) = try_parse_connect_frames(&buf).unwrap();
    assert!(events.is_empty());
    assert_eq!(consumed, total);
    let events = drain_connect_frames(&mut buf);
    assert!(events.is_empty());
    assert!(buf.is_empty());
}
