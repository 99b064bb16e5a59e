use base64::Engine;
use cube_terminal::error::TerminalError;
use cube_terminal::rpc::{
    envd_request_body, http_success, request_method, rpc_send_error, rpc_status_error,
    start_closed_error, start_read_error, start_request_frame, start_send_error,
    start_status_error, EnvdRequest, CONNECT_JSON, ENVD_AUTH, UNARY_JSON,
};
use serde_json::Value;

fn object(entries: Vec<(&str, Value)>) -> Value {
    let mut m = serde_json::Map::new();
    for (k, v) in entries {
        m.insert(k.to_string(), v);
    }
    Value::Object(m)
}

fn size(rows: u16, cols: u16) -> Value {
    object(vec![("size", object(vec![("rows", Value::from(rows as u32)), ("cols", Value::from(cols as u32))]))])
}

#[test]
fn request_bodies_match_serde_json() {
    let r = EnvdRequest::SendInput { pid: 7, data: "aGk=".to_string() };
    let expected = object(vec![
        ("process", object(vec![("pid", Value::from(7u64))])),
        ("input", object(vec![("pty", Value::from("aGk="))])),
    ]);
    assert_eq!(envd_request_body(&r), serde_json::to_string(&expected).unwrap());
    assert_eq!(envd_request_body(&r), r#"{"input":{"pty":"aGk="},"process":{"pid":7}}"#);
    assert_eq!(request_method(&r), "SendInput");

    let r = EnvdRequest::SendInput { pid: 0, data: "a\"b\\c\n".to_string() };
    let expected = object(vec![
        ("process", object(vec![("pid", Value::from(0u64))])),
        ("input", object(vec![("pty", Value::from("a\"b\\c\n"))])),
    ]);
    assert_eq!(envd_request_body(&r), serde_json::to_string(&expected).unwrap());

    let r = EnvdRequest::Update { pid: u64::MAX, rows: 40, cols: 120 };
    let expected = object(vec![
        ("process", object(vec![("pid", Value::from(u64::MAX))])),
        ("pty", size(40, 120)),
    ]);
    assert_eq!(envd_request_body(&r), serde_json::to_string(&expected).unwrap());
    assert_eq!(request_method(&r), "Update");

    let r = EnvdRequest::SendSignal { pid: 1234 };
    let expected = object(vec![
        ("process", object(vec![("pid", Value::from(1234u64))])),
        ("signal", Value::from("SIGNAL_SIGTERM")),
    ]);
    assert_eq!(envd_request_body(&r), serde_json::to_string(&expected).unwrap());
    assert_eq!(request_method(&r), "SendSignal");
}

#[test]
fn start_frame_matches_serde_json() {
    let expected = object(vec![
        (
            "process",
            object(vec![
                ("cmd", Value::from("/bin/bash")),
                ("args", Value::Array(vec![Value::from("-i"), Value::from("-l")])),
                (
                    "envs",
                    object(vec![("TERM", Value::from("xterm-256color")), ("LANG", Value::from("en_US.UTF-8"))]),
                ),
            ]),
        ),
        ("pty", size(24, 80)),
    ]);
    let body = serde_json::to_vec(&expected).unwrap();
    let frame = start_request_frame(24, 80);
    assert_eq!(frame[0], 0);
    assert_eq!(u32::from_be_bytes([frame[1], frame[2], frame[3], frame[4]]) as usize, body.len());
    assert_eq!(&frame[5..], body.as_slice());
}

#[test]
fn envd_headers_and_verdicts() {
    let expected = format!("Basic {}", base64::engine::general_purpose::STANDARD.encode(b"root:"));
    assert_eq!(ENVD_AUTH, expected);
    assert_eq!(CONNECT_JSON, "application/connect+json");
    assert_eq!(UNARY_JSON, "application/json");
    assert!(http_success(200) && http_success(299));
    assert!(!http_success(199) && !http_success(300) && !http_success(404));
    assert_eq!(rpc_send_error("Update", "refused"), TerminalError::Internal("Update: refused".to_string()));
    assert_eq!(
        rpc_status_error("SendInput", "502 Bad Gateway"),
        TerminalError::Internal("SendInput HTTP 502 Bad Gateway".to_string())
    );
    assert_eq!(start_send_error("x"), TerminalError::Internal("envd Start failed: x".to_string()));
    assert_eq!(
        start_status_error("500 Internal Server Error", "oops"),
        TerminalError::Internal("envd Start HTTP 500 Internal Server Error: oops".to_string())
    );
    assert_eq!(start_read_error("y"), TerminalError::Internal("envd stream read error during start: y".to_string()));
    assert_eq!(start_closed_error(), TerminalError::Internal("envd stream closed before start event".to_string()));
}
