use cube_terminal::event::{event_from_fields, parse_envd_event, EnvdPayloadFields};
use cube_terminal::models::EnvdEvent;
use cube_terminal::text::exit_status_code;

fn fields() -> EnvdPayloadFields {
    EnvdPayloadFields {
        is_json: true,
        error: None,
        message: None,
        has_event: true,
        has_start: false,
        pid: None,
        has_data: false,
        stdout: None,
        stderr: None,
        has_end: false,
        exit_code: None,
        status: None,
    }
}

#[test]
fn start_without_pid_defaults_to_zero() {
    let f = EnvdPayloadFields { has_start: true, ..fields() };
    assert_eq!(event_from_fields(0, f), Some(EnvdEvent::Start { pid: 0 }));
    let out = parse_envd_event(0, br#"{"event":{"start":{"pid":"x"}}}"#);
    assert_eq!(out, Some(EnvdEvent::Start { pid: 0 }));
}

#[test]
fn error_flag_takes_error_then_message_then_fallback() {
    let f = EnvdPayloadFields { error: Some("\"e\"".to_string()), message: Some("m".to_string()), ..fields() };
    assert_eq!(event_from_fields(2, f), Some(EnvdEvent::Error("\"e\"".to_string())));
    let f = EnvdPayloadFields { message: Some("m".to_string()), ..fields() };
    assert_eq!(event_from_fields(0b11, f), Some(EnvdEvent::Error("m".to_string())));
    let f = fields();
    assert_eq!(event_from_fields(2, f), Some(EnvdEvent::Error("unknown envd error".to_string())));
    let out = parse_envd_event(2, br#"{"message":{"code":7}}"#);
    assert_eq!(out, Some(EnvdEvent::Error("{\"code\":7}".to_string())));
}

#[test]
fn error_flag_is_bit_one() {
    // Flags 0x01 (compressed bit) is not an error frame.
    let out = parse_envd_event(1, br#"{"error":"x"}"#);
    assert_eq!(out, None);
}

#[test]
fn invalid_json_yields_nothing_even_with_error_flag() {
    assert_eq!(parse_envd_event(2, b"{oops"), None);
    let f = EnvdPayloadFields { is_json: false, has_start: true, ..fields() };
    assert_eq!(event_from_fields(0, f), None);
}

#[test]
fn data_without_decodable_streams_falls_through_to_end() {
    let out = parse_envd_event(0, br#"{"event":{"data":{"stdout":"!!!"},"end":{"exitCode":4}}}"#);
    assert_eq!(out, Some(EnvdEvent::End { exit_code: 4 }));
    let out = parse_envd_event(0, br#"{"event":{"data":{"stdout":5}}}"#);
    assert_eq!(out, None);
    let f = EnvdPayloadFields { has_data: true, stderr: Some(vec![1, 2]), ..fields() };
    assert_eq!(event_from_fields(0, f), Some(EnvdEvent::Data { stdout: None, stderr: Some(vec![1, 2]) }));
}

#[test]
fn start_wins_over_data_and_end() {
    let out = parse_envd_event(0, br#"{"event":{"end":{"exitCode":1},"start":{"pid":3}}}"#);
    assert_eq!(out, Some(EnvdEvent::Start { pid: 3 }));
}

#[test]
fn end_exit_code_sources() {
    let f = EnvdPayloadFields { has_end: true, ..fields() };
    assert_eq!(event_from_fields(0, f), Some(EnvdEvent::End { exit_code: -1 }));
    let f = EnvdPayloadFields { has_end: true, status: Some("exit status  -9 ".to_string()), ..fields() };
    assert_eq!(event_from_fields(0, f), Some(EnvdEvent::End { exit_code: -9 }));
    let f = EnvdPayloadFields { has_end: true, status: Some("signal: killed".to_string()), ..fields() };
    assert_eq!(event_from_fields(0, f), Some(EnvdEvent::End { exit_code: -1 }));
    // exitCode takes precedence over the status text.
    let f = EnvdPayloadFields {
        has_end: true,
        exit_code: Some(2),
        status: Some("exit status 5".to_string()),
        ..fields()
    };
    assert_eq!(event_from_fields(0, f), Some(EnvdEvent::End { exit_code: 2 }));
    // The i64 exit code is truncated to 32 bits.
    let f = EnvdPayloadFields { has_end: true, exit_code: Some(0x1_0000_0005), ..fields() };
    assert_eq!(event_from_fields(0, f), Some(EnvdEvent::End { exit_code: 5 }));
    let out = parse_envd_event(0, br#"{"event":{"end":{"exitCode":-2}}}"#);
    assert_eq!(out, Some(EnvdEvent::End { exit_code: -2 }));
}

#[test]
fn exit_status_text_parsing() {
    assert_eq!(exit_status_code("exit status 137"), Some(137));
    assert_eq!(exit_status_code("exit status +7"), Some(7));
    assert_eq!(exit_status_code("exit status \t 12\n"), Some(12));
    assert_eq!(exit_status_code("exit status -9223372036854775808"), Some(i64::MIN));
    assert_eq!(exit_status_code("exit status 9223372036854775807"), Some(i64::MAX));
    assert_eq!(exit_status_code("exit status 9223372036854775808"), None);
    assert_eq!(exit_status_code("exit status 99999999999999999999999"), None);
    assert_eq!(exit_status_code("exit status "), None);
    assert_eq!(exit_status_code("exit status -"), None);
    assert_eq!(exit_status_code("exit status 1 2"), None);
    assert_eq!(exit_status_code("exit status 0x10"), None);
    assert_eq!(exit_status_code("Exit status 1"), None);
    assert_eq!(exit_status_code(" exit status 1"), None);
    assert_eq!(exit_status_code("exit"), None);
    assert_eq!(exit_status_code("exit status \u{3000}42\u{a0}"), Some(42));
}

#[test]
fn payload_fields_are_read_by_pointer() {
    let f = EnvdPayloadFields::read(br#"{"event":{"data":{"stdout":"aGk=","stderr":"!"}}}"#);
    assert!(f.is_json && f.has_event && f.has_data && !f.has_start && !f.has_end);
    assert_eq!(f.stdout, Some(b"hi".to_vec()));
    assert_eq!(f.stderr, None);
    let f = EnvdPayloadFields::read(br#"{"error":"boom","event":[1]}"#);
    assert_eq!(f.error, Some("\"boom\"".to_string()));
    assert!(f.has_event && !f.has_start);
    let f = EnvdPayloadFields::read(br#"{"event":{"end":{"exitCode":1.5,"status":"exit status 8"}}}"#);
    assert_eq!(f.exit_code, None);
    assert_eq!(f.status, Some("exit status 8".to_string()));
}
