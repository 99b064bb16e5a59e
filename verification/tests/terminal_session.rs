use cube_terminal::endpoint::{
    auth_callback_verdict, auth_send_error, auth_step, bearer_header, require_running,
    sandbox_domain, terminal_request_path, AuthStep,
};
use cube_terminal::error::TerminalError;
use cube_terminal::frame::connect_envelope;
use cube_terminal::models::{default_cols, default_rows, EnvdEvent, TerminalInput, TerminalOutput, TerminalQuery};
use cube_terminal::rpc::{envd_host, envd_url, EnvdRequest};
use cube_terminal::session::{
    absorb_start_chunk, react_to_envd_event, Closing, EnvdReaction, SessionEvent, SessionReaction,
    StartDecision, TerminalSession, HEARTBEAT_INTERVAL_SECS, IDLE_TIMEOUT_SECS,
};

fn running_session(pid: u64) -> TerminalSession {
    match TerminalSession::begin(Ok(pid)) {
        StartDecision::Run { session, .. } => session,
        StartDecision::Abort { .. } => panic!("expected a running session"),
    }
}

#[test]
fn query_defaults() {
    assert_eq!(default_rows(), 24);
    assert_eq!(default_cols(), 80);
    let q = TerminalQuery { token: None, container: Some("main".to_string()), rows: default_rows(), cols: default_cols() };
    assert_eq!((q.rows, q.cols), (24, 80));
}

#[test]
fn session_timers() {
    assert_eq!(IDLE_TIMEOUT_SECS, 30 * 60);
    assert_eq!(HEARTBEAT_INTERVAL_SECS, 30);
}

#[test]
fn auth_decisions() {
    assert_eq!(auth_step(None, None), AuthStep::Skip);
    assert_eq!(auth_step(Some(String::new()), None), AuthStep::Skip);
    assert_eq!(
        auth_step(Some("http://auth".to_string()), None),
        AuthStep::Reject(TerminalError::Unauthorized("Missing ?token= query parameter".to_string()))
    );
    assert_eq!(
        auth_step(Some("http://auth".to_string()), Some(String::new())),
        AuthStep::Reject(TerminalError::Unauthorized("Missing ?token= query parameter".to_string()))
    );
    assert_eq!(
        auth_step(Some("http://auth".to_string()), Some("abc".to_string())),
        AuthStep::Validate { callback_url: "http://auth".to_string(), token: "abc".to_string() }
    );
    assert_eq!(auth_callback_verdict(200), Ok(()));
    assert_eq!(
        auth_callback_verdict(204),
        Err(TerminalError::Unauthorized("Authentication rejected for terminal session".to_string()))
    );
    assert_eq!(bearer_header("abc"), "Bearer abc");
    assert_eq!(terminal_request_path("sb-1"), "/sandboxes/sb-1/terminal");
    assert_eq!(auth_send_error("timeout"), TerminalError::Internal("auth callback failed: timeout".to_string()));
}

#[test]
fn sandbox_checks_and_addresses() {
    assert_eq!(require_running(true, "sb", "Running"), Ok(()));
    assert_eq!(
        require_running(false, "sb", "Paused"),
        Err(TerminalError::BadRequest("Sandbox sb is Paused, terminal requires Running".to_string()))
    );
    assert_eq!(sandbox_domain(Some("a.io".to_string()), &"b.io".to_string()), "a.io");
    assert_eq!(sandbox_domain(None, &"b.io".to_string()), "b.io");
    assert_eq!(envd_host("sb", "cube.local"), "49983-sb.cube.local");
    assert_eq!(envd_url(None, "Start"), "http://127.0.0.1/process.Process/Start");
    assert_eq!(envd_url(Some("http://proxy:8080//"), "SendInput"), "http://proxy:8080/process.Process/SendInput");
    assert_eq!(envd_url(Some("http://p"), "Update"), "http://p/process.Process/Update");
    assert_eq!(envd_url(Some("///"), "X"), "/process.Process/X");
}

#[test]
fn startup_waits_for_the_start_event() {
    let start = connect_envelope(br#"{"event":{"start":{"pid":11}}}"#);
    let data = connect_envelope(br#"{"event":{"data":{"stdout":"aGVsbG8="}}}"#);
    let mut buf = Vec::new();
    assert_eq!(absorb_start_chunk(&mut buf, &start[..3]), None);
    assert_eq!(buf, start[..3].to_vec());
    let mut rest = start[3..].to_vec();
    rest.extend_from_slice(&data[..4]);
    assert_eq!(absorb_start_chunk(&mut buf, &rest), Some(11));
    assert_eq!(buf, data[..4].to_vec());
}

#[test]
fn frames_after_the_start_frame_reach_the_session() {
    let mut stream = connect_envelope(br#"{"event":{"data":{"stdout":"ZWFybHk="}}}"#);
    stream.extend_from_slice(&connect_envelope(br#"{"event":{"start":{"pid":1}}}"#));
    let after_start = stream.len();
    stream.extend_from_slice(&connect_envelope(br#"{"event":{"start":{"pid":2}}}"#));
    stream.extend_from_slice(&connect_envelope(br#"{"event":{"data":{"stdout":"aGVsbG8="}}}"#));
    let mut buf = Vec::new();
    assert_eq!(absorb_start_chunk(&mut buf, &stream), Some(1));
    assert_eq!(buf, stream[after_start..].to_vec());
    let mut s = running_session(1);
    let reactions = s.on_envd_chunk(&buf);
    assert_eq!(
        reactions,
        vec![
            EnvdReaction::Ignore,
            EnvdReaction::SendOutput(TerminalOutput::Output { data: "aGVsbG8=".to_string() }),
        ]
    );
}

#[test]
fn start_decisions() {
    match TerminalSession::begin(Ok(42)) {
        StartDecision::Run { session, first } => {
            assert_eq!(session.pid(), 42);
            assert_eq!(first, TerminalOutput::Started { pid: 42 });
        }
        StartDecision::Abort { .. } => panic!("expected Run"),
    }
    match TerminalSession::begin(Err("boom".to_string())) {
        StartDecision::Abort { message } => {
            assert_eq!(message, TerminalOutput::Error { message: "Failed to start shell: boom".to_string() })
        }
        StartDecision::Run { .. } => panic!("expected Abort"),
    }
}

#[test]
fn session_reacts_to_envd_events() {
    let mut s = running_session(42);
    let mut stream = connect_envelope(br#"{"event":{"start":{"pid":42}}}"#);
    stream.extend_from_slice(&connect_envelope(br#"{"event":{"data":{"stdout":"aGVs","stderr":"bG8="}}}"#));
    let r = s.on_envd_chunk(&stream[..10]);
    assert!(r.is_empty());
    let r = s.on_envd_chunk(&stream[10..]);
    assert_eq!(r, vec![EnvdReaction::Ignore, EnvdReaction::SendOutput(TerminalOutput::Output { data: "aGVsbG8=".to_string() })]);
    let mut tail = vec![2u8, 0, 0, 0, 16];
    tail.extend_from_slice(br#"{"error":"deny"}"#);
    tail.extend_from_slice(&connect_envelope(br#"{"event":{"end":{"status":"exit status 3"}}}"#));
    let r = s.on_envd_chunk(&tail);
    assert_eq!(
        r,
        vec![
            EnvdReaction::Notify(TerminalOutput::Error { message: "\"deny\"".to_string() }),
            EnvdReaction::Exit(TerminalOutput::Exit { code: 3 }),
        ]
    );
}

#[test]
fn empty_data_is_ignored() {
    let r = react_to_envd_event(&EnvdEvent::Data { stdout: Some(vec![]), stderr: None });
    assert_eq!(r, EnvdReaction::Ignore);
    let r = react_to_envd_event(&EnvdEvent::Data { stdout: Some(b"wor".to_vec()), stderr: Some(b"ld".to_vec()) });
    assert_eq!(r, EnvdReaction::SendOutput(TerminalOutput::Output { data: "d29ybGQ=".to_string() }));
}

#[test]
fn browser_and_timer_steps() {
    let s = running_session(9);
    let signal = EnvdRequest::SendSignal { pid: 9 };
    let st = s.step(SessionEvent::BrowserText(Some(TerminalInput::Ping)));
    assert!(st.reset_idle);
    assert_eq!(st.reaction, SessionReaction::Reply(TerminalOutput::Pong));
    let st = s.step(SessionEvent::BrowserText(Some(TerminalInput::Resize { rows: 40, cols: 120 })));
    assert_eq!(st.reaction, SessionReaction::Request(EnvdRequest::Update { pid: 9, rows: 40, cols: 120 }));
    let st = s.step(SessionEvent::BrowserText(Some(TerminalInput::Input { data: "bHM=".to_string() })));
    assert_eq!(st.reaction, SessionReaction::Request(EnvdRequest::SendInput { pid: 9, data: "bHM=".to_string() }));
    let st = s.step(SessionEvent::BrowserText(None));
    assert!(st.reset_idle);
    assert_eq!(st.reaction, SessionReaction::Continue);
    let st = s.step(SessionEvent::BrowserBinary(b"hello".to_vec()));
    assert!(st.reset_idle);
    assert_eq!(st.reaction, SessionReaction::Request(EnvdRequest::SendInput { pid: 9, data: "aGVsbG8=".to_string() }));
    let st = s.step(SessionEvent::HeartbeatTick);
    assert!(!st.reset_idle);
    assert_eq!(
        st.reaction,
        SessionReaction::ReplyOrClose {
            message: TerminalOutput::Pong,
            closing: Closing { message: None, signal: signal.clone() },
        }
    );
    let st = s.step(SessionEvent::IdleTimeout);
    assert_eq!(
        st.reaction,
        SessionReaction::Close(Closing {
            message: Some(TerminalOutput::Error { message: "Session timed out due to inactivity".to_string() }),
            signal: signal.clone(),
        })
    );
    let st = s.step(SessionEvent::EnvdStreamClosed);
    assert_eq!(
        st.reaction,
        SessionReaction::Close(Closing { message: Some(TerminalOutput::Exit { code: -1 }), signal: signal.clone() })
    );
    let st = s.step(SessionEvent::EnvdStreamFailed("reset".to_string()));
    assert_eq!(
        st.reaction,
        SessionReaction::Close(Closing {
            message: Some(TerminalOutput::Error { message: "Stream error: reset".to_string() }),
            signal: signal.clone(),
        })
    );
    assert_eq!(
        s.step(SessionEvent::BrowserClosed).reaction,
        SessionReaction::Close(Closing { message: None, signal: signal.clone() })
    );
    assert_eq!(
        s.step(SessionEvent::BrowserFailed).reaction,
        SessionReaction::Close(Closing { message: None, signal })
    );
    let st = s.step(SessionEvent::BrowserOther);
    assert!(!st.reset_idle);
    assert_eq!(st.reaction, SessionReaction::Continue);
}

#[test]
fn start_phase_is_independent_of_chunking() {
    let mut stream = connect_envelope(br#"{"event":{"start":{"pid":5}}}"#);
    let start_len = stream.len();
    stream.extend_from_slice(&connect_envelope(br#"{"event":{"data":{"stdout":"aGk="}}}"#));
    stream.extend_from_slice(&[0, 0]);
    for cut in 0..=stream.len() {
        let mut buf = Vec::new();
        let mut pid = absorb_start_chunk(&mut buf, &stream[..cut]);
        let mut rest: Vec<u8> = Vec::new();
        if pid.is_none() {
            pid = absorb_start_chunk(&mut buf, &stream[cut..]);
        } else {
            rest.extend_from_slice(&stream[cut..]);
        }
        assert_eq!(pid, Some(5));
        buf.extend_from_slice(&rest);
        assert_eq!(buf, stream[start_len..].to_vec());
    }
}
