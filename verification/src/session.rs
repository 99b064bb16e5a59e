//! Decisions of a live terminal session: waiting for the process start, and
//! the reactions of the session loop to envd events, browser messages and
//! timers. The caller performs the I/O the decisions call for.

use vstd::prelude::*;
use vstd::string::StringExecFns;
use crate::codec::{base64_standard_encode, encode_base64};
use crate::error::join;
use crate::event::{envd_event_spec, parse_envd_event};
use crate::frame::{
    buffer_events, consumed_len, declared_len, drain_connect_frames, envelope,
    frame_end, has_complete_frame,
};
use crate::models::{
    EnvdEvent, EnvdEventModel, TerminalInput, TerminalInputModel, TerminalOutput,
    TerminalOutputModel,
};
use crate::rpc::{request_pid, EnvdRequest, EnvdRequestModel};

verus! {

/// Seconds without browser activity after which the session closes.
pub const IDLE_TIMEOUT_SECS: u64 = 1800;

/// Seconds between two heartbeat pongs.
pub const HEARTBEAT_INTERVAL_SECS: u64 = 30;

// ---------------------------------------------------------------------------
// Waiting for the process start

/// Where the start event of a `Start` stream lies: the pid of the first
/// whole frame at the front of `buf` that carries a start event, and the
/// number of bytes up to the end of that frame. Without such a frame, no
/// pid, and the number of bytes of the whole frames, which carry nothing the
/// start phase keeps.
pub open spec fn start_scan(buf: Seq<u8>) -> (Option<u64>, nat)
    decreases buf.len(),
{
    if has_complete_frame(buf) {
        let end = frame_end(buf);
        match envd_event_spec(buf[0], buf.subrange(5, end)) {
            Some(EnvdEventModel::Start { pid }) => (Some(pid), end as nat),
            _ => {
                let r = start_scan(buf.skip(end));
                (r.0, (end + r.1) as nat)
            },
        }
    } else {
        (None, 0)
    }
}

fn scan_to_start(buf: &[u8]) -> (r: (Option<u64>, usize))
    ensures
        r.0 == start_scan(buf@).0,
        r.1 == start_scan(buf@).1,
        r.1 <= buf@.len(),
{
    let mut i: usize = 0;
    let len = buf.len();
    assert(buf@.skip(0) == buf@);
    while len - i >= 5
        invariant
            i <= len,
            len == buf@.len(),
            start_scan(buf@).0 == start_scan(buf@.skip(i as int)).0,
            start_scan(buf@).1 == i + start_scan(buf@.skip(i as int)).1,
        decreases len - i,
    {
        let ghost rest = buf@.skip(i as int);
        let flags = buf[i];
        let n = crate::frame::be32_decode(buf[i + 1], buf[i + 2], buf[i + 3], buf[i + 4]);
        let plen = n as usize;
        assert(declared_len(rest) == plen);
        if plen > len - i - 5 {
            assert(!has_complete_frame(rest));
            return (None, i);
        }
        let payload = &buf[i + 5..i + 5 + plen];
        assert(rest.subrange(5, frame_end(rest)) == payload@);
        assert(rest.skip(frame_end(rest)) == buf@.skip(i + 5 + plen));
        match parse_envd_event(flags, payload) {
            Some(EnvdEvent::Start { pid }) => {
                return (Some(pid), i + 5 + plen);
            },
            _ => {},
        }
        i = i + 5 + plen;
    }
    assert(!has_complete_frame(buf@.skip(i as int)));
    (None, i)
}

/// While waiting for the process start: append `chunk` to `buf`; where a
/// whole frame carrying a start event has arrived, take the frames up to and
/// including the first such frame off the front and report its pid, leaving
/// every later byte (whole frames included) for the session. Otherwise take
/// off the whole frames, which carry no start event, and report nothing.
pub fn absorb_start_chunk(buf: &mut Vec<u8>, chunk: &[u8]) -> (pid: Option<u64>)
    ensures
        ({
            let all = old(buf)@ + chunk@;
            &&& pid == start_scan(all).0
            &&& final(buf)@ == all.skip(start_scan(all).1 as int)
        }),
{
    let ghost all = buf@ + chunk@;
    buf.extend_from_slice(chunk);
    assert(buf@ == all);
    let (pid, consumed) = scan_to_start(buf.as_slice());
    let rest = buf.split_off(consumed);
    *buf = rest;
    pid
}

/// What the session does once the `Start` call has answered.
pub enum StartDecision {
    /// The shell runs: send `first`, then run the session loop.
    Run { session: TerminalSession, first: TerminalOutput },
    /// The shell did not start: send `message` and end, with no envd request.
    Abort { message: TerminalOutput },
}

// ---------------------------------------------------------------------------
// The session loop: envd events

/// What the session loop does about one envd event.
#[derive(Debug, Clone, PartialEq, Eq)]
pub enum EnvdReaction {
    /// Nothing (a repeated start event, or data without bytes).
    Ignore,
    /// Send this output; where sending fails, the remaining events of the
    /// same chunk are not handled.
    SendOutput(TerminalOutput),
    /// Send this message; a failure to send is ignored.
    Notify(TerminalOutput),
    /// Send this exit message, stop the input writer and end the session
    /// without signalling the process.
    Exit(TerminalOutput),
}

/// Model of [`EnvdReaction`].
pub enum EnvdReactionModel {
    Ignore,
    SendOutput(TerminalOutputModel),
    Notify(TerminalOutputModel),
    Exit(TerminalOutputModel),
}

impl View for EnvdReaction {
    type V = EnvdReactionModel;

    open spec fn view(&self) -> EnvdReactionModel {
        match *self {
            EnvdReaction::Ignore => EnvdReactionModel::Ignore,
            EnvdReaction::SendOutput(o) => EnvdReactionModel::SendOutput(o@),
            EnvdReaction::Notify(o) => EnvdReactionModel::Notify(o@),
            EnvdReaction::Exit(o) => EnvdReactionModel::Exit(o@),
        }
    }
}

/// The bytes of an optional chunk; none where absent.
pub open spec fn or_empty(b: Option<Seq<u8>>) -> Seq<u8> {
    match b {
        Some(v) => v,
        None => Seq::empty(),
    }
}

/// The reaction to an envd event: data is forwarded base64-encoded (stdout
/// then stderr, nothing where both are empty), the end of the process ends
/// the session with its exit code, envd errors are passed on, and start
/// events are ignored.
pub open spec fn envd_reaction_spec(e: EnvdEventModel) -> EnvdReactionModel {
    match e {
        EnvdEventModel::Start { .. } => EnvdReactionModel::Ignore,
        EnvdEventModel::Data { stdout, stderr } => {
            let combined = or_empty(stdout) + or_empty(stderr);
            if combined.len() > 0 {
                EnvdReactionModel::SendOutput(
                    TerminalOutputModel::Output { data: base64_standard_encode(combined) },
                )
            } else {
                EnvdReactionModel::Ignore
            }
        },
        EnvdEventModel::End { exit_code } => EnvdReactionModel::Exit(
            TerminalOutputModel::Exit { code: exit_code },
        ),
        EnvdEventModel::Error(message) => EnvdReactionModel::Notify(
            TerminalOutputModel::Error { message },
        ),
    }
}

/// The models of a sequence of reactions.
pub open spec fn reactions_view(r: Seq<EnvdReaction>) -> Seq<EnvdReactionModel> {
    r.map_values(|x: EnvdReaction| x@)
}

/// The reactions to a sequence of events.
pub open spec fn reactions_to(events: Seq<EnvdEventModel>) -> Seq<EnvdReactionModel> {
    events.map_values(|e: EnvdEventModel| envd_reaction_spec(e))
}

/// Decide what to do about one envd event.
pub fn react_to_envd_event(event: &EnvdEvent) -> (r: EnvdReaction)
    ensures
        r@ == envd_reaction_spec(event@),
{
    match event {
        EnvdEvent::Start { .. } => EnvdReaction::Ignore,
        EnvdEvent::Data { stdout, stderr } => {
            let mut combined: Vec<u8> = Vec::new();
            match stdout {
                Some(d) => combined.extend_from_slice(d.as_slice()),
                None => {},
            }
            match stderr {
                Some(d) => combined.extend_from_slice(d.as_slice()),
                None => {},
            }
            assert(combined@ == or_empty(crate::models::bytes_view(*stdout)) + or_empty(
                crate::models::bytes_view(*stderr),
            ));
            if combined.len() > 0 {
                EnvdReaction::SendOutput(TerminalOutput::Output { data: encode_base64(combined.as_slice()) })
            } else {
                EnvdReaction::Ignore
            }
        },
        EnvdEvent::End { exit_code } => EnvdReaction::Exit(TerminalOutput::Exit { code: *exit_code }),
        EnvdEvent::Error(message) => EnvdReaction::Notify(TerminalOutput::Error { message: message.clone() }),
    }
}

/// The envd side of a live terminal session: the pid of its shell and the
/// bytes of an incomplete frame waiting for the rest.
pub struct TerminalSession {
    frame_buf: Vec<u8>,
    pid: u64,
}

impl TerminalSession {
    /// The bytes received from envd that do not yet form a whole frame.
    pub closed spec fn pending(&self) -> Seq<u8> {
        self.frame_buf@
    }

    /// The pid of the session's shell.
    pub closed spec fn process_id(&self) -> u64 {
        self.pid
    }

    /// Decide how the session begins: with the pid of a started shell, a
    /// session with nothing pending whose first message announces the pid;
    /// with the text of a start failure, one error message and nothing else.
    pub fn begin(start: Result<u64, String>) -> (d: StartDecision)
        ensures
            start matches Ok(pid) ==> (d matches StartDecision::Run { session, first } && session.process_id()
                == pid && session.pending() == Seq::<u8>::empty() && first@ == (TerminalOutputModel::Started {
                pid,
            })),
            start matches Err(e) ==> (d matches StartDecision::Abort { message } && message@ == (TerminalOutputModel::Error {
                message: "Failed to start shell: "@ + e@,
            })),
    {
        match start {
            Ok(pid) => StartDecision::Run {
                session: TerminalSession { frame_buf: Vec::new(), pid },
                first: TerminalOutput::Started { pid },
            },
            Err(e) => StartDecision::Abort {
                message: TerminalOutput::Error { message: join("Failed to start shell: ", e.as_str()) },
            },
        }
    }

    /// The pid of the session's shell.
    pub fn pid(&self) -> (p: u64)
        ensures
            p == self.process_id(),
    {
        self.pid
    }

    /// Take a chunk of the envd stream: append it to what is pending, decode
    /// the whole frames and return the reactions to their events, in order.
    pub fn on_envd_chunk(&mut self, chunk: &[u8]) -> (r: Vec<EnvdReaction>)
        ensures
            ({
                let all = old(self).pending() + chunk@;
                &&& final(self).pending() == all.skip(consumed_len(all) as int)
                &&& reactions_view(r@) == reactions_to(buffer_events(all))
            }),
            !has_complete_frame(final(self).pending()),
            final(self).process_id() == old(self).process_id(),
    {
        let ghost all = self.frame_buf@ + chunk@;
        self.frame_buf.extend_from_slice(chunk);
        assert(self.frame_buf@ == all);
        let events = drain_connect_frames(&mut self.frame_buf);
        let mut out: Vec<EnvdReaction> = Vec::new();
        let mut i: usize = 0;
        while i < events.len()
            invariant
                i <= events@.len(),
                out@.len() == i,
                forall|j: int| 0 <= j < i ==> #[trigger] out@[j]@ == envd_reaction_spec(events@[j]@),
            decreases events@.len() - i,
        {
            let r = react_to_envd_event(&events[i]);
            out.push(r);
            i = i + 1;
        }
        assert(reactions_view(out@) == reactions_to(crate::frame::events_view(events@)));
        out
    }

    /// Decide what the session loop does about `event`.
    pub fn step(&self, event: SessionEvent) -> (r: SessionStep)
        ensures
            r@ == session_step_spec(self.process_id(), event@),
    {
        let pid = self.pid;
        let closing_signal = EnvdRequest::SendSignal { pid };
        match event {
            SessionEvent::EnvdStreamFailed(t) => SessionStep {
                reset_idle: false,
                reaction: SessionReaction::Close(
                    Closing {
                        message: Some(TerminalOutput::Error { message: join("Stream error: ", t.as_str()) }),
                        signal: closing_signal,
                    },
                ),
            },
            SessionEvent::EnvdStreamClosed => SessionStep {
                reset_idle: false,
                reaction: SessionReaction::Close(
                    Closing { message: Some(TerminalOutput::Exit { code: -1 }), signal: closing_signal },
                ),
            },
            SessionEvent::BrowserText(m) => SessionStep {
                reset_idle: true,
                reaction: match m {
                    Some(TerminalInput::Ping) => SessionReaction::Reply(TerminalOutput::Pong),
                    Some(TerminalInput::Input { data }) => SessionReaction::Request(
                        EnvdRequest::SendInput { pid, data },
                    ),
                    Some(TerminalInput::Resize { rows, cols }) => SessionReaction::Request(
                        EnvdRequest::Update { pid, rows, cols },
                    ),
                    None => SessionReaction::Continue,
                },
            },
            SessionEvent::BrowserBinary(b) => SessionStep {
                reset_idle: true,
                reaction: SessionReaction::Request(
                    EnvdRequest::SendInput { pid, data: encode_base64(b.as_slice()) },
                ),
            },
            SessionEvent::BrowserClosed => SessionStep {
                reset_idle: false,
                reaction: SessionReaction::Close(Closing { message: None, signal: closing_signal }),
            },
            SessionEvent::BrowserFailed => SessionStep {
                reset_idle: false,
                reaction: SessionReaction::Close(Closing { message: None, signal: closing_signal }),
            },
            SessionEvent::BrowserOther => SessionStep {
                reset_idle: false,
                reaction: SessionReaction::Continue,
            },
            SessionEvent::HeartbeatTick => SessionStep {
                reset_idle: false,
                reaction: SessionReaction::ReplyOrClose {
                    message: TerminalOutput::Pong,
                    closing: Closing { message: None, signal: closing_signal },
                },
            },
            SessionEvent::IdleTimeout => SessionStep {
                reset_idle: false,
                reaction: SessionReaction::Close(
                    Closing {
                        message: Some(
                            TerminalOutput::Error {
                                message: String::from_str("Session timed out due to inactivity"),
                            },
                        ),
                        signal: closing_signal,
                    },
                ),
            },
        }
    }
}

// ---------------------------------------------------------------------------
// The session loop: browser messages, the envd stream's end, and timers

/// Something that happened to a live session, other than a chunk of the
/// envd stream.
#[derive(Debug, Clone, PartialEq, Eq)]
pub enum SessionEvent {
    /// Reading the envd stream failed; carries the failure's text.
    EnvdStreamFailed(String),
    /// The envd stream ended.
    EnvdStreamClosed,
    /// A text frame from the browser, with the terminal message it parses
    /// to, if any.
    BrowserText(Option<TerminalInput>),
    /// A binary frame from the browser: raw stdin bytes.
    BrowserBinary(Vec<u8>),
    /// The browser closed the socket, or the socket ended.
    BrowserClosed,
    /// Reading the socket failed.
    BrowserFailed,
    /// Any other WebSocket frame (ping, pong).
    BrowserOther,
    /// The heartbeat interval ([`HEARTBEAT_INTERVAL_SECS`]) elapsed.
    HeartbeatTick,
    /// [`IDLE_TIMEOUT_SECS`] elapsed without browser activity.
    IdleTimeout,
}

/// How the session loop ends: send `message`, if any, stop the envd writer,
/// then send `signal` to envd.
#[derive(Debug, Clone, PartialEq, Eq)]
pub struct Closing {
    pub message: Option<TerminalOutput>,
    pub signal: EnvdRequest,
}

/// What the session loop does next.
#[derive(Debug, Clone, PartialEq, Eq)]
pub enum SessionReaction {
    /// Nothing.
    Continue,
    /// Send this message; a failure to send is ignored.
    Reply(TerminalOutput),
    /// Send `message`; where sending fails, end as `closing` says.
    ReplyOrClose { message: TerminalOutput, closing: Closing },
    /// Hand this request to the envd writer, which sends the requests in
    /// order; a failed request is only logged and the session goes on.
    Request(EnvdRequest),
    /// End the session loop.
    Close(Closing),
}

/// One decision of the session loop.
#[derive(Debug, Clone, PartialEq, Eq)]
pub struct SessionStep {
    /// Restart the idle timer.
    pub reset_idle: bool,
    pub reaction: SessionReaction,
}

/// Model of [`SessionEvent`].
pub enum SessionEventModel {
    EnvdStreamFailed(Seq<char>),
    EnvdStreamClosed,
    BrowserText(Option<TerminalInputModel>),
    BrowserBinary(Seq<u8>),
    BrowserClosed,
    BrowserFailed,
    BrowserOther,
    HeartbeatTick,
    IdleTimeout,
}

/// Model of [`Closing`].
pub struct ClosingModel {
    pub message: Option<TerminalOutputModel>,
    pub signal: EnvdRequestModel,
}

/// Model of [`SessionReaction`].
pub enum SessionReactionModel {
    Continue,
    Reply(TerminalOutputModel),
    ReplyOrClose { message: TerminalOutputModel, closing: ClosingModel },
    Request(EnvdRequestModel),
    Close(ClosingModel),
}

/// Model of [`SessionStep`].
pub struct SessionStepModel {
    pub reset_idle: bool,
    pub reaction: SessionReactionModel,
}

impl View for SessionEvent {
    type V = SessionEventModel;

    open spec fn view(&self) -> SessionEventModel {
        match *self {
            SessionEvent::EnvdStreamFailed(e) => SessionEventModel::EnvdStreamFailed(e@),
            SessionEvent::EnvdStreamClosed => SessionEventModel::EnvdStreamClosed,
            SessionEvent::BrowserText(m) => SessionEventModel::BrowserText(
                match m {
                    Some(i) => Some(i@),
                    None => None,
                },
            ),
            SessionEvent::BrowserBinary(b) => SessionEventModel::BrowserBinary(b@),
            SessionEvent::BrowserClosed => SessionEventModel::BrowserClosed,
            SessionEvent::BrowserFailed => SessionEventModel::BrowserFailed,
            SessionEvent::BrowserOther => SessionEventModel::BrowserOther,
            SessionEvent::HeartbeatTick => SessionEventModel::HeartbeatTick,
            SessionEvent::IdleTimeout => SessionEventModel::IdleTimeout,
        }
    }
}

impl View for Closing {
    type V = ClosingModel;

    open spec fn view(&self) -> ClosingModel {
        ClosingModel {
            message: match self.message {
                Some(m) => Some(m@),
                None => None,
            },
            signal: self.signal@,
        }
    }
}

impl View for SessionReaction {
    type V = SessionReactionModel;

    open spec fn view(&self) -> SessionReactionModel {
        match *self {
            SessionReaction::Continue => SessionReactionModel::Continue,
            SessionReaction::Reply(o) => SessionReactionModel::Reply(o@),
            SessionReaction::ReplyOrClose { message, closing } => SessionReactionModel::ReplyOrClose {
                message: message@,
                closing: closing@,
            },
            SessionReaction::Request(r) => SessionReactionModel::Request(r@),
            SessionReaction::Close(c) => SessionReactionModel::Close(c@),
        }
    }
}

impl View for SessionStep {
    type V = SessionStepModel;

    open spec fn view(&self) -> SessionStepModel {
        SessionStepModel { reset_idle: self.reset_idle, reaction: self.reaction@ }
    }
}

/// The end of the session loop of the shell `pid`: `message`, then a
/// `SIGTERM` for the shell.
pub open spec fn closing_spec(pid: u64, message: Option<TerminalOutputModel>) -> ClosingModel {
    ClosingModel { message, signal: EnvdRequestModel::SendSignal { pid } }
}

/// The decision of the session loop of the shell `pid` on `e`.
///
/// Browser text and binary frames, and only they, restart the idle timer.
/// A ping is answered with a pong; input and resize messages become
/// `SendInput` and `Update` requests for `pid`; unparsable text is dropped;
/// binary frames become `SendInput` requests with their base64. The end of
/// either side, a read failure or the idle timeout end the loop, and so does
/// a heartbeat pong that cannot be sent; every such end signals `pid`.
pub open spec fn session_step_spec(pid: u64, e: SessionEventModel) -> SessionStepModel {
    match e {
        SessionEventModel::EnvdStreamFailed(t) => SessionStepModel {
            reset_idle: false,
            reaction: SessionReactionModel::Close(
                closing_spec(pid, Some(TerminalOutputModel::Error { message: "Stream error: "@ + t })),
            ),
        },
        SessionEventModel::EnvdStreamClosed => SessionStepModel {
            reset_idle: false,
            reaction: SessionReactionModel::Close(
                closing_spec(pid, Some(TerminalOutputModel::Exit { code: -1i32 })),
            ),
        },
        SessionEventModel::BrowserText(m) => SessionStepModel {
            reset_idle: true,
            reaction: match m {
                Some(TerminalInputModel::Ping) => SessionReactionModel::Reply(TerminalOutputModel::Pong),
                Some(TerminalInputModel::Input { data }) => SessionReactionModel::Request(
                    EnvdRequestModel::SendInput { pid, data },
                ),
                Some(TerminalInputModel::Resize { rows, cols }) => SessionReactionModel::Request(
                    EnvdRequestModel::Update { pid, rows, cols },
                ),
                None => SessionReactionModel::Continue,
            },
        },
        SessionEventModel::BrowserBinary(b) => SessionStepModel {
            reset_idle: true,
            reaction: SessionReactionModel::Request(
                EnvdRequestModel::SendInput { pid, data: base64_standard_encode(b) },
            ),
        },
        SessionEventModel::BrowserClosed => SessionStepModel {
            reset_idle: false,
            reaction: SessionReactionModel::Close(closing_spec(pid, None)),
        },
        SessionEventModel::BrowserFailed => SessionStepModel {
            reset_idle: false,
            reaction: SessionReactionModel::Close(closing_spec(pid, None)),
        },
        SessionEventModel::BrowserOther => SessionStepModel {
            reset_idle: false,
            reaction: SessionReactionModel::Continue,
        },
        SessionEventModel::HeartbeatTick => SessionStepModel {
            reset_idle: false,
            reaction: SessionReactionModel::ReplyOrClose {
                message: TerminalOutputModel::Pong,
                closing: closing_spec(pid, None),
            },
        },
        SessionEventModel::IdleTimeout => SessionStepModel {
            reset_idle: false,
            reaction: SessionReactionModel::Close(
                closing_spec(
                    pid,
                    Some(TerminalOutputModel::Error { message: "Session timed out due to inactivity"@ }),
                ),
            ),
        },
    }
}

/// The session reacts to a stream the same way however it is cut into
/// chunks: the reactions to chunk `a` and then chunk `b` are the reactions to
/// `a + b` taken at once, and the bytes left pending are the same.
pub proof fn law_session_chunking(pending: Seq<u8>, a: Seq<u8>, b: Seq<u8>)
    ensures
        ({
            let first = pending + a;
            let left = first.skip(consumed_len(first) as int);
            let whole = pending + a + b;
            &&& reactions_to(buffer_events(first)) + reactions_to(buffer_events(left + b))
                == reactions_to(buffer_events(whole))
            &&& (left + b).skip(consumed_len(left + b) as int) == whole.skip(
                consumed_len(whole) as int,
            )
        }),
{
    let first = pending + a;
    crate::frame::law_drain_chunking(first, b);
    assert(pending + a + b == first + b);
    let x = buffer_events(first);
    let y = buffer_events(first.skip(consumed_len(first) as int) + b);
    assert(reactions_to(x + y) == reactions_to(x) + reactions_to(y));
}

/// Only browser activity restarts the idle timer: a step restarts it exactly
/// when the event is a text or binary frame from the browser.
pub proof fn law_idle_reset_only_on_browser_input(pid: u64, e: SessionEventModel)
    ensures
        session_step_spec(pid, e).reset_idle <==> (e is BrowserText || e is BrowserBinary),
{
}

/// Pings stay between browser and session: a parsed ping is answered with a
/// pong and makes no envd request.
pub proof fn law_ping_answered_locally(pid: u64)
    ensures
        session_step_spec(pid, SessionEventModel::BrowserText(Some(TerminalInputModel::Ping))).reaction
            == SessionReactionModel::Reply(TerminalOutputModel::Pong),
{
}

/// Every envd request of the session is about its own shell, and every way
/// the loop ends, other than the shell's exit, sends one `SIGTERM` to it.
pub proof fn law_requests_name_the_session_pid(pid: u64, e: SessionEventModel)
    ensures
        session_step_spec(pid, e).reaction matches SessionReactionModel::Request(r) ==> request_pid(r)
            == pid && !(r is SendSignal),
        session_step_spec(pid, e).reaction matches SessionReactionModel::Close(c) ==> c.signal
            == (EnvdRequestModel::SendSignal { pid }),
        session_step_spec(pid, e).reaction matches SessionReactionModel::ReplyOrClose { closing, .. }
            ==> closing.signal == (EnvdRequestModel::SendSignal { pid }),
{
}

/// The start phase keeps what follows the start frame: where the stream
/// begins with the envelope of a start event, the start phase reports its
/// pid and takes exactly that envelope, so every later byte, whole frames
/// included, reaches the session. (Payloads longer than `u32::MAX` bytes do
/// not fit the header.)
pub proof fn law_start_keeps_following_frames(p: Seq<u8>, rest: Seq<u8>, pid: u64)
    requires
        p.len() <= u32::MAX,
        envd_event_spec(0, p) == Some(EnvdEventModel::Start { pid }),
    ensures
        start_scan(envelope(p) + rest) == (Some(pid), envelope(p).len()),
        (envelope(p) + rest).skip(envelope(p).len() as int) == rest,
{
    let buf = envelope(p) + rest;
    crate::frame::lemma_envelope_header(p, rest);
    assert(has_complete_frame(buf));
    assert(buf.subrange(5, frame_end(buf)) == p);
    assert(buf.skip(envelope(p).len() as int) == rest);
}

/// The start phase does not depend on how the stream is cut into chunks:
/// where the bytes `a` received so far hold no start frame, receiving `b`
/// next finds the same pid, and leaves the session the same bytes, as
/// receiving `a + b` at once.
pub proof fn law_start_chunking(a: Seq<u8>, b: Seq<u8>)
    requires
        start_scan(a).0 is None,
    ensures
        ({
            let c = start_scan(a).1;
            let left = a.skip(c as int) + b;
            &&& start_scan(a + b).0 == start_scan(left).0
            &&& (a + b).skip(start_scan(a + b).1 as int) == left.skip(start_scan(left).1 as int)
        }),
    decreases a.len(),
{
    if has_complete_frame(a) {
        let ab = a + b;
        let end = frame_end(a);
        assert(ab[1] == a[1] && ab[2] == a[2] && ab[3] == a[3] && ab[4] == a[4] && ab[0] == a[0]);
        assert(has_complete_frame(ab));
        assert(frame_end(ab) == end);
        assert(ab.subrange(5, end) == a.subrange(5, end));
        assert(ab.skip(end) == a.skip(end) + b);
        let r = a.skip(end);
        law_start_chunking(r, b);
        lemma_start_scan_bound(r);
        lemma_start_scan_bound(ab.skip(end));
        assert(a.skip(start_scan(a).1 as int) == r.skip(start_scan(r).1 as int)) by {
            assert(a.skip(end).skip(start_scan(r).1 as int) =~= a.skip(end + start_scan(r).1));
        }
        assert(ab.skip(start_scan(ab).1 as int) == ab.skip(end).skip(start_scan(ab.skip(end)).1 as int))
            by {
            assert(ab.skip(end).skip(start_scan(ab.skip(end)).1 as int) =~= ab.skip(
                end + start_scan(ab.skip(end)).1,
            ));
        }
    } else {
        assert(a.skip(0) == a);
    }
}

proof fn lemma_start_scan_bound(buf: Seq<u8>)
    ensures
        start_scan(buf).1 <= buf.len(),
    decreases buf.len(),
{
    if has_complete_frame(buf) {
        lemma_start_scan_bound(buf.skip(frame_end(buf)));
    }
}

/// Process output reaches the browser whole: for a data event, whatever
/// bytes arrived (stdout, then stderr, an absent stream counting as none)
/// are sent, base64-encoded, whenever there is at least one; only an event
/// without bytes is ignored. Output on stderr alone is forwarded too.
pub proof fn law_data_forwarding(stdout: Option<Seq<u8>>, stderr: Option<Seq<u8>>)
    ensures
        ({
            let out_bytes: Seq<u8> = match stdout {
                Some(b) => b,
                None => seq![],
            };
            let err_bytes: Seq<u8> = match stderr {
                Some(b) => b,
                None => seq![],
            };
            let all = out_bytes + err_bytes;
            let r = envd_reaction_spec(EnvdEventModel::Data { stdout, stderr });
            &&& all.len() > 0 ==> r == EnvdReactionModel::SendOutput(
                TerminalOutputModel::Output { data: base64_standard_encode(all) },
            )
            &&& all.len() == 0 ==> r == EnvdReactionModel::Ignore
        }),
        forall|b: Seq<u8>|
            b.len() > 0 ==> #[trigger] envd_reaction_spec(
                EnvdEventModel::Data { stdout: None, stderr: Some(b) },
            ) == EnvdReactionModel::SendOutput(
                TerminalOutputModel::Output { data: base64_standard_encode(b) },
            ),
{
    assert forall|b: Seq<u8>| b.len() > 0 implies #[trigger] envd_reaction_spec(
        EnvdEventModel::Data { stdout: None, stderr: Some(b) },
    ) == EnvdReactionModel::SendOutput(
        TerminalOutputModel::Output { data: base64_standard_encode(b) },
    ) by {
        assert(Seq::<u8>::empty() + b == b);
    }
}

/// The other reactions to envd events pass their content on unchanged: the
/// process's exit code to the exit message, envd's error text to the error
/// message; a repeated start is ignored.
pub proof fn law_envd_reactions_keep_content(e: EnvdEventModel)
    ensures
        e matches EnvdEventModel::End { exit_code } ==> envd_reaction_spec(e)
            == EnvdReactionModel::Exit(TerminalOutputModel::Exit { code: exit_code }),
        e matches EnvdEventModel::Error(m) ==> envd_reaction_spec(e) == EnvdReactionModel::Notify(
            TerminalOutputModel::Error { message: m },
        ),
        e is Start ==> envd_reaction_spec(e) == EnvdReactionModel::Ignore,
{
}

/// Whether envd request `r` carries exactly the content of browser message `i`.
pub open spec fn request_carries(r: EnvdRequestModel, i: TerminalInputModel) -> bool {
    match (r, i) {
        (EnvdRequestModel::SendInput { data: d1, .. }, TerminalInputModel::Input { data: d2 }) => d1 == d2,
        (
            EnvdRequestModel::Update { rows: r1, cols: c1, .. },
            TerminalInputModel::Resize { rows: r2, cols: c2 },
        ) => r1 == r2 && c1 == c2,
        _ => false,
    }
}

/// Browser messages reach envd unchanged: every parsed message other than a
/// ping becomes exactly one request about the session's shell that carries
/// the message's data, or its rows and columns, as they are; a binary frame
/// becomes stdin input carrying the base64 of its bytes.
pub proof fn law_browser_input_forwarded_unchanged(pid: u64, i: TerminalInputModel, b: Seq<u8>)
    ensures
        i != TerminalInputModel::Ping ==> (session_step_spec(
            pid,
            SessionEventModel::BrowserText(Some(i)),
        ).reaction matches SessionReactionModel::Request(r) && request_pid(r) == pid
            && request_carries(r, i)),
        session_step_spec(pid, SessionEventModel::BrowserBinary(b)).reaction
            == SessionReactionModel::Request(
            EnvdRequestModel::SendInput { pid, data: base64_standard_encode(b) },
        ),
{
}

/// The loop ends exactly on the end of either side, a read failure or the
/// idle timeout (and on a heartbeat that cannot be sent); browser messages
/// and other frames never end it. The browser learns why where envd's side
/// ended: exit code -1 when the stream closed, the failure's text when it
/// failed, the timeout when it was idle.
pub proof fn law_session_endings(pid: u64, e: SessionEventModel)
    ensures
        session_step_spec(pid, e).reaction is Close <==> (e is EnvdStreamFailed || e is EnvdStreamClosed
            || e is BrowserClosed || e is BrowserFailed || e is IdleTimeout),
        session_step_spec(pid, e).reaction is ReplyOrClose <==> e is HeartbeatTick,
        e is EnvdStreamClosed ==> session_step_spec(pid, e).reaction == SessionReactionModel::Close(
            closing_spec(pid, Some(TerminalOutputModel::Exit { code: -1i32 })),
        ),
        e matches SessionEventModel::EnvdStreamFailed(t) ==> (session_step_spec(pid, e).reaction
            matches SessionReactionModel::Close(c) && c.message matches Some(
            TerminalOutputModel::Error { message },
        ) && message.len() >= t.len() && message.subrange(message.len() - t.len(), message.len() as int) == t),
        (e is BrowserClosed || e is BrowserFailed) ==> session_step_spec(pid, e).reaction
            == SessionReactionModel::Close(closing_spec(pid, None)),
{
    if let SessionEventModel::EnvdStreamFailed(t) = e {
        let m = "Stream error: "@ + t;
        assert(m.subrange(m.len() - t.len(), m.len() as int) == t);
    }
}

} // verus!
