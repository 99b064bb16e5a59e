//! The envd RPCs: where they go, what they carry, and how their failures read.

use vstd::prelude::*;
use vstd::string::StringExecFns;
use vstd::utf8::encode_utf8;
use crate::error::{join, TerminalError, TerminalErrorModel};
use crate::frame::{connect_envelope, envelope};
use crate::json::{json_quote, json_string_text};
use crate::text::{decimal_string, decimal_text, is_digit, law_decimal_injective, law_decimal_roundtrip, lemma_digits_split};

verus! {

/// Content type of the Connect streaming `Start` call.
pub const CONNECT_JSON: &'static str = "application/connect+json";

/// Content type of the unary envd calls.
pub const UNARY_JSON: &'static str = "application/json";

/// Basic-auth header that envd accepts: base64 of `root:`.
pub const ENVD_AUTH: &'static str = "Basic cm9vdDo=";

/// A unary envd RPC about the session's process.
#[derive(Debug, Clone, PartialEq, Eq)]
pub enum EnvdRequest {
    /// `process.Process/SendInput`: base64 stdin data for the PTY.
    SendInput { pid: u64, data: String },
    /// `process.Process/Update`: a new PTY size.
    Update { pid: u64, rows: u16, cols: u16 },
    /// `process.Process/SendSignal` with `SIGNAL_SIGTERM`.
    SendSignal { pid: u64 },
}

/// Model of [`EnvdRequest`].
pub enum EnvdRequestModel {
    SendInput { pid: u64, data: Seq<char> },
    Update { pid: u64, rows: u16, cols: u16 },
    SendSignal { pid: u64 },
}

impl View for EnvdRequest {
    type V = EnvdRequestModel;

    open spec fn view(&self) -> EnvdRequestModel {
        match *self {
            EnvdRequest::SendInput { pid, data } => EnvdRequestModel::SendInput { pid, data: data@ },
            EnvdRequest::Update { pid, rows, cols } => EnvdRequestModel::Update { pid, rows, cols },
            EnvdRequest::SendSignal { pid } => EnvdRequestModel::SendSignal { pid },
        }
    }
}

/// The process that a request is about.
pub open spec fn request_pid(r: EnvdRequestModel) -> u64 {
    match r {
        EnvdRequestModel::SendInput { pid, .. } => pid,
        EnvdRequestModel::Update { pid, .. } => pid,
        EnvdRequestModel::SendSignal { pid } => pid,
    }
}

/// The RPC method that carries a request.
pub open spec fn request_method_spec(r: EnvdRequestModel) -> Seq<char> {
    match r {
        EnvdRequestModel::SendInput { .. } => "SendInput"@,
        EnvdRequestModel::Update { .. } => "Update"@,
        EnvdRequestModel::SendSignal { .. } => "SendSignal"@,
    }
}

/// The name of the envd RPC method that carries `request`.
pub fn request_method(request: &EnvdRequest) -> (m: &'static str)
    ensures
        m@ == request_method_spec(request@),
{
    match request {
        EnvdRequest::SendInput { .. } => "SendInput",
        EnvdRequest::Update { .. } => "Update",
        EnvdRequest::SendSignal { .. } => "SendSignal",
    }
}

/// The JSON body of a request, keys in sorted order as `serde_json` writes
/// an object:
/// `{"input":{"pty":DATA},"process":{"pid":PID}}`,
/// `{"process":{"pid":PID},"pty":{"size":{"cols":C,"rows":R}}}`,
/// `{"process":{"pid":PID},"signal":"SIGNAL_SIGTERM"}`.
pub open spec fn request_body_spec(r: EnvdRequestModel) -> Seq<char> {
    match r {
        EnvdRequestModel::SendInput { pid, data } => "{\"input\":{\"pty\":"@ + json_string_text(data)
            + "},\"process\":{\"pid\":"@ + decimal_text(pid as nat) + "}}"@,
        EnvdRequestModel::Update { pid, rows, cols } => "{\"process\":{\"pid\":"@ + decimal_text(
            pid as nat,
        ) + "},\"pty\":{\"size\":{\"cols\":"@ + decimal_text(cols as nat) + ",\"rows\":"@
            + decimal_text(rows as nat) + "}}}"@,
        EnvdRequestModel::SendSignal { pid } => "{\"process\":{\"pid\":"@ + decimal_text(pid as nat)
            + "},\"signal\":\"SIGNAL_SIGTERM\"}"@,
    }
}

/// The JSON body of `request`.
pub fn envd_request_body(request: &EnvdRequest) -> (r: String)
    ensures
        r@ == request_body_spec(request@),
{
    match request {
        EnvdRequest::SendInput { pid, data } => {
            let q = json_quote(data.as_str());
            let p = decimal_string(*pid);
            let a = join("{\"input\":{\"pty\":", q.as_str());
            let b = join(a.as_str(), "},\"process\":{\"pid\":");
            let c = join(b.as_str(), p.as_str());
            join(c.as_str(), "}}")
        },
        EnvdRequest::Update { pid, rows, cols } => {
            let p = decimal_string(*pid);
            let c = decimal_string(*cols as u64);
            let r = decimal_string(*rows as u64);
            let a = join("{\"process\":{\"pid\":", p.as_str());
            let b = join(a.as_str(), "},\"pty\":{\"size\":{\"cols\":");
            let d = join(b.as_str(), c.as_str());
            let e = join(d.as_str(), ",\"rows\":");
            let f = join(e.as_str(), r.as_str());
            join(f.as_str(), "}}}")
        },
        EnvdRequest::SendSignal { pid } => {
            let p = decimal_string(*pid);
            let a = join("{\"process\":{\"pid\":", p.as_str());
            join(a.as_str(), "},\"signal\":\"SIGNAL_SIGTERM\"}")
        },
    }
}

/// The JSON body of the `Start` call: an interactive login bash with an
/// xterm terminal and a UTF-8 locale, on a PTY of `rows` by `cols`.
pub open spec fn start_body_spec(rows: u16, cols: u16) -> Seq<char> {
    "{\"process\":{\"args\":[\"-i\",\"-l\"],\"cmd\":\"/bin/bash\",\"envs\":{\"LANG\":\"en_US.UTF-8\",\"TERM\":\"xterm-256color\"}},\"pty\":{\"size\":{\"cols\":"@
        + decimal_text(cols as nat) + ",\"rows\":"@ + decimal_text(rows as nat) + "}}}"@
}

/// The body of the `Start` call: its JSON, UTF-8 encoded, in a Connect envelope.
pub fn start_request_frame(rows: u16, cols: u16) -> (r: Vec<u8>)
    ensures
        r@ == envelope(encode_utf8(start_body_spec(rows, cols))),
{
    let c = decimal_string(cols as u64);
    let r = decimal_string(rows as u64);
    let a = join(
        "{\"process\":{\"args\":[\"-i\",\"-l\"],\"cmd\":\"/bin/bash\",\"envs\":{\"LANG\":\"en_US.UTF-8\",\"TERM\":\"xterm-256color\"}},\"pty\":{\"size\":{\"cols\":",
        c.as_str(),
    );
    let b = join(a.as_str(), ",\"rows\":");
    let d = join(b.as_str(), r.as_str());
    let body = join(d.as_str(), "}}}");
    connect_envelope(body.as_str().as_bytes())
}

/// The `Host` header that routes to envd, whose port in the sandbox is
/// 49983: `49983-<sandbox>.<domain>`.
pub fn envd_host(sandbox_id: &str, domain: &str) -> (r: String)
    ensures
        r@ == "49983-"@ + sandbox_id@ + "."@ + domain@,
{
    let a = join("49983-", sandbox_id);
    let b = join(a.as_str(), ".");
    join(b.as_str(), domain)
}

/// `s` without its trailing `/` characters (`trim_end_matches('/')`).
pub open spec fn trim_trailing_slashes(s: Seq<char>) -> Seq<char>
    decreases s.len(),
{
    if s.len() > 0 && s.last() == '/' {
        trim_trailing_slashes(s.drop_last())
    } else {
        s
    }
}

/// The proxy through which envd is reached when none is configured.
pub open spec fn default_proxy() -> Seq<char> {
    "http://127.0.0.1"@
}

/// The URL of the envd RPC `process.Process/<method>` behind `proxy` (or
/// the default proxy), with trailing slashes of the proxy removed.
pub open spec fn envd_url_spec(proxy: Option<Seq<char>>, method: Seq<char>) -> Seq<char> {
    let base = match proxy {
        Some(p) => p,
        None => default_proxy(),
    };
    trim_trailing_slashes(base) + "/process.Process/"@ + method
}

fn without_trailing_slashes(s: &str) -> (r: String)
    ensures
        r@ == trim_trailing_slashes(s@),
{
    let mut n = s.unicode_len();
    assert(s@.subrange(0, n as int) == s@);
    while n > 0 && s.get_char(n - 1) == '/'
        invariant
            n <= s@.len(),
            trim_trailing_slashes(s@) == trim_trailing_slashes(s@.subrange(0, n as int)),
        decreases n,
    {
        assert(s@.subrange(0, n as int).drop_last() == s@.subrange(0, n - 1));
        n = n - 1;
    }
    String::from_str(s.substring_char(0, n))
}

/// The URL of the envd RPC `process.Process/<method>`; `proxy` is the
/// configured sandbox proxy URL, if any.
pub fn envd_url(proxy: Option<&str>, method: &str) -> (r: String)
    ensures
        r@ == envd_url_spec(
            match proxy {
                Some(p) => Some(p@),
                None => None,
            },
            method@,
        ),
{
    let base = match proxy {
        Some(p) => without_trailing_slashes(p),
        None => without_trailing_slashes("http://127.0.0.1"),
    };
    let a = join(base.as_str(), "/process.Process/");
    join(a.as_str(), method)
}

/// A 2xx status: the call succeeded (`StatusCode::is_success`).
pub fn http_success(status: u16) -> (b: bool)
    ensures
        b == (200 <= status <= 299),
{
    200 <= status && status <= 299
}

/// The error of an envd RPC `method` that could not be sent; `reason` is the
/// transport failure's text.
pub fn rpc_send_error(method: &str, reason: &str) -> (e: TerminalError)
    ensures
        e@ == TerminalErrorModel::Internal(method@ + ": "@ + reason@),
{
    let a = join(method, ": ");
    TerminalError::Internal(join(a.as_str(), reason))
}

/// The error of an envd RPC `method` answered with a non-2xx status;
/// `status` is the status's text.
pub fn rpc_status_error(method: &str, status: &str) -> (e: TerminalError)
    ensures
        e@ == TerminalErrorModel::Internal(method@ + " HTTP "@ + status@),
{
    let a = join(method, " HTTP ");
    TerminalError::Internal(join(a.as_str(), status))
}

/// The error of a `Start` call that could not be sent.
pub fn start_send_error(reason: &str) -> (e: TerminalError)
    ensures
        e@ == TerminalErrorModel::Internal("envd Start failed: "@ + reason@),
{
    TerminalError::Internal(join("envd Start failed: ", reason))
}

/// The error of a `Start` call answered with a non-2xx status; `status` is
/// the status's text and `body` the response body.
pub fn start_status_error(status: &str, body: &str) -> (e: TerminalError)
    ensures
        e@ == TerminalErrorModel::Internal("envd Start HTTP "@ + status@ + ": "@ + body@),
{
    let a = join("envd Start HTTP ", status);
    let b = join(a.as_str(), ": ");
    TerminalError::Internal(join(b.as_str(), body))
}

/// The error of a failure to read the `Start` stream before the start event.
pub fn start_read_error(reason: &str) -> (e: TerminalError)
    ensures
        e@ == TerminalErrorModel::Internal("envd stream read error during start: "@ + reason@),
{
    TerminalError::Internal(join("envd stream read error during start: ", reason))
}

/// The error of a `Start` stream that ended before the start event.
pub fn start_closed_error() -> (e: TerminalError)
    ensures
        e@ == TerminalErrorModel::Internal("envd stream closed before start event"@),
{
    TerminalError::Internal(String::from_str("envd stream closed before start event"))
}

/// Text that starts with the same `head`, then a decimal number, then text
/// that starts with a non-digit, tells the number and the rest apart.
proof fn lemma_number_after(head: Seq<char>, a: nat, ta: Seq<char>, b: nat, tb: Seq<char>)
    requires
        head + decimal_text(a) + ta == head + decimal_text(b) + tb,
        ta.len() > 0,
        tb.len() > 0,
        !is_digit(ta[0]),
        !is_digit(tb[0]),
    ensures
        a == b,
        ta == tb,
{
    law_decimal_roundtrip(a);
    law_decimal_roundtrip(b);
    let x = head + decimal_text(a) + ta;
    let y = head + decimal_text(b) + tb;
    assert(x.skip(head.len() as int) == decimal_text(a) + ta);
    assert(y.skip(head.len() as int) == decimal_text(b) + tb);
    lemma_digits_split(decimal_text(a), ta, decimal_text(b), tb);
    law_decimal_injective(a, b);
}

/// The `Start` body asks for the PTY size it is given: it ends with
/// `"pty":{"size":{"cols":COLS,"rows":ROWS}}}` in decimal.
pub proof fn law_start_body_carries_size(rows: u16, cols: u16)
    ensures
        exists|head: Seq<char>|
            start_body_spec(rows, cols) == head + "\"pty\":{\"size\":{\"cols\":"@ + decimal_text(
                cols as nat,
            ) + ",\"rows\":"@ + decimal_text(rows as nat) + "}}}"@,
{
    let whole = "{\"process\":{\"args\":[\"-i\",\"-l\"],\"cmd\":\"/bin/bash\",\"envs\":{\"LANG\":\"en_US.UTF-8\",\"TERM\":\"xterm-256color\"}},\"pty\":{\"size\":{\"cols\":"@;
    let tail = "\"pty\":{\"size\":{\"cols\":"@;
    reveal_strlit("{\"process\":{\"args\":[\"-i\",\"-l\"],\"cmd\":\"/bin/bash\",\"envs\":{\"LANG\":\"en_US.UTF-8\",\"TERM\":\"xterm-256color\"}},\"pty\":{\"size\":{\"cols\":");
    reveal_strlit("\"pty\":{\"size\":{\"cols\":");
    let head = whole.subrange(0, whole.len() - tail.len());
    assert(whole == head + tail);
    let rest = decimal_text(cols as nat) + ",\"rows\":"@ + decimal_text(rows as nat) + "}}}"@;
    assert(start_body_spec(rows, cols) == head + tail + decimal_text(cols as nat) + ",\"rows\":"@
        + decimal_text(rows as nat) + "}}}"@);
}

/// Different PTY sizes give different `Start` bodies: the body determines
/// the rows and columns it was built for.
pub proof fn law_start_body_injective(r1: u16, c1: u16, r2: u16, c2: u16)
    requires
        start_body_spec(r1, c1) == start_body_spec(r2, c2),
    ensures
        r1 == r2,
        c1 == c2,
{
    let head = "{\"process\":{\"args\":[\"-i\",\"-l\"],\"cmd\":\"/bin/bash\",\"envs\":{\"LANG\":\"en_US.UTF-8\",\"TERM\":\"xterm-256color\"}},\"pty\":{\"size\":{\"cols\":"@;
    let q = ",\"rows\":"@;
    let e = "}}}"@;
    reveal_strlit(",\"rows\":");
    reveal_strlit("}}}");
    assert(start_body_spec(r1, c1) == head + decimal_text(c1 as nat) + (q + decimal_text(r1 as nat) + e));
    assert(start_body_spec(r2, c2) == head + decimal_text(c2 as nat) + (q + decimal_text(r2 as nat) + e));
    lemma_number_after(head, c1 as nat, q + decimal_text(r1 as nat) + e, c2 as nat, q + decimal_text(r2 as nat) + e);
    lemma_number_after(q, r1 as nat, e, r2 as nat, e);
}

/// The `Update` body determines the process and PTY size it was built
/// for, and the `SendSignal` body the process.
pub proof fn law_request_body_identifies_process_and_size(a: EnvdRequestModel, b: EnvdRequestModel)
    requires
        !(a is SendInput),
        !(b is SendInput),
        a is Update == b is Update,
        request_body_spec(a) == request_body_spec(b),
    ensures
        a == b,
{
    let head = "{\"process\":{\"pid\":"@;
    let q = ",\"rows\":"@;
    let e = "}}}"@;
    let m = "},\"pty\":{\"size\":{\"cols\":"@;
    let sig = "},\"signal\":\"SIGNAL_SIGTERM\"}"@;
    reveal_strlit(",\"rows\":");
    reveal_strlit("}}}");
    reveal_strlit("},\"pty\":{\"size\":{\"cols\":");
    reveal_strlit("},\"signal\":\"SIGNAL_SIGTERM\"}");
    match (a, b) {
        (
            EnvdRequestModel::Update { pid: p1, rows: r1, cols: c1 },
            EnvdRequestModel::Update { pid: p2, rows: r2, cols: c2 },
        ) => {
            let t1 = m + decimal_text(c1 as nat) + (q + decimal_text(r1 as nat) + e);
            let t2 = m + decimal_text(c2 as nat) + (q + decimal_text(r2 as nat) + e);
            assert(request_body_spec(a) == head + decimal_text(p1 as nat) + t1);
            assert(request_body_spec(b) == head + decimal_text(p2 as nat) + t2);
            lemma_number_after(head, p1 as nat, t1, p2 as nat, t2);
            lemma_number_after(m, c1 as nat, q + decimal_text(r1 as nat) + e, c2 as nat, q
                + decimal_text(r2 as nat) + e);
            lemma_number_after(q, r1 as nat, e, r2 as nat, e);
        },
        (EnvdRequestModel::SendSignal { pid: p1 }, EnvdRequestModel::SendSignal { pid: p2 }) => {
            lemma_number_after(head, p1 as nat, sig, p2 as nat, sig);
        },
        _ => {},
    }
}

/// Removing trailing slashes keeps everything up to them: the result is a
/// prefix of `s` that does not end in `/`, and all that follows it in `s`
/// is slashes.
pub proof fn law_trim_trailing_slashes(s: Seq<char>)
    ensures
        ({
            let t = trim_trailing_slashes(s);
            &&& t.len() <= s.len()
            &&& t == s.subrange(0, t.len() as int)
            &&& t.len() == 0 || t.last() != '/'
            &&& forall|i: int| t.len() <= i < s.len() ==> #[trigger] s[i] == '/'
        }),
    decreases s.len(),
{
    if s.len() > 0 && s.last() == '/' {
        law_trim_trailing_slashes(s.drop_last());
        let t = trim_trailing_slashes(s);
        assert(s.drop_last().subrange(0, t.len() as int) == s.subrange(0, t.len() as int));
        assert forall|i: int| t.len() <= i < s.len() implies #[trigger] s[i] == '/' by {
            if i < s.len() - 1 {
                assert(s[i] == s.drop_last()[i]);
            }
        }
    } else {
        assert(s.subrange(0, s.len() as int) == s);
    }
}

/// An envd URL is the proxy (the configured one, else the default) without
/// its trailing slashes, then `/process.Process/`, then the method.
pub proof fn law_envd_url(proxy: Option<Seq<char>>, method: Seq<char>)
    ensures
        ({
            let base = match proxy {
                Some(p) => p,
                None => "http://127.0.0.1"@,
            };
            let head = trim_trailing_slashes(base);
            &&& envd_url_spec(proxy, method) == head + "/process.Process/"@ + method
            &&& head == base.subrange(0, head.len() as int)
            &&& head.len() == 0 || head.last() != '/'
            &&& forall|i: int| head.len() <= i < base.len() ==> #[trigger] base[i] == '/'
        }),
{
    let base = match proxy {
        Some(p) => p,
        None => "http://127.0.0.1"@,
    };
    law_trim_trailing_slashes(base);
}

} // verus!
