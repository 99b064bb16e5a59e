//! Decoding one envd event from the flags and JSON payload of a Connect frame.

use vstd::prelude::*;
use vstd::string::StringExecFns;
use crate::codec::{base64_standard_decode, decode_base64};
use crate::json::{json_lookup, json_pointer_value, JsonKind, JsonKindModel, JsonLeaf, JsonLeafModel};
use crate::models::{bytes_view, text_view, EnvdEvent, EnvdEventModel};
use crate::text::{
    exit_status_code, exit_status_code_spec, is_white_space, law_exit_status_reads_code,
    signed_decimal_text,
};

verus! {

/// The values of a frame payload that the decoding of an envd event reads.
#[derive(Debug, Clone, PartialEq, Eq)]
pub struct EnvdPayloadFields {
    /// The payload is a JSON document.
    pub is_json: bool,
    /// Rendering of the value at `/error`.
    pub error: Option<String>,
    /// Rendering of the value at `/message`.
    pub message: Option<String>,
    /// There is a value at `/event`.
    pub has_event: bool,
    /// There is a value at `/event/start`.
    pub has_start: bool,
    /// `/event/start/pid` as a `u64`.
    pub pid: Option<u64>,
    /// There is a value at `/event/data`.
    pub has_data: bool,
    /// `/event/data/stdout` as a string, decoded from base64.
    pub stdout: Option<Vec<u8>>,
    /// `/event/data/stderr` as a string, decoded from base64.
    pub stderr: Option<Vec<u8>>,
    /// There is a value at `/event/end`.
    pub has_end: bool,
    /// `/event/end/exitCode` as an `i64`.
    pub exit_code: Option<i64>,
    /// `/event/end/status` as a string.
    pub status: Option<String>,
}

/// Model of [`EnvdPayloadFields`].
pub struct EnvdPayloadFieldsModel {
    pub is_json: bool,
    pub error: Option<Seq<char>>,
    pub message: Option<Seq<char>>,
    pub has_event: bool,
    pub has_start: bool,
    pub pid: Option<u64>,
    pub has_data: bool,
    pub stdout: Option<Seq<u8>>,
    pub stderr: Option<Seq<u8>>,
    pub has_end: bool,
    pub exit_code: Option<i64>,
    pub status: Option<Seq<char>>,
}

impl View for EnvdPayloadFields {
    type V = EnvdPayloadFieldsModel;

    open spec fn view(&self) -> EnvdPayloadFieldsModel {
        EnvdPayloadFieldsModel {
            is_json: self.is_json,
            error: text_view(self.error),
            message: text_view(self.message),
            has_event: self.has_event,
            has_start: self.has_start,
            pid: self.pid,
            has_data: self.has_data,
            stdout: bytes_view(self.stdout),
            stderr: bytes_view(self.stderr),
            has_end: self.has_end,
            exit_code: self.exit_code,
            status: text_view(self.status),
        }
    }
}

/// The model of an optional event.
pub open spec fn event_view(e: Option<EnvdEvent>) -> Option<EnvdEventModel> {
    match e {
        Some(v) => Some(v@),
        None => None,
    }
}

/// The rendering of an optional JSON value.
pub open spec fn leaf_text(l: Option<JsonLeafModel>) -> Option<Seq<char>> {
    match l {
        Some(v) => Some(v.text),
        None => None,
    }
}

/// `Value::as_u64` of an optional JSON value.
pub open spec fn leaf_u64(l: Option<JsonLeafModel>) -> Option<u64> {
    match l {
        Some(v) => match v.kind {
            JsonKindModel::Number { as_u64, .. } => as_u64,
            _ => None,
        },
        None => None,
    }
}

/// `Value::as_i64` of an optional JSON value.
pub open spec fn leaf_i64(l: Option<JsonLeafModel>) -> Option<i64> {
    match l {
        Some(v) => match v.kind {
            JsonKindModel::Number { as_i64, .. } => as_i64,
            _ => None,
        },
        None => None,
    }
}

/// `Value::as_str` of an optional JSON value.
pub open spec fn leaf_str(l: Option<JsonLeafModel>) -> Option<Seq<char>> {
    match l {
        Some(v) => match v.kind {
            JsonKindModel::Str(s) => Some(s),
            _ => None,
        },
        None => None,
    }
}

/// Base64-decoding of an optional string; `None` where there is no string or
/// it does not decode.
pub open spec fn decoded(s: Option<Seq<char>>) -> Option<Seq<u8>> {
    match s {
        Some(t) => base64_standard_decode(t),
        None => None,
    }
}

/// The fields that a payload yields.
pub open spec fn payload_fields(payload: Seq<u8>) -> EnvdPayloadFieldsModel {
    EnvdPayloadFieldsModel {
        is_json: json_pointer_value(payload, ""@) is Some,
        error: leaf_text(json_pointer_value(payload, "/error"@)),
        message: leaf_text(json_pointer_value(payload, "/message"@)),
        has_event: json_pointer_value(payload, "/event"@) is Some,
        has_start: json_pointer_value(payload, "/event/start"@) is Some,
        pid: leaf_u64(json_pointer_value(payload, "/event/start/pid"@)),
        has_data: json_pointer_value(payload, "/event/data"@) is Some,
        stdout: decoded(leaf_str(json_pointer_value(payload, "/event/data/stdout"@))),
        stderr: decoded(leaf_str(json_pointer_value(payload, "/event/data/stderr"@))),
        has_end: json_pointer_value(payload, "/event/end"@) is Some,
        exit_code: leaf_i64(json_pointer_value(payload, "/event/end/exitCode"@)),
        status: leaf_str(json_pointer_value(payload, "/event/end/status"@)),
    }
}

/// The message of an error frame: the rendering of `error`, else that of
/// `message`, else a fixed text.
pub open spec fn error_message(f: EnvdPayloadFieldsModel) -> Seq<char> {
    match f.error {
        Some(t) => t,
        None => match f.message {
            Some(t) => t,
            None => "unknown envd error"@,
        },
    }
}

/// The exit code of an end event: `exitCode`, else the code in
/// `"exit status <n>"`, else -1; truncated to 32 bits.
pub open spec fn end_exit_code(f: EnvdPayloadFieldsModel) -> i32 {
    let code: i64 = match f.exit_code {
        Some(c) => c,
        None => match f.status {
            Some(s) => match exit_status_code_spec(s) {
                Some(c) => c,
                None => -1i64,
            },
            None => -1i64,
        },
    };
    code as i32
}

/// The event that a frame with `flags` and the given payload fields carries.
///
/// Nothing where the payload is not JSON. Where flags bit 1 is set, an error.
/// Otherwise, inside `event`: a start (pid, 0 where missing), else a data
/// chunk where stdout or stderr decodes, else an end, else nothing.
pub open spec fn event_of_fields(flags: u8, f: EnvdPayloadFieldsModel) -> Option<EnvdEventModel> {
    if !f.is_json {
        None
    } else if flags & 2u8 != 0u8 {
        Some(EnvdEventModel::Error(error_message(f)))
    } else if !f.has_event {
        None
    } else if f.has_start {
        Some(EnvdEventModel::Start { pid: match f.pid { Some(p) => p, None => 0 } })
    } else if f.has_data && (f.stdout is Some || f.stderr is Some) {
        Some(EnvdEventModel::Data { stdout: f.stdout, stderr: f.stderr })
    } else if f.has_end {
        Some(EnvdEventModel::End { exit_code: end_exit_code(f) })
    } else {
        None
    }
}

/// The event that a Connect frame with `flags` and `payload` carries.
pub open spec fn envd_event_spec(flags: u8, payload: Seq<u8>) -> Option<EnvdEventModel> {
    event_of_fields(flags, payload_fields(payload))
}

fn lookup_text(payload: &[u8], pointer: &str) -> (r: Option<String>)
    ensures
        text_view(r) == leaf_text(json_pointer_value(payload@, pointer@)),
{
    match json_lookup(payload, pointer) {
        Some(l) => Some(l.text),
        None => None,
    }
}

fn lookup_present(payload: &[u8], pointer: &str) -> (r: bool)
    ensures
        r == json_pointer_value(payload@, pointer@) is Some,
{
    json_lookup(payload, pointer).is_some()
}

fn lookup_str(payload: &[u8], pointer: &str) -> (r: Option<String>)
    ensures
        text_view(r) == leaf_str(json_pointer_value(payload@, pointer@)),
{
    match json_lookup(payload, pointer) {
        Some(JsonLeaf { kind: JsonKind::Str(s), .. }) => Some(s),
        _ => None,
    }
}

fn lookup_decoded(payload: &[u8], pointer: &str) -> (r: Option<Vec<u8>>)
    ensures
        bytes_view(r) == decoded(leaf_str(json_pointer_value(payload@, pointer@))),
{
    match lookup_str(payload, pointer) {
        Some(s) => decode_base64(s.as_str()),
        None => None,
    }
}

impl EnvdPayloadFields {
    /// Read the fields of a frame payload.
    pub fn read(payload: &[u8]) -> (f: EnvdPayloadFields)
        ensures
            f@ == payload_fields(payload@),
    {
        let pid = match json_lookup(payload, "/event/start/pid") {
            Some(JsonLeaf { kind: JsonKind::Number { as_u64, .. }, .. }) => as_u64,
            _ => None,
        };
        let exit_code = match json_lookup(payload, "/event/end/exitCode") {
            Some(JsonLeaf { kind: JsonKind::Number { as_i64, .. }, .. }) => as_i64,
            _ => None,
        };
        EnvdPayloadFields {
            is_json: lookup_present(payload, ""),
            error: lookup_text(payload, "/error"),
            message: lookup_text(payload, "/message"),
            has_event: lookup_present(payload, "/event"),
            has_start: lookup_present(payload, "/event/start"),
            pid,
            has_data: lookup_present(payload, "/event/data"),
            stdout: lookup_decoded(payload, "/event/data/stdout"),
            stderr: lookup_decoded(payload, "/event/data/stderr"),
            has_end: lookup_present(payload, "/event/end"),
            exit_code,
            status: lookup_str(payload, "/event/end/status"),
        }
    }
}

/// The event that a frame with `flags` and payload fields `f` carries.
pub fn event_from_fields(flags: u8, f: EnvdPayloadFields) -> (r: Option<EnvdEvent>)
    ensures
        event_view(r) == event_of_fields(flags, f@),
{
    let ghost fm = f@;
    if !f.is_json {
        return None;
    }
    if flags & 0b10 != 0 {
        let msg = match f.error {
            Some(t) => t,
            None => match f.message {
                Some(t) => t,
                None => String::from_str("unknown envd error"),
            },
        };
        return Some(EnvdEvent::Error(msg));
    }
    if !f.has_event {
        return None;
    }
    if f.has_start {
        let pid = match f.pid {
            Some(p) => p,
            None => 0,
        };
        return Some(EnvdEvent::Start { pid });
    }
    if f.has_data && (f.stdout.is_some() || f.stderr.is_some()) {
        return Some(EnvdEvent::Data { stdout: f.stdout, stderr: f.stderr });
    }
    if f.has_end {
        let code: i64 = match f.exit_code {
            Some(c) => c,
            None => match f.status {
                Some(s) => match exit_status_code(s.as_str()) {
                    Some(c) => c,
                    None => -1,
                },
                None => -1,
            },
        };
        assert(code == (match fm.exit_code {
            Some(c) => c,
            None => match fm.status {
                Some(s) => match exit_status_code_spec(s) {
                    Some(c) => c,
                    None => -1i64,
                },
                None => -1i64,
            },
        }));
        return Some(EnvdEvent::End { exit_code: code as i32 });
    }
    None
}

/// Parse a single envd event from a Connect frame's flags and payload.
pub fn parse_envd_event(flags: u8, payload: &[u8]) -> (r: Option<EnvdEvent>)
    ensures
        event_view(r) == envd_event_spec(flags, payload@),
{
    event_from_fields(flags, EnvdPayloadFields::read(payload))
}

/// A payload that is not JSON carries no event, whatever the flags and
/// whatever else was read.
pub proof fn law_non_json_carries_nothing(flags: u8, f: EnvdPayloadFieldsModel)
    requires
        !f.is_json,
    ensures
        event_of_fields(flags, f) is None,
{
}

/// An error frame (flags bit 1) of a JSON payload is an error event whatever
/// its `event` holds: its message is the rendering of `error` where there is
/// one, else that of `message`; two error frames that agree on these read
/// the same.
pub proof fn law_error_frames(flags: u8, f: EnvdPayloadFieldsModel, g: EnvdPayloadFieldsModel)
    requires
        flags & 2u8 != 0u8,
        f.is_json,
    ensures
        f.error matches Some(t) ==> event_of_fields(flags, f) == Some(EnvdEventModel::Error(t)),
        (f.error is None && f.message is Some) ==> event_of_fields(flags, f) == Some(
            EnvdEventModel::Error(f.message->0),
        ),
        event_of_fields(flags, f) is Some && event_of_fields(flags, f)->0 is Error,
        (g.is_json && g.error == f.error && g.message == f.message) ==> event_of_fields(flags, g)
            == event_of_fields(flags, f),
{
}

/// A start event reports the pid it carries, and 0 where it carries none;
/// it takes precedence over data and end in the same event.
pub proof fn law_start_reports_pid(flags: u8, f: EnvdPayloadFieldsModel)
    requires
        flags & 2u8 == 0u8,
        f.is_json,
        f.has_event,
        f.has_start,
    ensures
        event_of_fields(flags, f) == Some(EnvdEventModel::Start {
            pid: match f.pid {
                Some(p) => p,
                None => 0,
            },
        }),
{
}

/// Data is reported with the bytes read, exactly when some stream decoded
/// (and no start came with it).
pub proof fn law_data_reports_bytes(flags: u8, f: EnvdPayloadFieldsModel)
    requires
        flags & 2u8 == 0u8,
        f.is_json,
        f.has_event,
        !f.has_start,
        f.has_data,
        f.stdout is Some || f.stderr is Some,
    ensures
        event_of_fields(flags, f) == Some(EnvdEventModel::Data { stdout: f.stdout, stderr: f.stderr }),
{
}

/// An end event reports the process's exit code: `exitCode` where it is
/// given, else the number of a status `"exit status N"` (with any white
/// space around `N`), in 32 bits; -1 where neither says.
pub proof fn law_end_reports_exit_code(
    flags: u8,
    f: EnvdPayloadFieldsModel,
    n: i64,
    before: Seq<char>,
    after: Seq<char>,
)
    requires
        flags & 2u8 == 0u8,
        f.is_json,
        f.has_event,
        !f.has_start,
        !(f.has_data && (f.stdout is Some || f.stderr is Some)),
        f.has_end,
    ensures
        f.exit_code matches Some(c) ==> event_of_fields(flags, f) == Some(
            EnvdEventModel::End { exit_code: c as i32 },
        ),
        (f.exit_code is None && f.status is None) ==> event_of_fields(flags, f) == Some(
            EnvdEventModel::End { exit_code: -1i32 },
        ),
        (f.exit_code is None && f.status == Some("exit status "@ + before + signed_decimal_text(n as int) + after)
            && (forall|i: int| 0 <= i < before.len() ==> is_white_space(#[trigger] before[i]))
            && (forall|i: int| 0 <= i < after.len() ==> is_white_space(#[trigger] after[i])))
            ==> event_of_fields(flags, f) == Some(EnvdEventModel::End { exit_code: n as i32 }),
{
    if (forall|i: int| 0 <= i < before.len() ==> is_white_space(#[trigger] before[i])) && (forall|
        i: int,
    |
        0 <= i < after.len() ==> is_white_space(#[trigger] after[i])) {
        law_exit_status_reads_code(n, before, after);
    }
}

} // verus!
