//! Messages exchanged with the browser terminal and the envd process service.

use vstd::prelude::*;

verus! {

/// Messages sent by the browser terminal (xterm.js) to the WebSocket handler.
#[derive(Debug, Clone, PartialEq, Eq)]
pub enum TerminalInput {
    /// Keystroke or paste data: base64 of the raw stdin bytes.
    Input { data: String },
    /// Terminal window resize notification.
    Resize { rows: u16, cols: u16 },
    /// Keepalive ping from the client.
    Ping,
}

/// Messages sent by the WebSocket handler back to the browser terminal.
#[derive(Debug, Clone, PartialEq, Eq)]
pub enum TerminalOutput {
    /// Process stdout/stderr data, base64-encoded.
    Output { data: String },
    /// The PTY session started; carries the process id assigned by envd.
    Started { pid: u64 },
    /// The shell process exited.
    Exit { code: i32 },
    /// An error occurred (connection failure, envd error, timeout).
    Error { message: String },
    /// Keepalive pong.
    Pong,
}

/// Query parameters of the terminal WebSocket upgrade request.
#[derive(Debug, Clone, PartialEq, Eq)]
pub struct TerminalQuery {
    /// Auth token (session token or API key).
    pub token: Option<String>,
    /// Target container when a sandbox hosts several containers.
    pub container: Option<String>,
    /// Initial terminal rows (default 24).
    pub rows: u16,
    /// Initial terminal columns (default 80).
    pub cols: u16,
}

/// An event decoded from the envd `process.Process/Start` stream.
#[derive(Debug, Clone, PartialEq, Eq)]
pub enum EnvdEvent {
    /// Process started; carries the pid.
    Start { pid: u64 },
    /// A stdout and/or stderr chunk, already decoded from base64.
    Data { stdout: Option<Vec<u8>>, stderr: Option<Vec<u8>> },
    /// Process ended; carries the exit code.
    End { exit_code: i32 },
    /// Error reported by envd.
    Error(String),
}

/// Mathematical model of [`EnvdEvent`].
pub enum EnvdEventModel {
    Start { pid: u64 },
    Data { stdout: Option<Seq<u8>>, stderr: Option<Seq<u8>> },
    End { exit_code: i32 },
    Error(Seq<char>),
}

/// Mathematical model of [`TerminalInput`].
pub enum TerminalInputModel {
    Input { data: Seq<char> },
    Resize { rows: u16, cols: u16 },
    Ping,
}

/// Mathematical model of [`TerminalOutput`].
pub enum TerminalOutputModel {
    Output { data: Seq<char> },
    Started { pid: u64 },
    Exit { code: i32 },
    Error { message: Seq<char> },
    Pong,
}

/// The contents of an optional byte vector.
pub open spec fn bytes_view(b: Option<Vec<u8>>) -> Option<Seq<u8>> {
    match b {
        Some(v) => Some(v@),
        None => None,
    }
}

/// The contents of an optional string.
pub open spec fn text_view(s: Option<String>) -> Option<Seq<char>> {
    match s {
        Some(v) => Some(v@),
        None => None,
    }
}

impl View for EnvdEvent {
    type V = EnvdEventModel;

    open spec fn view(&self) -> EnvdEventModel {
        match *self {
            EnvdEvent::Start { pid } => EnvdEventModel::Start { pid },
            EnvdEvent::Data { stdout, stderr } => EnvdEventModel::Data {
                stdout: bytes_view(stdout),
                stderr: bytes_view(stderr),
            },
            EnvdEvent::End { exit_code } => EnvdEventModel::End { exit_code },
            EnvdEvent::Error(msg) => EnvdEventModel::Error(msg@),
        }
    }
}

impl View for TerminalInput {
    type V = TerminalInputModel;

    open spec fn view(&self) -> TerminalInputModel {
        match *self {
            TerminalInput::Input { data } => TerminalInputModel::Input { data: data@ },
            TerminalInput::Resize { rows, cols } => TerminalInputModel::Resize { rows, cols },
            TerminalInput::Ping => TerminalInputModel::Ping,
        }
    }
}

impl View for TerminalOutput {
    type V = TerminalOutputModel;

    open spec fn view(&self) -> TerminalOutputModel {
        match *self {
            TerminalOutput::Output { data } => TerminalOutputModel::Output { data: data@ },
            TerminalOutput::Started { pid } => TerminalOutputModel::Started { pid },
            TerminalOutput::Exit { code } => TerminalOutputModel::Exit { code },
            TerminalOutput::Error { message } => TerminalOutputModel::Error { message: message@ },
            TerminalOutput::Pong => TerminalOutputModel::Pong,
        }
    }
}

/// Default number of terminal rows when the query gives none.
pub fn default_rows() -> (rows: u16)
    ensures
        rows == 24,
{
    24
}

/// Default number of terminal columns when the query gives none.
pub fn default_cols() -> (cols: u16)
    ensures
        cols == 80,
{
    80
}

} // verus!
