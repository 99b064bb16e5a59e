//! Bridge between a browser terminal (WebSocket JSON messages) and the
//! envd process service inside a sandbox (Connect streaming envelopes).
//!
//! The crate holds the protocol logic: the binary envelope framing of the
//! Connect streaming protocol, the decoding of envd process events, the
//! envd requests, and the decisions of the endpoint and of a terminal
//! session. Network I/O is left to the caller.

pub mod models;
pub mod error;
pub mod frame;
pub mod text;
pub mod codec;
pub mod json;
pub mod event;
pub mod rpc;
pub mod endpoint;
pub mod session;
