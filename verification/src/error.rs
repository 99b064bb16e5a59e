//! The errors that the terminal endpoint answers with.

use vstd::prelude::*;
use vstd::string::StringExecFns;

verus! {

/// Errors that the terminal endpoint answers with.
#[derive(Debug, Clone, PartialEq, Eq)]
pub enum TerminalError {
    /// Missing or rejected credentials.
    Unauthorized(String),
    /// The request cannot be served as it stands.
    BadRequest(String),
    /// A failure on the way to envd.
    Internal(String),
}

/// Model of [`TerminalError`].
pub enum TerminalErrorModel {
    Unauthorized(Seq<char>),
    BadRequest(Seq<char>),
    Internal(Seq<char>),
}

impl View for TerminalError {
    type V = TerminalErrorModel;

    open spec fn view(&self) -> TerminalErrorModel {
        match *self {
            TerminalError::Unauthorized(m) => TerminalErrorModel::Unauthorized(m@),
            TerminalError::BadRequest(m) => TerminalErrorModel::BadRequest(m@),
            TerminalError::Internal(m) => TerminalErrorModel::Internal(m@),
        }
    }
}

/// `a` followed by `b`.
pub(crate) fn join(a: &str, b: &str) -> (r: String)
    ensures
        r@ == a@ + b@,
{
    String::from_str(a).concat(b)
}

} // verus!
