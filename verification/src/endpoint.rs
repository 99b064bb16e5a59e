//! Decisions of the terminal endpoint before the WebSocket upgrade:
//! authentication and the sandbox it serves.

use vstd::prelude::*;
use vstd::string::StringExecFns;
use crate::error::{join, TerminalError, TerminalErrorModel};
use crate::models::text_view;

verus! {

/// What the endpoint does about authentication before upgrading.
#[derive(Debug, Clone, PartialEq, Eq)]
pub enum AuthStep {
    /// No auth callback is configured: go on.
    Skip,
    /// Refuse the request.
    Reject(TerminalError),
    /// Ask the auth callback at `callback_url` about `token`.
    Validate { callback_url: String, token: String },
}

/// Model of [`AuthStep`].
pub enum AuthStepModel {
    Skip,
    Reject(TerminalErrorModel),
    Validate { callback_url: Seq<char>, token: Seq<char> },
}

impl View for AuthStep {
    type V = AuthStepModel;

    open spec fn view(&self) -> AuthStepModel {
        match *self {
            AuthStep::Skip => AuthStepModel::Skip,
            AuthStep::Reject(e) => AuthStepModel::Reject(e@),
            AuthStep::Validate { callback_url, token } => AuthStepModel::Validate {
                callback_url: callback_url@,
                token: token@,
            },
        }
    }
}

/// The authentication step for a configured callback URL and a query token.
pub open spec fn auth_step_spec(callback_url: Option<Seq<char>>, token: Option<Seq<char>>) -> AuthStepModel {
    match callback_url {
        Some(u) => if u.len() == 0 {
            AuthStepModel::Skip
        } else {
            let t = match token {
                Some(t) => t,
                None => Seq::empty(),
            };
            if t.len() == 0 {
                AuthStepModel::Reject(
                    TerminalErrorModel::Unauthorized("Missing ?token= query parameter"@),
                )
            } else {
                AuthStepModel::Validate { callback_url: u, token: t }
            }
        },
        None => AuthStepModel::Skip,
    }
}

/// Decide how to authenticate a terminal request. With a non-empty callback
/// URL configured, a missing or empty `?token=` is refused and any other
/// token is validated against the callback; otherwise nothing is checked.
pub fn auth_step(callback_url: Option<String>, token: Option<String>) -> (r: AuthStep)
    ensures
        r@ == auth_step_spec(text_view(callback_url), text_view(token)),
{
    match callback_url {
        Some(u) => {
            if u.as_str().is_empty() {
                AuthStep::Skip
            } else {
                let t = match token {
                    Some(t) => t,
                    None => String::new(),
                };
                if t.as_str().is_empty() {
                    AuthStep::Reject(
                        TerminalError::Unauthorized(String::from_str("Missing ?token= query parameter")),
                    )
                } else {
                    AuthStep::Validate { callback_url: u, token: t }
                }
            }
        },
        None => AuthStep::Skip,
    }
}

/// The `Authorization` header sent to the auth callback: `Bearer <token>`.
pub fn bearer_header(token: &str) -> (r: String)
    ensures
        r@ == "Bearer "@ + token@,
{
    join("Bearer ", token)
}

/// The `X-Request-Path` header sent to the auth callback.
pub fn terminal_request_path(sandbox_id: &str) -> (r: String)
    ensures
        r@ == "/sandboxes/"@ + sandbox_id@ + "/terminal"@,
{
    let a = join("/sandboxes/", sandbox_id);
    join(a.as_str(), "/terminal")
}

/// The verdict on the auth callback's HTTP status: only 200 lets the
/// session through.
pub fn auth_callback_verdict(status: u16) -> (r: Result<(), TerminalError>)
    ensures
        status == 200 ==> r is Ok,
        status != 200 ==> (r matches Err(e) && e@ == TerminalErrorModel::Unauthorized(
            "Authentication rejected for terminal session"@,
        )),
{
    if status == 200 {
        Ok(())
    } else {
        Err(
            TerminalError::Unauthorized(
                String::from_str("Authentication rejected for terminal session"),
            ),
        )
    }
}

/// The terminal needs a running sandbox. `state` is the text of the
/// sandbox's state as the error message shows it.
pub fn require_running(running: bool, sandbox_id: &str, state: &str) -> (r: Result<(), TerminalError>)
    ensures
        running ==> r is Ok,
        !running ==> (r matches Err(e) && e@ == TerminalErrorModel::BadRequest(
            "Sandbox "@ + sandbox_id@ + " is "@ + state@ + ", terminal requires Running"@,
        )),
{
    if running {
        Ok(())
    } else {
        let a = join("Sandbox ", sandbox_id);
        let b = join(a.as_str(), " is ");
        let c = join(b.as_str(), state);
        let d = join(c.as_str(), ", terminal requires Running");
        Err(TerminalError::BadRequest(d))
    }
}

/// The domain of the sandbox: its own where it has one, else the default.
pub fn sandbox_domain(own: Option<String>, default_domain: &String) -> (r: String)
    ensures
        r@ == (match own {
            Some(d) => d@,
            None => default_domain@,
        }),
{
    match own {
        Some(d) => d,
        None => default_domain.clone(),
    }
}

/// The error of an auth callback that could not be reached; `reason` is the
/// transport failure's text.
pub fn auth_send_error(reason: &str) -> (e: TerminalError)
    ensures
        e@ == TerminalErrorModel::Internal("auth callback failed: "@ + reason@),
{
    TerminalError::Internal(join("auth callback failed: ", reason))
}

/// Authentication is asked of the callback only where one is configured:
/// with no callback URL, or an empty one, every request goes on whatever
/// its token; with a callback URL, a missing or empty token is refused and
/// any other token is sent, unchanged, to that same URL.
pub proof fn law_auth_decisions(callback_url: Option<Seq<char>>, token: Option<Seq<char>>)
    ensures
        (callback_url is None || callback_url->0.len() == 0) ==> auth_step_spec(callback_url, token)
            == AuthStepModel::Skip,
        auth_step_spec(callback_url, token) matches AuthStepModel::Validate { callback_url: u, token: t }
            ==> callback_url == Some(u) && u.len() > 0 && token == Some(t) && t.len() > 0,
        (callback_url is Some && callback_url->0.len() > 0) ==> ((token is None || token->0.len()
            == 0) <==> auth_step_spec(callback_url, token) is Reject),
        (callback_url is Some && callback_url->0.len() > 0 && token is Some && token->0.len() > 0)
            ==> auth_step_spec(callback_url, token) == (AuthStepModel::Validate {
            callback_url: callback_url->0,
            token: token->0,
        }),
        auth_step_spec(callback_url, token) matches AuthStepModel::Reject(e) ==> e is Unauthorized,
{
}

} // verus!
