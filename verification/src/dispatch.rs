//! The message dispatcher's verified half: building the provider-specific
//! request from a resolved [`SendRequest`], and translating the outcome of
//! the single outbound "post message" call into the error taxonomy.
//!
//! The network call itself is the caller's: it takes the [`WireRequest`],
//! issues exactly one call, and hands back either success or the upstream
//! error chain as plain text.

use crate::config::SendRequest;
use crate::errors::SendError;
use vstd::prelude::*;

verus! {

/// Everything the outbound call needs, as plain text fields of the
/// provider's "post message" request.
#[derive(Clone, Debug, PartialEq, Eq)]
pub struct WireRequest {
    /// The sigil-prefixed target string.
    pub channel: String,
    /// The message text.
    pub text: String,
    /// Optional username override.
    pub username: Option<String>,
    /// The bearer token authenticating the call.
    pub token: String,
}

/// Builds the provider-specific request from the four fields of a resolved
/// [`SendRequest`], serializing the target with its sigil and passing the
/// rest through unchanged.
pub fn build_wire_request(req: SendRequest) -> (r: WireRequest)
    ensures
        r.channel@ == req.target.serialized_spec(),
        r.text == req.message,
        r.username == req.sender_name,
        r.token == req.token,
{
    let channel = req.target.serialized();
    WireRequest { channel, text: req.message, username: req.sender_name, token: req.token }
}

/// Translates the outcome of the single outbound call. Success returns unit:
/// the response payload is intentionally discarded. Any failure — transport
/// or application-level rejection — is wrapped as [`SendError::ServiceError`]
/// carrying the upstream error chain verbatim, with no local recovery or
/// retry.
pub fn interpret_outcome(outcome: Result<(), Vec<String>>) -> (r: Result<(), SendError>)
    ensures
        r is Ok <==> outcome is Ok,
        outcome matches Err(chain) ==> r == Err::<(), SendError>(
            SendError::ServiceError { chain },
        ),
{
    match outcome {
        Ok(()) => Ok(()),
        Err(chain) => Err(SendError::ServiceError { chain }),
    }
}

} // verus!
