//! What came back for a request, and what the caller gets of it.
//!
//! A response with a success status yields its body, which is then decoded. A
//! response with any other status is an error that keeps the status and the
//! body. A request that got no response is an error that keeps the
//! transport's message. Nothing is tried again.

use vstd::prelude::*;
use crate::error::ClientError;

verus! {

/// What the transport hands back for one request.
pub enum Fetched {
    /// A response arrived.
    Response { status: u16, body: Vec<u8> },
    /// No response arrived.
    Failed { message: String },
}

/// True when `status` is an HTTP success code, that is, one of 200 to 299.
pub open spec fn status_is_success(status: u16) -> bool {
    200 <= status < 300
}

/// Tells whether an HTTP status code reports success.
pub fn is_success(status: u16) -> (ok: bool)
    ensures
        ok == status_is_success(status),
{
    200 <= status && status < 300
}

/// What the caller gets of `fetched`: the body of a successful response, or
/// the error that stands for anything else.
pub open spec fn settled(fetched: Fetched) -> Result<Vec<u8>, ClientError> {
    match fetched {
        Fetched::Response { status, body } => if status_is_success(status) {
            Ok(body)
        } else {
            Err(ClientError::HttpStatus { status, body })
        },
        Fetched::Failed { message } => Err(ClientError::Transport { message }),
    }
}

/// Decides what the caller gets of `fetched`.
pub fn settle(fetched: Fetched) -> (r: Result<Vec<u8>, ClientError>)
    ensures
        r == settled(fetched),
{
    match fetched {
        Fetched::Response { status, body } => if is_success(status) {
            Ok(body)
        } else {
            Err(ClientError::HttpStatus { status, body })
        },
        Fetched::Failed { message } => Err(ClientError::Transport { message }),
    }
}

/// The record that was decoded from a body, or the error that says why none
/// was.
pub fn decoded<T>(parsed: Result<T, String>) -> (r: Result<T, ClientError>)
    ensures
        match parsed {
            Ok(record) => r == Ok::<T, ClientError>(record),
            Err(message) => r == Err::<T, ClientError>(ClientError::Decode { message }),
        },
{
    match parsed {
        Ok(record) => Ok(record),
        Err(message) => Err(ClientError::Decode { message }),
    }
}

} // verus!
