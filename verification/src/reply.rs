//! What one round trip came back with, and what it is worth.

use crate::error::Error;
use crate::types::token_of_fields;
use crate::types::AccessToken;
use crate::types::TokenFields;
use crate::types::TokenView;
use vstd::prelude::*;

verus! {

/// The outcome of sending one request, as plain values.
#[derive(Debug, PartialEq)]
pub enum Reply {
    /// The service answered with this status and body.
    Answer { status: u16, body: String },
    /// No answer arrived: the network failed, the call timed out, or the
    /// connection could not be secured. The text says why.
    Failure(String),
}

/// Whether a status reports success.
pub open spec fn is_success(status: u16) -> bool {
    200 <= status <= 299
}

/// What a reply is worth: the body of a successful answer, or the error
/// that the reply carries, unchanged.
pub open spec fn payload_of(reply: Reply) -> Result<String, Error> {
    match reply {
        Reply::Answer { status, body } => if is_success(status) {
            Ok(body)
        } else {
            Err(Error::Api { status, body })
        },
        Reply::Failure(reason) => Err(Error::Transport(reason)),
    }
}

/// What a reply to a request for new credentials is worth, `record` being
/// its body decoded as a token record, or the reason why it could not be.
/// The record counts only where the reply is a successful answer.
pub open spec fn token_of(reply: Reply, record: Result<TokenFields, String>) -> Result<
    TokenView,
    Error,
> {
    match payload_of(reply) {
        Ok(_) => match record {
            Ok(fields) => Ok(token_of_fields(fields@)),
            Err(reason) => Err(Error::Decode(reason)),
        },
        Err(error) => Err(error),
    }
}

/// Whether `status` reports success.
pub fn status_is_success(status: u16) -> (yes: bool)
    ensures
        yes == is_success(status),
{
    200 <= status && status <= 299
}

/// Takes the payload out of a reply, or says why there is none.
pub fn payload(reply: Reply) -> (outcome: Result<String, Error>)
    ensures
        outcome == payload_of(reply),
{
    match reply {
        Reply::Answer { status, body } => {
            if status_is_success(status) {
                Ok(body)
            } else {
                Err(Error::Api { status, body })
            }
        },
        Reply::Failure(reason) => Err(Error::Transport(reason)),
    }
}

/// Takes the new credentials out of a reply, or says why there are none.
/// `record` is the body of the reply decoded as a token record, or the
/// reason why it could not be decoded.
pub fn token_outcome(reply: Reply, record: Result<TokenFields, String>) -> (outcome: Result<
    AccessToken,
    Error,
>)
    ensures
        match token_of(reply, record) {
            Ok(token) => outcome is Ok && outcome->Ok_0@ == token,
            Err(error) => outcome == Err::<AccessToken, Error>(error),
        },
{
    match payload(reply) {
        Ok(_) => match record {
            Ok(fields) => Ok(AccessToken::from_fields(fields)),
            Err(reason) => Err(Error::Decode(reason)),
        },
        Err(error) => Err(error),
    }
}

} // verus!
