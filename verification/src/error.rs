//! What can go wrong with an operation of the client.

use vstd::prelude::*;

verus! {

/// The argument that was refused.
#[derive(Clone, Copy, Debug, PartialEq, Eq)]
pub enum Precondition {
    /// A query asked for position zero; positions count from one.
    StartPosition,
    /// A refresh was asked for while the refresh token was empty.
    RefreshToken,
}

/// Why an operation did not succeed. Nothing is retried and nothing is
/// hidden: each failure reaches the caller as one of these.
#[derive(Debug, PartialEq)]
pub enum Error {
    /// An argument was refused before any request was described.
    Precondition(Precondition),
    /// The transport failed and no answer arrived; the text says why.
    Transport(String),
    /// The service answered with a status that is not a success.
    Api { status: u16, body: String },
    /// The body of a successful answer could not be decoded; the text says
    /// why.
    Decode(String),
}

impl Clone for Error {
    fn clone(&self) -> (copy: Self)
        ensures
            copy == *self,
    {
        match self {
            Error::Precondition(which) => Error::Precondition(*which),
            Error::Transport(reason) => Error::Transport(reason.clone()),
            Error::Api { status, body } => Error::Api { status: *status, body: body.clone() },
            Error::Decode(reason) => Error::Decode(reason.clone()),
        }
    }
}

} // verus!
