use vstd::prelude::*;

verus! {

/// A request to the router that did not yield a decoded reply: the network
/// failed, or the reply could not be read.
#[derive(Debug, PartialEq, Eq)]
pub struct TransportError {
    /// What the transport reported, for the operator.
    pub message: String,
}

impl Clone for TransportError {
    fn clone(&self) -> (copy: Self)
        ensures
            copy == *self,
    {
        TransportError { message: self.message.clone() }
    }
}

/// Why one poll of the neighbour table gave no snapshot. Neither kind stops
/// a watcher: the cycle is skipped.
#[derive(Debug, PartialEq, Eq)]
pub enum PollError {
    /// The request itself failed.
    Transport(TransportError),
    /// The router replied, but the reply carried no neighbour table.
    UnexpectedResponse,
}

impl Clone for PollError {
    fn clone(&self) -> (copy: Self)
        ensures
            copy == *self,
    {
        match self {
            PollError::Transport(failure) => PollError::Transport(failure.clone()),
            PollError::UnexpectedResponse => PollError::UnexpectedResponse,
        }
    }
}

/// Logging in again failed. This is terminal for the session it concerns.
#[derive(Debug, PartialEq, Eq)]
pub struct AuthError {
    /// The failure of the login request.
    pub cause: TransportError,
}

impl Clone for AuthError {
    fn clone(&self) -> (copy: Self)
        ensures
            copy == *self,
    {
        AuthError { cause: self.cause.clone() }
    }
}

} // verus!
