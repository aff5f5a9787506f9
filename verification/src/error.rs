//! What can go wrong.

use vstd::prelude::*;

verus! {

/// How a transport failed.
#[derive(Debug, Clone, Copy, PartialEq, Eq, Structural)]
pub enum TransportFault {
    /// The server refused the connection.
    Refused,
    /// The connection was reset.
    Reset,
    /// The stream ended though nobody had closed it.
    Ended,
    /// Nothing happened within the time allowed.
    TimedOut,
}

/// The failures of a streaming connection. Normalisation is not among them:
/// it has a result for every entity.
#[derive(Debug, Clone, PartialEq, Eq)]
pub enum Error {
    /// The transport failed.
    TransportError(TransportFault),
    /// One inbound unit was malformed; the text says how.
    DecodeError(String),
    /// The backend rejected the access token, or it has expired; the text is
    /// the backend's answer.
    AuthError(String),
    /// The caller's handler reported a fault; the text is its report.
    HandlerError(String),
}

impl Error {
    /// Whether a failure of this kind concerns the connection as a whole. The
    /// others concern the one unit that was being handled.
    pub open spec fn concerns_connection(self) -> bool {
        self is TransportError || self is AuthError
    }

    /// Whether this failure concerns the connection as a whole, rather than
    /// one unit.
    pub fn is_connection_failure(&self) -> (whole: bool)
        ensures
            whole == self.concerns_connection(),
    {
        match self {
            Error::TransportError(_) => true,
            Error::DecodeError(_) => false,
            Error::AuthError(_) => true,
            Error::HandlerError(_) => false,
        }
    }
}

} // verus!
