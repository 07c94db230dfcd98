//! The ways an exchange can fail.

use vstd::prelude::*;

verus! {

/// Why an exchange failed. Every failure ends the exchange it belongs to.
#[derive(Clone, Debug, PartialEq, Eq)]
pub enum ExchangeError {
    /// A second request, or a second payload, on an exchange that already has one.
    AlreadyExecuted,
    /// The request URL could not be parsed.
    InvalidUrl,
    /// The request URL parsed but names no host.
    MissingHost,
    /// The response status was not 200; it holds the status received.
    UnexpectedStatus(u16),
    /// The response carried no `Content-Type` header.
    MissingContentType,
    /// The response's `Content-Type` was not the one the exchange expects.
    ContentTypeMismatch { expected: String, actual: String },
    /// The HTTP client failed below the protocol (connection, TLS, DNS); it holds the client's message.
    Transport(String),
}

} // verus!
