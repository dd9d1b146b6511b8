//! What can go wrong between naming a cluster and holding a decoded answer.

use url::ParseError;
use vstd::prelude::*;

verus! {

/// Why a response body could not be turned into the value that was asked for.
#[derive(Debug, Clone, Copy, PartialEq, Eq)]
pub enum DecodeError {
    /// The body is not one JSON document; the place is where the parser stopped.
    Syntax { line: usize, column: usize },
    /// A record was expected where the document holds something else.
    NotAnObject,
    /// A record lacks the named field, which its shape requires.
    MissingField(&'static str),
    /// The named field holds a value that its shape does not allow.
    WrongType(&'static str),
}

/// Why the transport has no response to show for a request.
#[derive(Debug, PartialEq, Eq)]
pub enum TransportError {
    /// The read did not finish within the time that the request allowed.
    TimedOut,
    /// Any other failure of the network or of TLS, in the transport's words.
    Failed(String),
}

/// Why a request path gives no address to send to.
#[derive(Debug)]
pub enum JoinError {
    /// The path cannot be read against the base address; the parser says why.
    Unresolvable(ParseError),
    /// The path resolves, but to another scheme, host or port than the
    /// cluster's. Nothing is sent there.
    OtherOrigin,
}

/// The failures of the client, by kind. None of them is retried.
#[derive(Debug)]
pub enum KubeError {
    /// The server's base address is not an absolute URL.
    UrlParse(ParseError),
    /// A request path gives no address below the base address.
    UrlJoin(JoinError),
    /// The file of CA certificates cannot be read; the text says why.
    CertificateLoad(String),
    /// The request was sent, or should have been, and no response came back.
    Transport(TransportError),
    /// The response body is not JSON, or not of the shape that was asked for.
    Deserialization(DecodeError),
}

} // verus!
