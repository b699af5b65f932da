//! What can go wrong, and on whom it falls.
//!
//! Every failure stays with the one request or connection that caused it.

use vstd::prelude::*;

verus! {

/// Why an inbound message could not be decoded.
#[derive(Clone, Copy, Debug, PartialEq, Eq, Structural)]
pub enum Malformed {
    /// The frame does not carry text.
    NotText,
    /// The query has no payload under `b64` in its first place.
    NoPayload,
    /// The payload is not base64 without padding.
    NotBase64,
    /// The text is not a JSON document.
    NotJson,
    /// The document is none of the known messages.
    UnknownShape,
}

/// A failure of one request or one connection.
#[derive(Clone, Copy, Debug, PartialEq, Eq, Structural)]
pub enum Error {
    /// The transport failed while reading a frame. Ends that connection.
    Transport,
    /// An inbound message could not be decoded. Ends that connection, or
    /// fails that one query.
    MalformedFrame(Malformed),
    /// Nothing is stored under the identifier asked for.
    NotFound,
    /// The store could not be reached. Reported to whoever asked; ends
    /// nothing.
    StoreUnavailable,
}

/// The transport failed while reading a frame.
#[derive(Clone, Copy, Debug, PartialEq, Eq, Structural)]
pub struct TransportError;

/// The store could not be reached.
#[derive(Clone, Copy, Debug, PartialEq, Eq, Structural)]
pub struct StoreUnavailable;

impl Error {
    /// Whether the failure ends the connection it happened on.
    pub open spec fn ends_connection(self) -> bool {
        self is Transport || self is MalformedFrame
    }

    /// Whether the failure ends the connection it happened on.
    pub fn is_fatal_to_connection(&self) -> (b: bool)
        ensures
            b == self.ends_connection(),
    {
        match self {
            Error::Transport => true,
            Error::MalformedFrame(_) => true,
            Error::NotFound => false,
            Error::StoreUnavailable => false,
        }
    }

    /// Whether a query that fails so is answered with a client error.
    pub open spec fn client_fault(self) -> bool {
        self is MalformedFrame || self is NotFound
    }

    /// Whether a query that fails so is answered with a client error.
    pub fn is_client_error(&self) -> (b: bool)
        ensures
            b == self.client_fault(),
    {
        match self {
            Error::MalformedFrame(_) => true,
            Error::NotFound => true,
            Error::Transport => false,
            Error::StoreUnavailable => false,
        }
    }

    /// The line that tells of the failure in the log.
    pub open spec fn message_text(self) -> Seq<char> {
        match self {
            Error::Transport => "transport failed while reading a frame"@,
            Error::MalformedFrame(Malformed::NotText) => "malformed frame: not text"@,
            Error::MalformedFrame(Malformed::NoPayload) => "malformed query: no b64 payload"@,
            Error::MalformedFrame(Malformed::NotBase64) => "malformed query: payload is not base64"@,
            Error::MalformedFrame(Malformed::NotJson) => "malformed message: not JSON"@,
            Error::MalformedFrame(Malformed::UnknownShape) => "malformed message: unknown shape"@,
            Error::NotFound => "not found"@,
            Error::StoreUnavailable => "store unavailable"@,
        }
    }

    /// A line for the log.
    pub fn message(&self) -> (text: &'static str)
        ensures
            text@ == self.message_text(),
    {
        match self {
            Error::Transport => "transport failed while reading a frame",
            Error::MalformedFrame(Malformed::NotText) => "malformed frame: not text",
            Error::MalformedFrame(Malformed::NoPayload) => "malformed query: no b64 payload",
            Error::MalformedFrame(Malformed::NotBase64) => "malformed query: payload is not base64",
            Error::MalformedFrame(Malformed::NotJson) => "malformed message: not JSON",
            Error::MalformedFrame(Malformed::UnknownShape) => "malformed message: unknown shape",
            Error::NotFound => "not found",
            Error::StoreUnavailable => "store unavailable",
        }
    }
}

} // verus!
