//! The closed taxonomy of client-level error kinds.
//!
//! Producers (connection reader, writer, heartbeat task) wrap every
//! lower-level failure into exactly one of these kinds before depositing it
//! into the shared slot; the supervising consumer matches on the kind to
//! decide how to react. The only content a collaborator may depend on is the
//! variant tag and the display text that [`ErrorKind::message`] renders.

use vstd::prelude::*;
use vstd::string::StringExecFns;

verus! {

#[verifier::external_type_specification]
#[verifier::external_body]
pub struct ExIoError(std::io::Error);

#[verifier::external_type_specification]
#[verifier::external_body]
pub struct ExSerdeJsonError(serde_json::Error);

/// Everything that can go wrong inside the client, as one closed set of
/// kinds. Payload-carrying variants hold the human-readable text of the
/// underlying failure; no structured detail beyond the tag and that text is
/// exposed.
#[derive(Debug, Clone, PartialEq, Eq)]
pub enum ErrorKind {
    /// Transport-level failure, carrying the underlying I/O error's text.
    Io(String),
    /// The connection is known to be closed.
    Disconnected,
    /// Server/protocol-level error response.
    PulsarError(String),
    /// Invariant violation or internal bug surface.
    Unexpected(String),
    /// An inbound frame failed to decode.
    Decoding(String),
    /// An outbound frame failed to encode.
    Encoding(String),
    /// A network endpoint could not be resolved.
    SocketAddr(String),
    /// The server responded with a type or shape not expected for the request.
    UnexpectedResponse(String),
    /// Generic serialization-library failure, carrying the library's text.
    Serde(String),
    /// A structured payload failed to parse into a typed message.
    Deserialization(String),
}

impl ErrorKind {
    /// The display text of this error, as a mathematical value: the payload
    /// text, under the fixed prefix of its kind.
    pub open spec fn spec_message(self) -> Seq<char> {
        match self {
            ErrorKind::Io(s) => s@,
            ErrorKind::Disconnected => "Disconnected"@,
            ErrorKind::PulsarError(s) => s@,
            ErrorKind::Unexpected(s) => s@,
            ErrorKind::Decoding(s) => "Error decoding message: "@ + s@,
            ErrorKind::Encoding(s) => "Error encoding message: "@ + s@,
            ErrorKind::SocketAddr(s) => "Error obtaining socket address: "@ + s@,
            ErrorKind::UnexpectedResponse(s) => "Unexpected response from pulsar: "@ + s@,
            ErrorKind::Serde(s) => "Serde Error: "@ + s@,
            ErrorKind::Deserialization(s) => "Error deserializing message: "@ + s@,
        }
    }

    /// Render the stable, human-readable message of this error: exactly its
    /// [`spec_message`](ErrorKind::spec_message).
    pub fn message(&self) -> (r: String)
        ensures
            r@ == self.spec_message(),
    {
        match self {
            ErrorKind::Io(s) => s.clone(),
            ErrorKind::Disconnected => "Disconnected".to_owned(),
            ErrorKind::PulsarError(s) => s.clone(),
            ErrorKind::Unexpected(s) => s.clone(),
            ErrorKind::Decoding(s) => prefixed("Error decoding message: ", s.as_str()),
            ErrorKind::Encoding(s) => prefixed("Error encoding message: ", s.as_str()),
            ErrorKind::SocketAddr(s) => prefixed("Error obtaining socket address: ", s.as_str()),
            ErrorKind::UnexpectedResponse(s) => prefixed(
                "Unexpected response from pulsar: ",
                s.as_str(),
            ),
            ErrorKind::Serde(s) => prefixed("Serde Error: ", s.as_str()),
            ErrorKind::Deserialization(s) => prefixed("Error deserializing message: ", s.as_str()),
        }
    }

    /// Wrap a transport-level failure: every I/O error maps to `Io`, and the
    /// payload is the text that the underlying error displays, so nothing of
    /// its message is lost.
    pub fn from_io(err: std::io::Error) -> (r: ErrorKind)
        ensures
            exists|s: String|
                r == ErrorKind::Io(s) && vstd::string::to_string_from_display_ensures::<
                    std::io::Error,
                >(&err, s),
    {
        let text = err.to_string();
        let r = ErrorKind::Io(text);
        r
    }

    /// Wrap a serialization-library failure: every such error maps to
    /// `Serde`, and the payload is the text that the underlying error
    /// displays, so nothing of its message is lost.
    pub fn from_serde(err: serde_json::Error) -> (r: ErrorKind)
        ensures
            exists|s: String|
                r == ErrorKind::Serde(s) && vstd::string::to_string_from_display_ensures::<
                    serde_json::Error,
                >(&err, s),
    {
        let text = err.to_string();
        let r = ErrorKind::Serde(text);
        r
    }
}

/// `prefix` followed by `text`, as one freshly allocated string.
fn prefixed(prefix: &str, text: &str) -> (r: String)
    ensures
        r@ == prefix@ + text@,
{
    prefix.to_owned().concat(text)
}

} // verus!
