//! The error taxonomy: the one vocabulary every component of this crate
//! reports through. Only the response classifier inspects raw status codes;
//! everything downstream consumes these variants.

use vstd::prelude::*;
use vstd::string::*;

verus! {

/// A classified failure of one API call or one stream.
///
/// Errors that arise outside this crate (the transport, the JSON decoder)
/// arrive here already rendered to text: the variants carry plain values
/// only, which is all the retry and bridge logic ever reads.
#[derive(Debug, PartialEq)]
pub enum AnthropicError {
    /// The transport failed before a complete HTTP exchange was seen.
    NetworkError(String),
    /// The server rejected the request as malformed; carries the raw body.
    BadRequest(String),
    /// A structured API error rendered to text.
    ApiError(String),
    /// The server rejected the credentials; no body is read for this one.
    Unauthorized,
    /// A response or event body failed to decode; carries the decoder's
    /// message.
    DeserializationError(String),
    /// A non-success status this taxonomy has no sharper name for; carries
    /// the raw body.
    Unknown(String),
    /// An error that should not arise; kept so callers can match
    /// exhaustively.
    UnexpectedError,
    /// A server-declared error event on a stream, or a stream transport
    /// fault.
    StreamError(StreamError),
    /// The server asked for a slower pace. `retry_after` holds the
    /// server-supplied pause in seconds when the response named one;
    /// `None` means the backoff policy decides.
    RateLimit { retry_after: Option<u64> },
}

impl AnthropicError {
    /// Whether this error is absorbed by internal retry. Only rate limiting
    /// is transient; every other kind surfaces at once.
    pub open spec fn spec_is_rate_limit(self) -> bool {
        self is RateLimit
    }

    /// Whether this error is absorbed by internal retry.
    pub fn is_rate_limit(&self) -> (r: bool)
        ensures
            r == self.spec_is_rate_limit(),
    {
        match self {
            AnthropicError::RateLimit { .. } => true,
            _ => false,
        }
    }
}

impl Clone for AnthropicError {
    fn clone(&self) -> (r: Self)
        ensures
            r == *self,
    {
        match self {
            AnthropicError::NetworkError(s) => AnthropicError::NetworkError(s.clone()),
            AnthropicError::BadRequest(s) => AnthropicError::BadRequest(s.clone()),
            AnthropicError::ApiError(s) => AnthropicError::ApiError(s.clone()),
            AnthropicError::Unauthorized => AnthropicError::Unauthorized,
            AnthropicError::DeserializationError(s) => AnthropicError::DeserializationError(
                s.clone(),
            ),
            AnthropicError::Unknown(s) => AnthropicError::Unknown(s.clone()),
            AnthropicError::UnexpectedError => AnthropicError::UnexpectedError,
            AnthropicError::StreamError(e) => AnthropicError::StreamError(e.clone()),
            AnthropicError::RateLimit { retry_after } => AnthropicError::RateLimit {
                retry_after: *retry_after,
            },
        }
    }
}

/// The envelope of a server-declared stream error: a type tag, an optional
/// human-readable message, and an optional nested JSON error value that is
/// carried through untouched.
#[derive(Debug, PartialEq)]
pub struct StreamError {
    pub error_type: String,
    pub message: Option<String>,
    pub error: Option<serde_json::Value>,
}

impl Clone for StreamError {
    fn clone(&self) -> (r: Self)
        ensures
            r == *self,
    {
        StreamError {
            error_type: self.error_type.clone(),
            message: self.message.clone(),
            error: self.error.clone(),
        }
    }
}

impl StreamError {
    /// The human-readable rendering of the envelope:
    /// `Error (<type>): <message>`, with the nested error value appended
    /// when there is one and an empty message part when there is none.
    pub fn display_string(&self) -> (r: String)
        ensures
            r@ == "Error ("@ + self.error_type@ + "): "@ + (match self.message {
                Some(m) => m@,
                None => Seq::<char>::empty(),
            }) + (match self.error {
                Some(v) => " - "@ + crate::json::spec_value_text(v),
                None => Seq::<char>::empty(),
            }),
    {
        let mut r = String::from_str("Error (");
        r.append(self.error_type.as_str());
        r.append("): ");
        match &self.message {
            Some(m) => {
                r.append(m.as_str());
            },
            None => {},
        }
        match &self.error {
            Some(v) => {
                r.append(" - ");
                let rendered = crate::json::value_text(v);
                r.append(rendered.as_str());
            },
            None => {},
        }
        proof {
            assert(r@ =~= "Error ("@ + self.error_type@ + "): "@ + (match self.message {
                Some(m) => m@,
                None => Seq::<char>::empty(),
            }) + (match self.error {
                Some(v) => " - "@ + crate::json::spec_value_text(v),
                None => Seq::<char>::empty(),
            }));
        }
        r
    }

    /// A minimal envelope: a type tag and a message, nothing nested.
    pub fn new(error_type: String, message: String) -> (r: Self)
        ensures
            r.error_type == error_type,
            r.message == Some(message),
            r.error is None,
    {
        StreamError { error_type, message: Some(message), error: None }
    }
}

} // verus!
