//! The errors of the REST backend's client.

use vstd::prelude::*;

use crate::text::concat;

verus! {

#[verifier::external_type_specification]
#[verifier::external_body]
pub struct ExTransportError(reqwest::Error);

#[verifier::external_type_specification]
#[verifier::external_body]
pub struct ExJsonError(serde_json::Error);

/// What went wrong, without the detail.
#[derive(Clone, Copy, Debug, PartialEq, Eq, Structural)]
pub enum GeminiErrorKind {
    Configuration,
    Api,
    Serialization,
    Http,
    RateLimit,
    Other,
}

/// Errors that can occur when using the REST backend's client.
#[derive(Debug, PartialEq)]
pub enum GeminiError {
    /// The configuration could not be loaded or is not valid.
    ConfigurationError(String),
    /// The backend answered with a status that is not a success.
    ApiError(String),
    /// JSON could not be written or read.
    SerializationError(String),
    /// The request did not get through.
    HttpError(String),
    /// The backend limits the rate of requests.
    RateLimitError(String),
    /// Anything else.
    Other(String),
}

impl View for GeminiError {
    type V = (GeminiErrorKind, Seq<char>);

    open spec fn view(&self) -> (GeminiErrorKind, Seq<char>) {
        match self {
            GeminiError::ConfigurationError(detail) => (GeminiErrorKind::Configuration, detail@),
            GeminiError::ApiError(detail) => (GeminiErrorKind::Api, detail@),
            GeminiError::SerializationError(detail) => (GeminiErrorKind::Serialization, detail@),
            GeminiError::HttpError(detail) => (GeminiErrorKind::Http, detail@),
            GeminiError::RateLimitError(detail) => (GeminiErrorKind::RateLimit, detail@),
            GeminiError::Other(detail) => (GeminiErrorKind::Other, detail@),
        }
    }
}

impl GeminiError {
    /// What the error reads as: what went wrong, a colon, the detail.
    pub open spec fn text(&self) -> Seq<char> {
        match self {
            GeminiError::ConfigurationError(detail) => "Configuration error: "@ + detail@,
            GeminiError::ApiError(detail) => "API error: "@ + detail@,
            GeminiError::SerializationError(detail) => "Serialization error: "@ + detail@,
            GeminiError::HttpError(detail) => "HTTP error: "@ + detail@,
            GeminiError::RateLimitError(detail) => "Rate limit error: "@ + detail@,
            GeminiError::Other(detail) => "Error: "@ + detail@,
        }
    }

    /// The error as text.
    pub fn to_text(&self) -> (r: String)
        ensures
            r@ == self.text(),
    {
        match self {
            GeminiError::ConfigurationError(detail) => concat(
                "Configuration error: ",
                detail.as_str(),
            ),
            GeminiError::ApiError(detail) => concat("API error: ", detail.as_str()),
            GeminiError::SerializationError(detail) => concat(
                "Serialization error: ",
                detail.as_str(),
            ),
            GeminiError::HttpError(detail) => concat("HTTP error: ", detail.as_str()),
            GeminiError::RateLimitError(detail) => concat("Rate limit error: ", detail.as_str()),
            GeminiError::Other(detail) => concat("Error: ", detail.as_str()),
        }
    }

    /// The error for a request that failed in transport. A timeout comes
    /// before a failure to connect, and that before the status 429, which
    /// alone is a rate limit; everything else is a plain HTTP error.
    pub open spec fn transport_failure(
        timed_out: bool,
        connect_failed: bool,
        status: Option<u16>,
        text: Seq<char>,
    ) -> (GeminiErrorKind, Seq<char>) {
        if timed_out {
            (GeminiErrorKind::Http, "Request timed out: "@ + text)
        } else if connect_failed {
            (GeminiErrorKind::Http, "Connection error: "@ + text)
        } else if status == Some(429u16) {
            (GeminiErrorKind::RateLimit, "Rate limit exceeded: "@ + text)
        } else {
            (GeminiErrorKind::Http, "HTTP error: "@ + text)
        }
    }

    /// The error for a request that failed in transport, from what the
    /// transport says of the failure.
    pub fn from_transport(timed_out: bool, connect_failed: bool, status: Option<u16>, text: &str)
        -> (r: GeminiError)
        ensures
            r@ == GeminiError::transport_failure(timed_out, connect_failed, status, text@),
    {
        if timed_out {
            GeminiError::HttpError(concat("Request timed out: ", text))
        } else if connect_failed {
            GeminiError::HttpError(concat("Connection error: ", text))
        } else if status == Some(429u16) {
            GeminiError::RateLimitError(concat("Rate limit exceeded: ", text))
        } else {
            GeminiError::HttpError(concat("HTTP error: ", text))
        }
    }
}

/// Whether the transport error is related to a timeout.
pub uninterp spec fn transport_timed_out(err: reqwest::Error) -> bool;

/// Whether the transport error is related to connecting.
pub uninterp spec fn transport_connect_failed(err: reqwest::Error) -> bool;

/// The HTTP status that the transport error was made from, if any.
pub uninterp spec fn transport_status(err: reqwest::Error) -> Option<u16>;

/// What the transport error reads as.
pub uninterp spec fn transport_text(err: reqwest::Error) -> Seq<char>;

/// What the JSON error reads as.
pub uninterp spec fn json_error_text(err: serde_json::Error) -> Seq<char>;

/// `reqwest::Error::is_timeout` says whether the error is related to a
/// timeout.
pub assume_specification[ reqwest::Error::is_timeout ](err: &reqwest::Error) -> (r: bool)
    ensures
        r == transport_timed_out(*err),
;

/// `reqwest::Error::is_connect` says whether the error is related to
/// connecting.
pub assume_specification[ reqwest::Error::is_connect ](err: &reqwest::Error) -> (r: bool)
    ensures
        r == transport_connect_failed(*err),
;

/// The number of the status that `reqwest::Error::status` gives, if the
/// error was made from a response.
#[verifier::external_body]
fn status_of(err: &reqwest::Error) -> (r: Option<u16>)
    ensures
        r == transport_status(*err),
{
    err.status().map(|status| status.as_u16())
}

/// The text that the transport error displays.
#[verifier::external_body]
fn text_of_transport_error(err: &reqwest::Error) -> (r: String)
    ensures
        r@ == transport_text(*err),
{
    err.to_string()
}

/// The text that the JSON error displays.
#[verifier::external_body]
fn text_of_json_error(err: &serde_json::Error) -> (r: String)
    ensures
        r@ == json_error_text(*err),
{
    err.to_string()
}

impl From<reqwest::Error> for GeminiError {
    /// The error for a request that failed in transport.
    fn from(err: reqwest::Error) -> (r: GeminiError)
        ensures
            r@ == GeminiError::transport_failure(
                transport_timed_out(err),
                transport_connect_failed(err),
                transport_status(err),
                transport_text(err),
            ),
    {
        let text = text_of_transport_error(&err);
        GeminiError::from_transport(
            err.is_timeout(),
            err.is_connect(),
            status_of(&err),
            text.as_str(),
        )
    }
}

/// What `from` returns is stated by its own contract, over the view of the
/// error: a `GeminiError` holds a `String`, which a specification cannot
/// build.
impl vstd::std_specs::convert::FromSpecImpl<reqwest::Error> for GeminiError {
    open spec fn obeys_from_spec() -> bool {
        false
    }

    open spec fn from_spec(err: reqwest::Error) -> GeminiError {
        arbitrary()
    }
}

impl From<serde_json::Error> for GeminiError {
    /// The error for JSON that could not be written or read.
    fn from(err: serde_json::Error) -> (r: GeminiError)
        ensures
            r@ == (GeminiErrorKind::Serialization, "JSON error: "@ + json_error_text(err)),
    {
        let text = text_of_json_error(&err);
        GeminiError::SerializationError(concat("JSON error: ", text.as_str()))
    }
}

/// What `from` returns is stated by its own contract, over the view of the
/// error.
impl vstd::std_specs::convert::FromSpecImpl<serde_json::Error> for GeminiError {
    open spec fn obeys_from_spec() -> bool {
        false
    }

    open spec fn from_spec(err: serde_json::Error) -> GeminiError {
        arbitrary()
    }
}

} // verus!
