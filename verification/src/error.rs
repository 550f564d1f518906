//! The errors that the client reports, and how a failed response becomes one.
use vstd::prelude::*;
use crate::codec::{parse, parsed};
use crate::json::{JsonValue, JsonView};
use crate::text::{decimal, decimal_string};

verus! {

/// The kinds of failure that a call can report.
#[derive(Debug, Clone, Copy, PartialEq, Eq, Structural)]
pub enum ErrorKind {
    /// The root endpoint given at construction is no valid URL.
    Config,
    /// No HTTP response was obtained.
    Transport,
    /// The daemon answered with a status that the operation does not accept.
    Api,
    /// The daemon accepted the request, but its answer lacks a required
    /// field or holds a value that is not understood.
    Mapping,
}

/// An error returned by `Client` when an API call fails.
#[derive(Debug, Clone, PartialEq, Eq)]
pub struct FleetError {
    /// What went wrong.
    pub kind: ErrorKind,
    /// An HTTP status code returned by the fleet API.
    pub code: Option<u16>,
    /// A message describing the error. This message comes from fleet directly whenever fleet
    /// provides a message. For a mapping error it is the name of the field at fault.
    pub message: Option<String>,
}

/// The mathematical model of a [`FleetError`].
pub struct FleetErrorView {
    pub kind: ErrorKind,
    pub code: Option<u16>,
    pub message: Option<Seq<char>>,
}

impl View for FleetError {
    type V = FleetErrorView;

    open spec fn view(&self) -> FleetErrorView {
        FleetErrorView {
            kind: self.kind,
            code: self.code,
            message: match self.message {
                Some(m) => Some(m@),
                None => None,
            },
        }
    }
}

/// The error for a root endpoint that does not parse.
pub open spec fn config_error(description: Seq<char>) -> FleetErrorView {
    FleetErrorView { kind: ErrorKind::Config, code: None, message: Some(description) }
}

/// The error for a request that got no response.
pub open spec fn transport_error(description: Seq<char>) -> FleetErrorView {
    FleetErrorView { kind: ErrorKind::Transport, code: None, message: Some(description) }
}

/// The error for a response with an unaccepted status.
pub open spec fn api_error(status: u16, message: Seq<char>) -> FleetErrorView {
    FleetErrorView { kind: ErrorKind::Api, code: Some(status), message: Some(message) }
}

/// The error for an answer whose `field` is missing or not understood.
pub open spec fn mapping_error(field: Seq<char>) -> FleetErrorView {
    FleetErrorView { kind: ErrorKind::Mapping, code: None, message: Some(field) }
}

/// The message that stands in for an error text that is empty or no string.
pub open spec fn empty_message() -> Seq<char> {
    "Error in JSON response from Fleet was empty"@
}

/// The message for an error body that is JSON but holds no `error.message`.
pub open spec fn missing_message() -> Seq<char> {
    "Error parsing JSON response from Fleet"@
}

/// The message for an error body that is no JSON at all.
pub open spec fn unparseable_message() -> Seq<char> {
    "could not parse error response"@
}

/// The message that is shown for an error that carries none.
pub open spec fn unknown_message() -> Seq<char> {
    "Unknown error"@
}

/// The message for an error response whose body was read as `document`.
pub open spec fn error_message(document: Option<JsonView>) -> Seq<char> {
    match document {
        None => unparseable_message(),
        Some(body) => match body.find("error"@) {
            None => missing_message(),
            Some(error) => match error.find("message"@) {
                None => missing_message(),
                Some(message) => match message.as_string() {
                    Some(text) => if text.len() == 0 {
                        empty_message()
                    } else {
                        text
                    },
                    None => empty_message(),
                },
            },
        },
    }
}

/// How an error is shown: the status code, or 0 without one, then a colon,
/// a space and the message.
pub open spec fn display(error: FleetErrorView) -> Seq<char> {
    decimal(
        match error.code {
            Some(code) => code as nat,
            None => 0,
        },
    ) + ": "@ + match error.message {
        Some(message) => message,
        None => unknown_message(),
    }
}

/// Resolves the message of an error response from its body, already read:
/// the text under `error.message` where there is one, and a fixed
/// placeholder otherwise.
pub fn message_from_document(document: Option<&JsonValue>) -> (r: String)
    ensures
        r@ == error_message(
            match document {
                Some(body) => Some(body@),
                None => None,
            },
        ),
{
    match document {
        None => "could not parse error response".to_owned(),
        Some(body) => match body.find("error") {
            None => "Error parsing JSON response from Fleet".to_owned(),
            Some(error) => match error.find("message") {
                None => "Error parsing JSON response from Fleet".to_owned(),
                Some(message) => match message.as_string() {
                    Some(text) => {
                        if text.is_empty() {
                            "Error in JSON response from Fleet was empty".to_owned()
                        } else {
                            text.to_owned()
                        }
                    },
                    None => "Error in JSON response from Fleet was empty".to_owned(),
                },
            },
        },
    }
}

/// Resolves the message of an error response from the bytes of its body.
pub fn extract_message(body: &[u8]) -> (r: Option<String>)
    ensures
        r matches Some(message) && message@ == error_message(parsed(body@)),
{
    let document = parse(body);
    let message = match &document {
        Some(value) => message_from_document(Some(value)),
        None => message_from_document(None),
    };
    Some(message)
}

impl FleetError {
    /// The error for a root endpoint that does not parse.
    pub fn config(description: &str) -> (r: FleetError)
        ensures
            r@ == config_error(description@),
    {
        FleetError { kind: ErrorKind::Config, code: None, message: Some(description.to_owned()) }
    }

    /// The error for an answer whose `field` is missing or not understood.
    pub fn mapping(field: &str) -> (r: FleetError)
        ensures
            r@ == mapping_error(field@),
    {
        FleetError { kind: ErrorKind::Mapping, code: None, message: Some(field.to_owned()) }
    }

    /// Constructs a new `FleetError` for a request that the transport could not complete, from
    /// the transport's description of the failure. Not intended for public use.
    pub fn from_hyper_error(description: &str) -> (r: FleetError)
        ensures
            r@ == transport_error(description@),
    {
        FleetError {
            kind: ErrorKind::Transport,
            code: None,
            message: Some(description.to_owned()),
        }
    }

    /// Constructs a new `FleetError` from the status and the body of a response that the
    /// operation does not accept. Not intended for public use.
    pub fn from_hyper_response(status: u16, body: &[u8]) -> (r: FleetError)
        ensures
            r@ == api_error(status, error_message(parsed(body@))),
    {
        FleetError { kind: ErrorKind::Api, code: Some(status), message: extract_message(body) }
    }

    /// Shows the error as its status code and its message.
    pub fn to_string(&self) -> (r: String)
        ensures
            r@ == display(self@),
    {
        let code: u16 = match self.code {
            Some(code) => code,
            None => 0,
        };
        let head = decimal_string(code).concat(": ");
        match &self.message {
            Some(message) => head.concat(message.as_str()),
            None => head.concat("Unknown error"),
        }
    }
}

/// The message of an error response is never empty: where the daemon sent
/// none, or an empty one, a placeholder stands in.
pub proof fn lemma_error_message_is_never_empty(document: Option<JsonView>)
    ensures
        error_message(document).len() > 0,
{
    reveal_strlit("Error in JSON response from Fleet was empty");
    reveal_strlit("Error parsing JSON response from Fleet");
    reveal_strlit("could not parse error response");
}

/// A message that the daemon sent, and that is not empty, is kept as it is.
pub proof fn lemma_error_message_is_kept(body: JsonView, error: JsonView, text: Seq<char>)
    requires
        body.find("error"@) == Some(error),
        error.find("message"@) == Some(JsonView::String(text)),
        text.len() > 0,
    ensures
        error_message(Some(body)) == text,
{
}

} // verus!
