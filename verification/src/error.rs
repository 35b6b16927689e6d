//! The errors of the library.

use vstd::prelude::*;
use vstd::string::*;

use crate::b64::decode_error_text;
use crate::json::json_error_text;
use crate::locator::parse_error_text;

verus! {

/// What went wrong, without the details.
#[derive(Clone, Copy, Debug, PartialEq, Eq, Structural)]
pub enum ErrorKind {
    /// The host address is no URL.
    Parse,
    /// The transport could not complete the exchange.
    Http,
    /// A text is not the JSON that was expected, or cannot be written as JSON.
    Json,
    /// The backend's answer has no content field.
    NoContent,
    /// The content is no valid base64.
    BadEncoding,
    /// The content is not UTF-8.
    NotUtf8,
    /// The backend's answer has no version token.
    NoSha,
    /// The backend refused a write because the blob has changed since it was
    /// last fetched.
    Conflict,
    /// A text is longer than the library accepts.
    TooLarge,
}

/// Any error this library can return.
#[derive(Debug)]
pub enum ClientError {
    Parse(url::ParseError),
    Http(String),
    Json(serde_json::Error),
    NoContent,
    BadEncoding(base64::DecodeError),
    NotUtf8,
    NoSha,
    Conflict,
    TooLarge,
}

impl ClientError {
    /// The kind of this error.
    pub open spec fn spec_kind(&self) -> ErrorKind {
        match self {
            ClientError::Parse(_) => ErrorKind::Parse,
            ClientError::Http(_) => ErrorKind::Http,
            ClientError::Json(_) => ErrorKind::Json,
            ClientError::NoContent => ErrorKind::NoContent,
            ClientError::BadEncoding(_) => ErrorKind::BadEncoding,
            ClientError::NotUtf8 => ErrorKind::NotUtf8,
            ClientError::NoSha => ErrorKind::NoSha,
            ClientError::Conflict => ErrorKind::Conflict,
            ClientError::TooLarge => ErrorKind::TooLarge,
        }
    }

    /// The kind of this error.
    #[verifier::when_used_as_spec(spec_kind)]
    pub fn kind(&self) -> (kind: ErrorKind)
        ensures
            kind == self.spec_kind(),
    {
        match self {
            ClientError::Parse(_) => ErrorKind::Parse,
            ClientError::Http(_) => ErrorKind::Http,
            ClientError::Json(_) => ErrorKind::Json,
            ClientError::NoContent => ErrorKind::NoContent,
            ClientError::BadEncoding(_) => ErrorKind::BadEncoding,
            ClientError::NotUtf8 => ErrorKind::NotUtf8,
            ClientError::NoSha => ErrorKind::NoSha,
            ClientError::Conflict => ErrorKind::Conflict,
            ClientError::TooLarge => ErrorKind::TooLarge,
        }
    }

    /// The message of this error: a fixed phrase, followed for the errors
    /// that wrap another by that error's own words.
    pub open spec fn message_text(&self) -> Seq<char> {
        match self {
            ClientError::Parse(e) => "Parse Error: "@ + parse_error_text(*e),
            ClientError::Http(reason) => "Http Error: "@ + reason@,
            ClientError::Json(e) => "Json Parsing Error: "@ + json_error_text(*e),
            ClientError::NoContent => "No Content Found In Returned JSON"@,
            ClientError::BadEncoding(e) => "Base64 Decode Error: "@ + decode_error_text(*e),
            ClientError::NotUtf8 => "Content Not Encoded in Utf8"@,
            ClientError::NoSha => "No Sha Returned From Github"@,
            ClientError::Conflict => "Blob Changed Since It Was Fetched"@,
            ClientError::TooLarge => "Text Too Large"@,
        }
    }

    /// The message of this error.
    pub fn message(&self) -> (text: String)
        ensures
            text@ == self.message_text(),
    {
        match self {
            ClientError::Parse(e) => {
                let detail = crate::locator::describe(e);
                String::from_str("Parse Error: ").concat(detail.as_str())
            },
            ClientError::Http(reason) => String::from_str("Http Error: ").concat(reason.as_str()),
            ClientError::Json(e) => {
                let detail = crate::json::describe(e);
                String::from_str("Json Parsing Error: ").concat(detail.as_str())
            },
            ClientError::NoContent => String::from_str("No Content Found In Returned JSON"),
            ClientError::BadEncoding(e) => {
                let detail = crate::b64::describe(e);
                String::from_str("Base64 Decode Error: ").concat(detail.as_str())
            },
            ClientError::NotUtf8 => String::from_str("Content Not Encoded in Utf8"),
            ClientError::NoSha => String::from_str("No Sha Returned From Github"),
            ClientError::Conflict => String::from_str("Blob Changed Since It Was Fetched"),
            ClientError::TooLarge => String::from_str("Text Too Large"),
        }
    }
}

} // verus!
