//! The failures that the pipeline reports, each named by the point where it
//! arose and carrying the cause that the lower layer gave.

use crate::header::{invalid_header_value_text, INVALID_HEADER_VALUE_TEXT};
use reqwest::header::InvalidHeaderValue;
use vstd::prelude::*;

verus! {

/// `reqwest`'s error. Opaque here: it is carried, never read.
#[verifier::external_type_specification]
#[verifier::external_body]
pub struct ExReqwestError(reqwest::Error);

/// `regex`'s error for a pattern that does not compile. Carried, never read.
#[verifier::external_type_specification]
#[verifier::external_body]
pub struct ExRegexError(regex::Error);

/// A failure of the page fetcher or of the extractor.
#[derive(Debug)]
pub enum ClientError {
    /// Network failure: the request could not be sent, or no response came.
    FetchFailed(reqwest::Error),
    /// Response read failure: a response came, but its body could not be
    /// read, or did not have the expected shape.
    ParseError(reqwest::Error),
    /// Invalid header value: a text that was to be sent as a header holds a
    /// character that no header value may hold.
    InsertHeaderFailed(InvalidHeaderValue),
    /// Client build failure: the HTTP client could not be constructed.
    BuildError(reqwest::Error),
    /// Pattern compile failure: the extraction pattern was not accepted.
    RegexError(regex::Error),
    /// The body held no text field, and the caller asked for at least one.
    MissMatch,
}

impl ClientError {
    /// The failure in words.
    pub open spec fn message_text(&self) -> Seq<char> {
        match self {
            ClientError::FetchFailed(_) => "failed to fecth url"@,
            ClientError::ParseError(_) => "failed to parse data"@,
            ClientError::InsertHeaderFailed(_) => "failed to insert header: "@
                + INVALID_HEADER_VALUE_TEXT@,
            ClientError::BuildError(_) => "failed to build client"@,
            ClientError::RegexError(_) => "failed to use regex"@,
            ClientError::MissMatch => "Not found"@,
        }
    }

    /// The failure in words: one fixed text for each kind, and for a header
    /// that could not be made, what `http` says of it as well.
    pub fn message(&self) -> (text: String)
        ensures
            text@ == self.message_text(),
    {
        match self {
            ClientError::FetchFailed(_) => "failed to fecth url".to_owned(),
            ClientError::ParseError(_) => "failed to parse data".to_owned(),
            ClientError::InsertHeaderFailed(cause) => {
                let mut text = "failed to insert header: ".to_owned();
                let detail = invalid_header_value_text(cause);
                text.append(detail.as_str());
                text
            },
            ClientError::BuildError(_) => "failed to build client".to_owned(),
            ClientError::RegexError(_) => "failed to use regex".to_owned(),
            ClientError::MissMatch => "Not found".to_owned(),
        }
    }
}

/// Why a configuration value could not be had.
#[derive(Debug, Clone, Copy, PartialEq, Eq, Structural)]
pub enum VarError {
    /// The value was not set.
    NotPresent,
    /// The value was set, but is not valid Unicode.
    NotUnicode,
}

/// A failure of a summarization backend.
#[derive(Debug)]
pub enum AISummaryError {
    /// The exchange with the backend failed; the cause says at which point:
    /// `InsertHeaderFailed` while the request headers were made,
    /// `FetchFailed` in transport, `ParseError` where the response did not
    /// have the expected shape.
    FetchFailed(ClientError),
    /// Missing credential: no API key was supplied.
    NoAPIKey(VarError),
    /// Missing credential: no endpoint address was supplied.
    NoAPIURL(VarError),
    /// Missing credential: no model was named.
    NoModel(VarError),
}

impl AISummaryError {
    /// The failure in words.
    pub open spec fn message_text(&self) -> Seq<char> {
        match self {
            AISummaryError::FetchFailed(_) => "failed to fetch summary from agent"@,
            AISummaryError::NoAPIKey(_) => "No api key"@,
            AISummaryError::NoAPIURL(_) => "No api url"@,
            AISummaryError::NoModel(_) => "No model"@,
        }
    }

    /// The failure in words: one fixed text for each kind. The cause has
    /// words of its own.
    pub fn message(&self) -> (text: String)
        ensures
            text@ == self.message_text(),
    {
        match self {
            AISummaryError::FetchFailed(_) => "failed to fetch summary from agent".to_owned(),
            AISummaryError::NoAPIKey(_) => "No api key".to_owned(),
            AISummaryError::NoAPIURL(_) => "No api url".to_owned(),
            AISummaryError::NoModel(_) => "No model".to_owned(),
        }
    }
}

} // verus!
