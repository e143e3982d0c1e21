//! The ways in which building a URL, or a request to the service, fails.

use vstd::prelude::*;
use vstd::string::*;

verus! {

/// Why no URL could be built. Nothing is returned besides the error: there
/// is no partial URL.
#[derive(Clone, Copy, Debug, PartialEq, Eq, Structural)]
pub enum UrlError {
    /// Both a path and an absolute source were given.
    ConflictingInputs,
    /// The transformation has no parameter set.
    EmptyTransformation,
    /// The transformation is to be placed where a path is needed, and no
    /// path was given.
    MissingRequiredField,
}

/// `reqwest::Error`, carried as it is: nothing is known of what it holds.
#[verifier::external_type_specification]
#[verifier::external_body]
pub struct ExReqwestError(reqwest::Error);

/// `reqwest::header::InvalidHeaderValue`, carried as it is.
#[verifier::external_type_specification]
#[verifier::external_body]
pub struct ExInvalidHeaderValue(reqwest::header::InvalidHeaderValue);

/// `serde_json::Error`, carried as it is.
#[verifier::external_type_specification]
#[verifier::external_body]
pub struct ExJsonError(serde_json::Error);

/// Why a variable of the environment could not be read.
#[derive(Debug)]
pub enum EnvError {
    /// The variable is not set.
    NotPresent,
    /// The variable's value is not valid Unicode; it is kept with the
    /// invalid parts replaced.
    NotUnicode(String),
}

/// Why the client could not be set up, or what the service answered in
/// place of a result.
#[derive(Debug)]
pub enum ClientError {
    /// The request could not be made or its answer not read.
    Http(reqwest::Error),
    /// The credentials do not give a valid header.
    Header(reqwest::header::InvalidHeaderValue),
    /// A variable of the environment is missing or unreadable.
    Env(EnvError),
    /// The answer is not the JSON that was expected.
    Json(serde_json::Error),
    /// Status 401.
    Unauthorized(String),
    /// Status 403.
    Forbidden(String),
    /// Status 429.
    TooManyRequests(String),
    /// Status 500, 502, 503 or 504.
    InternalServerError(String),
}

impl ClientError {
    /// `code` is one of the statuses with which the service reports a
    /// failure: 401, 403, 429, 500, 502, 503, 504.
    pub open spec fn is_error_code(code: u16) -> bool {
        code == 401 || code == 403 || code == 429 || code == 500 || code == 502 || code == 503
            || code == 504
    }

    /// `self` is the error that stands for the status `code`, with
    /// `reason` as its message.
    pub open spec fn reports(self, code: u16, reason: Seq<char>) -> bool {
        match self {
            ClientError::Unauthorized(message) => code == 401 && message@ == reason,
            ClientError::Forbidden(message) => code == 403 && message@ == reason,
            ClientError::TooManyRequests(message) => code == 429 && message@ == reason,
            ClientError::InternalServerError(message) => (code == 500 || code == 502 || code == 503
                || code == 504) && message@ == reason,
            _ => false,
        }
    }

    /// Whether `code` is one of the statuses with which the service
    /// reports a failure.
    pub fn known_error_code(code: u16) -> (known: bool)
        ensures
            known == Self::is_error_code(code),
    {
        code == 401 || code == 403 || code == 429 || code == 500 || code == 502 || code == 503
            || code == 504
    }

    /// The error for a failure status, with the text of the answer as its
    /// message.
    pub fn from_error_code(code: u16, reason: &str) -> (error: Self)
        requires
            Self::is_error_code(code),
        ensures
            error.reports(code, reason@),
    {
        let message = String::from_str(reason);
        if code == 401 {
            ClientError::Unauthorized(message)
        } else if code == 403 {
            ClientError::Forbidden(message)
        } else if code == 429 {
            ClientError::TooManyRequests(message)
        } else {
            ClientError::InternalServerError(message)
        }
    }
}

} // verus!
