//! The unified error taxonomy: every fallible operation of the library
//! reports one of these kinds, so callers can match on the kind without
//! inspecting strings.

use vstd::prelude::*;

verus! {

/// A structured error object reported by the remote service itself
/// (the HTTP exchange succeeded, but the service answered with an
/// error body).
#[derive(Debug)]
pub struct APIError {
    pub message: String,
    pub error_type: String,
    pub code: Option<String>,
    pub param: Option<String>,
}

/// The mathematical model of an `APIError`.
pub struct APIErrorView {
    pub message: Seq<char>,
    pub error_type: Seq<char>,
    pub code: Option<Seq<char>>,
    pub param: Option<Seq<char>>,
}

impl View for APIError {
    type V = APIErrorView;

    open spec fn view(&self) -> APIErrorView {
        APIErrorView {
            message: self.message@,
            error_type: self.error_type@,
            code: match self.code {
                Some(c) => Some(c@),
                None => None,
            },
            param: match self.param {
                Some(p) => Some(p@),
                None => None,
            },
        }
    }
}

/// Everything that can go wrong in one request/response cycle or while
/// building a configuration.
#[derive(Debug)]
pub enum Error {
    /// The HTTP call itself failed (connection, TLS, timeout, non-2xx
    /// status); carries the transport's own description.
    RequestFailed(String),
    /// A body was received but did not decode into the expected
    /// completion shape; carries the decoder's diagnostic.
    ResponseParseError(String),
    /// The configuration builder was finalized without a required
    /// field; carries that field's name.
    ConfigError(String),
    /// A local input/output failure unrelated to the network call.
    IoError(String),
    /// A structured error object reported by the remote service.
    APIError(APIError),
    /// A response that decoded but violates a semantic invariant, such
    /// as an empty list of choices.
    UnexpectedResponse(String),
}

/// The mathematical model of an `Error`.
pub enum ErrorView {
    RequestFailed(Seq<char>),
    ResponseParseError(Seq<char>),
    ConfigError(Seq<char>),
    IoError(Seq<char>),
    APIError(APIErrorView),
    UnexpectedResponse(Seq<char>),
}

impl View for Error {
    type V = ErrorView;

    open spec fn view(&self) -> ErrorView {
        match self {
            Error::RequestFailed(s) => ErrorView::RequestFailed(s@),
            Error::ResponseParseError(s) => ErrorView::ResponseParseError(s@),
            Error::ConfigError(s) => ErrorView::ConfigError(s@),
            Error::IoError(s) => ErrorView::IoError(s@),
            Error::APIError(e) => ErrorView::APIError(e@),
            Error::UnexpectedResponse(s) => ErrorView::UnexpectedResponse(s@),
        }
    }
}

} // verus!
