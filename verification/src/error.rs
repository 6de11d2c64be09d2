//! The failure taxonomy shared by every operation of this crate.
use vstd::prelude::*;

verus! {

/// Spec-level image of an [`Error`], with strings as character sequences.
#[verifier::ext_equal]
pub enum ErrorView {
    InvalidPath { path: Seq<char> },
    TransportFailure { message: Seq<char> },
    ApiError { message: Seq<char>, stacktrace: Option<Seq<char>> },
    DecodeFailure { raw_body: Seq<char> },
    UnexpectedDataType { expected: Seq<char>, actual: Seq<char> },
}

/// What can go wrong while talking to the service.
///
/// Every operation fails fast: no retry, no backoff, no partial recovery.
#[derive(Debug)]
pub enum Error {
    /// A malformed resource identifier, caught locally before any request.
    InvalidPath { path: String },
    /// The transport collaborator could not complete a request.
    TransportFailure { message: String },
    /// The server itself reported a failure.
    ApiError { message: String, stacktrace: Option<String> },
    /// The body matched neither the expected shape nor the error envelope;
    /// it is kept verbatim for diagnosis.
    DecodeFailure { raw_body: String },
    /// The server returned a resource of the wrong kind for the operation.
    UnexpectedDataType { expected: String, actual: String },
}

/// The view of an optional owned string.
pub open spec fn opt_string_view(o: Option<String>) -> Option<Seq<char>> {
    match o {
        Some(s) => Some(s@),
        None => None,
    }
}

impl View for Error {
    type V = ErrorView;

    open spec fn view(&self) -> ErrorView {
        match self {
            Error::InvalidPath { path } => ErrorView::InvalidPath { path: path@ },
            Error::TransportFailure { message } => ErrorView::TransportFailure {
                message: message@,
            },
            Error::ApiError { message, stacktrace } => ErrorView::ApiError {
                message: message@,
                stacktrace: opt_string_view(*stacktrace),
            },
            Error::DecodeFailure { raw_body } => ErrorView::DecodeFailure {
                raw_body: raw_body@,
            },
            Error::UnexpectedDataType { expected, actual } => ErrorView::UnexpectedDataType {
                expected: expected@,
                actual: actual@,
            },
        }
    }
}

} // verus!
