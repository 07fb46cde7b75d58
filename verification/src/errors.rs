//! The error taxonomy of the service, and its mapping to HTTP status classes.

use vstd::prelude::*;

verus! {

/// Every failure the core can report.
///
/// `NotFound` covers an unknown identifier and an index/storage divergence;
/// `InvalidArgument` covers malformed pagination; `UnsupportedInput` is a
/// source that cannot be decoded as an image; `IOError` is a filesystem or
/// stream failure; `IngestFailed` aggregates any failure of the ingest
/// pipeline.
#[derive(Clone, Copy, Debug, PartialEq, Eq, Structural)]
pub enum AppError {
    NotFound,
    InvalidArgument,
    UnsupportedInput,
    IOError,
    IngestFailed,
}

impl AppError {
    /// The HTTP status this error surfaces as: lookup failures and malformed
    /// pagination are client errors; everything else is a server error.
    pub open spec fn spec_status_code(self) -> u16 {
        match self {
            AppError::NotFound => 404,
            AppError::InvalidArgument => 400,
            AppError::UnsupportedInput => 500,
            AppError::IOError => 500,
            AppError::IngestFailed => 500,
        }
    }

    pub fn status_code(&self) -> (r: u16)
        ensures
            r == self.spec_status_code(),
    {
        match self {
            AppError::NotFound => 404,
            AppError::InvalidArgument => 400,
            AppError::UnsupportedInput => 500,
            AppError::IOError => 500,
            AppError::IngestFailed => 500,
        }
    }

    /// A short description for the HTTP error body.
    pub fn message(&self) -> (r: &'static str)
        ensures
            *self == AppError::NotFound ==> r@ == "not found"@,
            *self == AppError::InvalidArgument ==> r@ == "invalid argument"@,
            *self == AppError::UnsupportedInput ==> r@ == "unsupported input"@,
            *self == AppError::IOError ==> r@ == "i/o failure"@,
            *self == AppError::IngestFailed ==> r@ == "ingest failed"@,
    {
        match self {
            AppError::NotFound => "not found",
            AppError::InvalidArgument => "invalid argument",
            AppError::UnsupportedInput => "unsupported input",
            AppError::IOError => "i/o failure",
            AppError::IngestFailed => "ingest failed",
        }
    }
}

/// Malformed pagination surfaces as a client error, never a server error.
pub proof fn lemma_invalid_pagination_is_client_error()
    ensures
        400 <= AppError::InvalidArgument.spec_status_code() < 500,
{
}

} // verus!
