//! The error type shared by every operation of the library.

use vstd::prelude::*;
use vstd::string::*;

verus! {

/// Why a request was rejected.
#[derive(Debug, Clone, PartialEq, Eq)]
pub enum AppError {
    /// A required field was absent from the request.
    MissingFields,
    /// A field was malformed: a bad address, bad base58 or base64 text, a
    /// wrong byte length, or a zero amount.
    InvalidInput(String),
    /// The instruction builder rejected inputs that were otherwise well formed.
    CryptoError(String),
}

/// The mathematical value of an [`AppError`].
pub ghost enum AppErrorView {
    MissingFields,
    InvalidInput(Seq<char>),
    CryptoError(Seq<char>),
}

impl AppErrorView {
    /// The HTTP status to answer with: every error is a client error.
    pub open spec fn status_code(self) -> u16 {
        BAD_REQUEST
    }

    /// The human-readable text of the error.
    pub open spec fn message(self) -> Seq<char> {
        match self {
            AppErrorView::MissingFields => "Missing required fields"@,
            AppErrorView::InvalidInput(detail) => "Invalid input: "@ + detail,
            AppErrorView::CryptoError(detail) => "Cryptographic error: "@ + detail,
        }
    }
}

impl View for AppError {
    type V = AppErrorView;

    open spec fn view(&self) -> AppErrorView {
        match self {
            AppError::MissingFields => AppErrorView::MissingFields,
            AppError::InvalidInput(detail) => AppErrorView::InvalidInput(detail@),
            AppError::CryptoError(detail) => AppErrorView::CryptoError(detail@),
        }
    }
}

/// The mathematical value of what an operation gave: the view of the
/// value on success, the view of the error on failure.
pub open spec fn result_view<T: View>(result: Result<T, AppError>) -> Result<T::V, AppErrorView> {
    match result {
        Ok(value) => Ok(value@),
        Err(error) => Err(error@),
    }
}

/// The HTTP status that every rejected request is answered with.
pub const BAD_REQUEST: u16 = 400;

impl AppError {
    /// The human-readable text of the error.
    pub fn message(&self) -> (text: String)
        ensures
            text@ == self@.message(),
    {
        match self {
            AppError::MissingFields => String::from_str("Missing required fields"),
            AppError::InvalidInput(detail) => String::from_str("Invalid input: ").concat(
                detail.as_str(),
            ),
            AppError::CryptoError(detail) => String::from_str("Cryptographic error: ").concat(
                detail.as_str(),
            ),
        }
    }

    /// The HTTP status to answer with: every error is a client error.
    pub fn status_code(&self) -> (code: u16)
        ensures
            code == self@.status_code(),
            code == 400,
    {
        BAD_REQUEST
    }
}

} // verus!
