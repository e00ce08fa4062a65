//! The uniform envelope in which every answer of the service is sent.

use crate::errors::{AppError, BAD_REQUEST};
use vstd::prelude::*;

verus! {

/// The HTTP status of an answer that carries data.
pub const OK: u16 = 200;

/// An answer: the data of a success, or the text of an error.
#[derive(Debug, Clone, PartialEq, Eq)]
pub enum Envelope<T> {
    /// Sent as `success: true` with the data.
    Success(T),
    /// Sent as `success: false` with the error text.
    Failure(String),
}

/// The status and the envelope that answer a result: 200 with the data for
/// a success, 400 with the text of the error for a failure.
pub open spec fn answers<T>(
    result: Result<T, AppError>,
    status: u16,
    envelope: Envelope<T>,
) -> bool {
    match result {
        Ok(data) => status == OK && envelope == Envelope::Success(data),
        Err(error) => status == BAD_REQUEST && (envelope matches Envelope::Failure(text) && text@
            == error@.message()),
    }
}

/// Puts the result of an operation into its envelope and picks the HTTP
/// status to send it with.
pub fn respond<T>(result: Result<T, AppError>) -> (answer: (u16, Envelope<T>))
    ensures
        answers(result, answer.0, answer.1),
        answer.0 == 200 <==> result is Ok,
        answer.0 == 400 <==> result is Err,
{
    match result {
        Ok(data) => (OK, Envelope::Success(data)),
        Err(error) => (error.status_code(), Envelope::Failure(error.message())),
    }
}

} // verus!
