//! The error taxonomy of the service, and its mapping onto transport codes.

use vstd::prelude::*;

verus! {

/// Every failure a handler can report. Store and serialization failures are
/// collapsed into `InternalServerError` by the callers; no detail of them is
/// ever carried outward.
#[derive(Debug, Clone, PartialEq, Eq)]
pub enum AppError {
    PasteNotFound,
    Unauthorized(String),
    BadRequest(String),
    Conflict(String),
    TooManyRequests,
    InternalServerError,
}

impl AppError {
    /// The HTTP status code each error kind maps to.
    pub open spec fn spec_status_code(&self) -> u16 {
        match self {
            AppError::PasteNotFound => 404,
            AppError::Unauthorized(_) => 401,
            AppError::BadRequest(_) => 400,
            AppError::Conflict(_) => 409,
            AppError::TooManyRequests => 429,
            AppError::InternalServerError => 500,
        }
    }

    /// The body message each error kind maps to: the carried message where
    /// there is one, a fixed sentence otherwise.
    pub open spec fn spec_message(&self) -> Seq<char> {
        match self {
            AppError::PasteNotFound => "Paste not found"@,
            AppError::Unauthorized(m) => m@,
            AppError::BadRequest(m) => m@,
            AppError::Conflict(m) => m@,
            AppError::TooManyRequests => "Server busy, please try again later"@,
            AppError::InternalServerError => "Internal server error"@,
        }
    }

    pub fn status_code(&self) -> (code: u16)
        ensures
            code == self.spec_status_code(),
    {
        match self {
            AppError::PasteNotFound => 404,
            AppError::Unauthorized(_) => 401,
            AppError::BadRequest(_) => 400,
            AppError::Conflict(_) => 409,
            AppError::TooManyRequests => 429,
            AppError::InternalServerError => 500,
        }
    }

    pub fn message(&self) -> (msg: String)
        ensures
            msg@ == self.spec_message(),
    {
        match self {
            AppError::PasteNotFound => "Paste not found".to_owned(),
            AppError::Unauthorized(m) => m.clone(),
            AppError::BadRequest(m) => m.clone(),
            AppError::Conflict(m) => m.clone(),
            AppError::TooManyRequests => "Server busy, please try again later".to_owned(),
            AppError::InternalServerError => "Internal server error".to_owned(),
        }
    }
}

} // verus!
