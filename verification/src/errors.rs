//! The error taxonomy shared by every operation of the library.

use vstd::prelude::*;

verus! {

/// How an operation can fail.
///
/// `Validation` is a malformed payload, `BadRequest` a business-rule
/// violation (a duplicate username), `Unauthorized` a missing or invalid
/// session, `NotFound` an absent or not-owned entity, `Database` a storage
/// failure reported by a driver, and `Internal` any other unexpected failure.
#[derive(Debug)]
pub enum AppError {
    Validation(String),
    NotFound(String),
    Unauthorized,
    BadRequest(String),
    Database(String),
    Internal,
}

impl AppError {
    /// The message a client sees in the error body.
    pub fn message(&self) -> (r: String)
        ensures
            r@ == self.spec_message(),
    {
        match self {
            AppError::Validation(m) => m.clone(),
            AppError::NotFound(m) => m.clone(),
            AppError::Unauthorized => String::from_str("Unauthorized"),
            AppError::BadRequest(m) => m.clone(),
            AppError::Database(m) => m.clone(),
            AppError::Internal => String::from_str("Internal server error"),
        }
    }

    pub open spec fn spec_message(&self) -> Seq<char> {
        match self {
            AppError::Validation(m) => m@,
            AppError::NotFound(m) => m@,
            AppError::Unauthorized => "Unauthorized"@,
            AppError::BadRequest(m) => m@,
            AppError::Database(m) => m@,
            AppError::Internal => "Internal server error"@,
        }
    }
}

pub type AppResult<T> = Result<T, AppError>;

} // verus!
