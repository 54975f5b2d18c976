use vstd::prelude::*;
use vstd::string::*;

verus! {

/// Why a request failed.
#[derive(Clone, Debug, PartialEq, Eq)]
pub enum AppError {
    /// The store failed; the detail is kept for the log and never shown.
    Database(String),
    NotImplemented,
    /// No record has the identifier asked for.
    NotFound,
    /// The booking was already resolved.
    Conflict,
    /// The input was refused; the message says why.
    BadRequest(String),
}

impl AppError {
    /// The HTTP status that reports this error.
    pub fn status_code(&self) -> (r: u16)
        ensures
            r == match self {
                AppError::Database(_) => 500u16,
                AppError::NotImplemented => 501u16,
                AppError::NotFound => 404u16,
                AppError::Conflict => 409u16,
                AppError::BadRequest(_) => 400u16,
            },
    {
        match self {
            AppError::Database(_) => 500,
            AppError::NotImplemented => 501,
            AppError::NotFound => 404,
            AppError::Conflict => 409,
            AppError::BadRequest(_) => 400,
        }
    }

    /// The message shown to the client: the input error verbatim, a fixed
    /// text otherwise, and never a store's detail.
    pub fn public_message(&self) -> (r: String)
        ensures
            r@ == match self {
                AppError::Database(_) => "Database error"@,
                AppError::NotImplemented => "Not implemented"@,
                AppError::NotFound => "Not found"@,
                AppError::Conflict => "booking already resolved"@,
                AppError::BadRequest(m) => m@,
            },
    {
        match self {
            AppError::Database(_) => String::from_str("Database error"),
            AppError::NotImplemented => String::from_str("Not implemented"),
            AppError::NotFound => String::from_str("Not found"),
            AppError::Conflict => String::from_str("booking already resolved"),
            AppError::BadRequest(m) => m.clone(),
        }
    }
}

} // verus!
