//! The errors that the API answers with.
use vstd::prelude::*;

verus! {

/// An error answered to an API request.
#[derive(Debug)]
pub enum ApiError {
    /// Missing or invalid credentials.
    Unauthorized,
    /// Authenticated, but not allowed to do this.
    Forbidden,
    /// The addressed record does not exist.
    NotFound,
    /// The request itself is malformed; the text says why.
    BadRequest(String),
    /// The database failed; the text is its message.
    Database(String),
}

/// The HTTP status that answers each error.
pub open spec fn status_of(e: ApiError) -> u16 {
    match e {
        ApiError::Unauthorized => 401,
        ApiError::Forbidden => 403,
        ApiError::NotFound => 404,
        ApiError::BadRequest(_) => 400,
        ApiError::Database(_) => 500,
    }
}

impl ApiError {
    /// The HTTP status code of this error.
    pub fn status_code(&self) -> (code: u16)
        ensures
            code == status_of(*self),
    {
        match self {
            ApiError::Unauthorized => 401,
            ApiError::Forbidden => 403,
            ApiError::NotFound => 404,
            ApiError::BadRequest(_) => 400,
            ApiError::Database(_) => 500,
        }
    }
}

} // verus!
