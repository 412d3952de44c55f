use vstd::prelude::*;

use crate::text::joined;

verus! {

/// Why an API request failed.
#[derive(Clone, Debug, PartialEq, Eq)]
pub enum ApiError {
    /// The database refused or failed a statement; the text is its message.
    Database(String),
    /// A value could not be encoded or decoded; the text is the message.
    Serialization(String),
    /// The GitHub OAuth flow could not go on; the text says why.
    OAuth(String),
    /// The requested record does not exist.
    NotFound,
}

/// The HTTP status an error is answered with.
pub open spec fn status_of(error: ApiError) -> u16 {
    match error {
        ApiError::NotFound => 404,
        _ => 500,
    }
}

/// The text an error is reported with.
pub open spec fn message_of(error: ApiError) -> Seq<char> {
    match error {
        ApiError::Database(m) => "database error: "@ + m@,
        ApiError::Serialization(m) => "serialization error: "@ + m@,
        ApiError::OAuth(m) => "oauth error: "@ + m@,
        ApiError::NotFound => "not found"@,
    }
}

impl ApiError {
    /// The HTTP status of the error: 404 for a missing record, 500 otherwise.
    pub fn status_code(&self) -> (r: u16)
        ensures
            r == status_of(*self),
    {
        match self {
            ApiError::NotFound => 404,
            _ => 500,
        }
    }

    /// The text the error is reported with.
    pub fn message(&self) -> (r: String)
        ensures
            r@ == message_of(*self),
    {
        match self {
            ApiError::Database(m) => joined("database error: ", m.as_str()),
            ApiError::Serialization(m) => joined("serialization error: ", m.as_str()),
            ApiError::OAuth(m) => joined("oauth error: ", m.as_str()),
            ApiError::NotFound => String::from_str("not found"),
        }
    }
}

} // verus!
