use crate::client::DatabaseError;
use vstd::prelude::*;

verus! {

/// The ways a call can fail, told apart by variant.
#[derive(Debug)]
pub enum Error {
    /// The server rejected the statement.
    Database(DatabaseError),
    /// The HTTP exchange did not complete.
    Http(reqwest::Error),
    /// A credential is not a valid header value.
    Header(reqwest::header::InvalidHeaderValue),
    /// A header name is invalid.
    HeaderName(reqwest::header::InvalidHeaderName),
    /// A required configuration variable, by name, is absent or unreadable.
    Env(String),
    /// The response body does not decode into the requested rows.
    DeserializeError(String),
}

} // verus!
