use reqwest::Error as HttpError;
use serde_json::Error as JsonError;
use vstd::prelude::*;

verus! {

/// serde_json's decode failure, carried in a deserialization error.
#[verifier::external_type_specification]
#[verifier::external_body]
pub struct ExJsonError(JsonError);

/// reqwest's transport failure, carried in `Error::Http`.
#[verifier::external_type_specification]
#[verifier::external_body]
pub struct ExReqwestError(HttpError);

/// reqwest's rejection of a header value, carried in `Error::Header`.
#[verifier::external_type_specification]
#[verifier::external_body]
pub struct ExInvalidHeaderValue(reqwest::header::InvalidHeaderValue);

/// reqwest's rejection of a header name, carried in `Error::HeaderName`.
#[verifier::external_type_specification]
#[verifier::external_body]
pub struct ExInvalidHeaderName(reqwest::header::InvalidHeaderName);

} // verus!
