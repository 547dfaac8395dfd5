use vstd::prelude::*;

use crate::mutation::Rejection;

verus! {

/// Declares reqwest's header error so that it can travel inside [`HubError`].
#[verifier::external_type_specification]
#[verifier::external_body]
pub struct ExInvalidHeaderValue(reqwest::header::InvalidHeaderValue);

/// Declares reqwest's transport error so that it can travel inside [`HubError`].
#[verifier::external_type_specification]
#[verifier::external_body]
pub struct ExReqwestError(reqwest::Error);

/// Declares url's parse error so that it can travel inside [`HubError`].
#[verifier::external_type_specification]
#[verifier::external_body]
pub struct ExUrlParseError(url::ParseError);

/// Declares std's UTF-8 decode error so that it can travel inside [`HubError`].
#[verifier::external_type_specification]
#[verifier::external_body]
pub struct ExFromUtf8Error(std::string::FromUtf8Error);

/// Every way a call into the hub can fail.
#[derive(Debug)]
pub enum HubError {
    /// The bearer token could not be encoded as a header value.
    HeaderError(reqwest::header::InvalidHeaderValue),
    /// The HTTP client could not be built, or the request or its decoding failed.
    BuildError(reqwest::Error),
    /// The token response held no `access_token`.
    TokenNotFound,
    Generic,
    Utf8ParseError(std::string::FromUtf8Error),
    UrlParseError(url::ParseError),
    /// The authorize response held no `code`.
    CodeNotFound,
    /// The operation was refused before anything was sent.
    Rejected(Rejection),
}

} // verus!
