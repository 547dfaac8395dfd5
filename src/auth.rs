use vstd::prelude::*;

use crate::error::HubError;

verus! {

/// The string stored under `key` in the JSON object that `text` holds, if `text` parses as
/// JSON, is an object, and holds a string under that key.
pub uninterp spec fn json_string_member(text: Seq<char>, key: Seq<char>) -> Option<Seq<char>>;

/// Relies on serde_json::from_str (to a `Value`), `Value::get` and `Value::as_str`: the
/// string member named `key` of the parsed document, or `None`.
#[verifier::external_body]
fn string_member(text: &str, key: &str) -> (r: Option<String>)
    ensures
        match r {
            Some(s) => json_string_member(text@, key@) == Some(s@),
            None => json_string_member(text@, key@) is None,
        },
{
    serde_json::from_str::<serde_json::Value>(text).ok().and_then(
        |v| v.get(key).and_then(|m| m.as_str()).map(|s| s.to_string()),
    )
}

/// The authorization code out of the `code` member of the authorize response, or
/// [`HubError::CodeNotFound`].
pub fn code_from_member(member: Option<String>) -> (r: Result<String, HubError>)
    ensures
        member is Some ==> r == Ok::<String, HubError>(member->0),
        member is None ==> r matches Err(HubError::CodeNotFound),
{
    match member {
        Some(code) => Ok(code),
        None => Err(HubError::CodeNotFound),
    }
}

/// The access token out of the `access_token` member of the token response, or
/// [`HubError::TokenNotFound`].
pub fn token_from_member(member: Option<String>) -> (r: Result<String, HubError>)
    ensures
        member is Some ==> r == Ok::<String, HubError>(member->0),
        member is None ==> r matches Err(HubError::TokenNotFound),
{
    match member {
        Some(token) => Ok(token),
        None => Err(HubError::TokenNotFound),
    }
}

/// Reads the authorization code from the body of the hub's authorize response.
pub fn read_code(body: &str) -> (r: Result<String, HubError>)
    ensures
        match json_string_member(body@, "code"@) {
            Some(code) => r matches Ok(s) && s@ == code,
            None => r matches Err(HubError::CodeNotFound),
        },
{
    code_from_member(string_member(body, "code"))
}

/// Reads the access token from the body of the hub's token response.
pub fn read_token(body: &str) -> (r: Result<String, HubError>)
    ensures
        match json_string_member(body@, "access_token"@) {
            Some(token) => r matches Ok(s) && s@ == token,
            None => r matches Err(HubError::TokenNotFound),
        },
{
    token_from_member(string_member(body, "access_token"))
}

} // verus!
