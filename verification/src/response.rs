//! The token endpoint's JSON response, and what the caller reads from it.

use vstd::prelude::*;
use crate::errors::TokenError;

verus! {

/// The string value of a named field of a JSON object: a function of the
/// body text and the field name alone; `None` where the body is not a JSON
/// object, or the field is missing or not a string.
pub uninterp spec fn string_field_of(body: Seq<char>, field: Seq<char>) -> Option<Seq<char>>;

/// Relies on serde_json's `from_str`, `Value::get` and `Value::as_str`:
/// whether the body parses as a JSON object carrying a string field of the
/// given name, and that field's value, are functions of the two inputs
/// alone.
#[verifier::external_body]
fn extract_string_field(body: &str, field: &str) -> (r: Option<String>)
    ensures
        r matches Some(t) ==> string_field_of(body@, field@) matches Some(s) && t@ == s,
        r is None ==> string_field_of(body@, field@) is None,
{
    match serde_json::from_str::<serde_json::Value>(body) {
        Ok(v) => match v.get(field) {
            Some(f) => f.as_str().map(|s| s.to_owned()),
            None => None,
        },
        Err(_) => None,
    }
}

/// The one field of the identity provider's response that the caller needs.
pub struct AccessTokenResponse {
    pub access_token: String,
}

/// Reads the identity provider's response. A status outside 2xx is an
/// authorization failure; a 2xx body must be a JSON object with an
/// `access_token` string field, and anything else is a protocol error — a
/// missing field never passes as an empty token.
pub fn parse_token_response(status: u16, body: &str) -> (r: Result<AccessTokenResponse, TokenError>)
    ensures
        !(200 <= status < 300) ==> r == Err::<AccessTokenResponse, TokenError>(
            TokenError::AuthorizationError,
        ),
        200 <= status < 300 ==> match string_field_of(body@, "access_token"@) {
            Some(t) => r matches Ok(resp) && resp.access_token@ == t,
            None => r == Err::<AccessTokenResponse, TokenError>(TokenError::ProtocolError),
        },
{
    if status < 200 || status >= 300 {
        return Err(TokenError::AuthorizationError);
    }
    match extract_string_field(body, "access_token") {
        Some(t) => Ok(AccessTokenResponse { access_token: t }),
        None => Err(TokenError::ProtocolError),
    }
}

} // verus!
