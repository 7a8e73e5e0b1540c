use vstd::prelude::*;

use crate::error::{GoogleApiError, Result};
use crate::json::{json_string_member, string_member};

verus! {

/// The `grant_type` form parameter of a token request.
pub const JWT_BEARER_GRANT_TYPE: &'static str = "urn:ietf:params:oauth:grant-type:jwt-bearer";

/// Whether `status` is an HTTP success status.
pub open spec fn is_success_status(status: u16) -> bool {
    200 <= status && status < 300
}

/// The access token that a token endpoint's answer grants, if any.
pub open spec fn granted_token(status: u16, body: Seq<char>) -> Option<Seq<char>> {
    if is_success_status(status) {
        json_string_member(body, "access_token"@)
    } else {
        None
    }
}

/// Reads the token endpoint's answer: its HTTP status and its body.
///
/// A success status with a JSON object whose `access_token` member is a
/// string gives that string; anything else fails with the body verbatim.
pub fn read_token_response(status: u16, body: &str) -> (r: Result<String>)
    ensures
        match r {
            Ok(token) => granted_token(status, body@) == Some(token@),
            Err(e) => granted_token(status, body@) is None && e is TokenExchangeError
                && e.payload() == body@,
        },
{
    if 200 <= status && status < 300 {
        match string_member(body, "access_token") {
            Some(token) => {
                return Ok(token);
            },
            None => {},
        }
    }
    Err(GoogleApiError::TokenExchangeError(body.to_owned()))
}

} // verus!
