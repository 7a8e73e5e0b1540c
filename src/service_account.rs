use vstd::prelude::*;

use crate::error::{GoogleApiError, Result};
use crate::json::{json_object_error, json_string_member, object_error, string_member};

verus! {

/// The fields of a service-account credential document that the
/// authentication flow needs.
#[derive(Debug, Clone)]
pub struct ServiceAccount {
    pub client_email: String,
    pub private_key: String,
    pub private_key_id: String,
    pub token_uri: String,
}

/// The value of member `key` of `doc` when it is a non-empty string.
pub open spec fn required_member(doc: Seq<char>, key: Seq<char>) -> Option<Seq<char>> {
    match json_string_member(doc, key) {
        Some(v) => if v.len() > 0 { Some(v) } else { None },
        None => None,
    }
}

/// Whether `doc` is a JSON object with all four required members present as
/// non-empty strings.
pub open spec fn is_credential_document(doc: Seq<char>) -> bool {
    &&& json_object_error(doc) is None
    &&& required_member(doc, "client_email"@) is Some
    &&& required_member(doc, "private_key"@) is Some
    &&& required_member(doc, "private_key_id"@) is Some
    &&& required_member(doc, "token_uri"@) is Some
}

/// The message of the error for a missing or empty member `key`.
pub open spec fn missing_member_message(key: Seq<char>) -> Seq<char> {
    "missing or empty field: "@ + key
}

/// The message with which reading `doc` fails: the JSON error, else the
/// first required member that is missing or empty.
pub open spec fn credential_error_message(doc: Seq<char>) -> Seq<char> {
    if json_object_error(doc) is Some {
        json_object_error(doc)->Some_0
    } else if required_member(doc, "client_email"@) is None {
        missing_member_message("client_email"@)
    } else if required_member(doc, "private_key"@) is None {
        missing_member_message("private_key"@)
    } else if required_member(doc, "private_key_id"@) is None {
        missing_member_message("private_key_id"@)
    } else {
        missing_member_message("token_uri"@)
    }
}

impl ServiceAccount {
    /// All four fields are non-empty.
    pub open spec fn wf(self) -> bool {
        &&& self.client_email@.len() > 0
        &&& self.private_key@.len() > 0
        &&& self.private_key_id@.len() > 0
        &&& self.token_uri@.len() > 0
    }

    /// Whether the fields are exactly the members of `doc`.
    pub open spec fn read_from(self, doc: Seq<char>) -> bool {
        &&& required_member(doc, "client_email"@) == Some(self.client_email@)
        &&& required_member(doc, "private_key"@) == Some(self.private_key@)
        &&& required_member(doc, "private_key_id"@) == Some(self.private_key_id@)
        &&& required_member(doc, "token_uri"@) == Some(self.token_uri@)
    }

    /// Parses a service-account credential document.
    pub fn load_from_str(service_account_json: &str) -> (r: Result<ServiceAccount>)
        ensures
            r is Ok <==> is_credential_document(service_account_json@),
            match r {
                Ok(sa) => sa.read_from(service_account_json@) && sa.wf(),
                Err(e) => e is CredentialParseError && e.payload()
                    == credential_error_message(service_account_json@),
            },
    {
        match object_error(service_account_json) {
            Some(msg) => {
                return Err(GoogleApiError::CredentialParseError(msg));
            },
            None => {},
        }
        let client_email = match required_field(service_account_json, "client_email") {
            Ok(v) => v,
            Err(e) => {
                return Err(e);
            },
        };
        let private_key = match required_field(service_account_json, "private_key") {
            Ok(v) => v,
            Err(e) => {
                return Err(e);
            },
        };
        let private_key_id = match required_field(service_account_json, "private_key_id") {
            Ok(v) => v,
            Err(e) => {
                return Err(e);
            },
        };
        let token_uri = match required_field(service_account_json, "token_uri") {
            Ok(v) => v,
            Err(e) => {
                return Err(e);
            },
        };
        Ok(ServiceAccount { client_email, private_key, private_key_id, token_uri })
    }
}

/// Reads member `key` of `doc`, which must be a non-empty string.
fn required_field(doc: &str, key: &str) -> (r: Result<String>)
    ensures
        match r {
            Ok(v) => required_member(doc@, key@) == Some(v@),
            Err(e) => required_member(doc@, key@) is None && e is CredentialParseError
                && e.payload() == missing_member_message(key@),
        },
{
    match string_member(doc, key) {
        Some(v) => {
            if !v.as_str().is_empty() {
                return Ok(v);
            }
        },
        None => {},
    }
    let mut msg = "missing or empty field: ".to_owned();
    proof {
        reveal_strlit("missing or empty field: ");
    }
    msg.append(key);
    Err(GoogleApiError::CredentialParseError(msg))
}

} // verus!
