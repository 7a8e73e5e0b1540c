//! Properties that relate several calls of the library, proved over its contracts.
use vstd::prelude::*;

use crate::error::Result;
use crate::jwt::{
    assertion_claims_json, assertion_outcome, base64url_of, claims_json, is_base64url_char,
    is_base64url_text, signing_input,
    GMAIL_SEND_SCOPE, JWT_HEADER, TOKEN_LIFETIME_SECS,
};
use vstd::utf8::encode_utf8;
use crate::service_account::ServiceAccount;

verus! {

/// Building the assertion twice from the same credential, sender and clock
/// reading gives the same outcome, and on success the same text.
pub proof fn lemma_assertion_deterministic(
    credential: ServiceAccount,
    sub: Seq<char>,
    now: nat,
    first: Result<String>,
    second: Result<String>,
)
    requires
        assertion_outcome(credential, sub, now, first),
        assertion_outcome(credential, sub, now, second),
    ensures
        first is Ok <==> second is Ok,
        (first is Ok && second is Ok) ==> first->Ok_0@ == second->Ok_0@,
        (first is Err && second is Err) ==> first->Err_0.payload() == second->Err_0.payload(),
{
}

/// The claims signed into every assertion are issued at `now` and expire
/// exactly the token lifetime later, whatever `now` is.
pub proof fn lemma_assertion_lifetime(credential: ServiceAccount, sub: Seq<char>, now: nat)
    ensures
        exists|iat: nat, exp: nat|
            #![trigger claims_json(
                credential.client_email@,
                sub,
                GMAIL_SEND_SCOPE@,
                credential.token_uri@,
                iat,
                exp,
            )]
            {
                &&& assertion_claims_json(credential, sub, now) == claims_json(
                    credential.client_email@,
                    sub,
                    GMAIL_SEND_SCOPE@,
                    credential.token_uri@,
                    iat,
                    exp,
                )
                &&& iat == now
                &&& exp - iat == TOKEN_LIFETIME_SECS
            },
{
    let exp = now + TOKEN_LIFETIME_SECS as nat;
    assert(assertion_claims_json(credential, sub, now) == claims_json(
        credential.client_email@,
        sub,
        GMAIL_SEND_SCOPE@,
        credential.token_uri@,
        now,
        exp,
    ));
}

/// A built assertion is the base64url encodings of the header and of the
/// claims and a base64url signature, joined by dots; no segment holds a
/// padding character or a dot.
pub proof fn lemma_assertion_segments(
    credential: ServiceAccount,
    sub: Seq<char>,
    now: nat,
    built: Result<String>,
)
    requires
        assertion_outcome(credential, sub, now, built),
        built is Ok,
    ensures
        exists|sig: Seq<char>|
            #![trigger is_base64url_text(sig)]
            {
                let header = base64url_of(encode_utf8(JWT_HEADER@));
                let claims = base64url_of(encode_utf8(assertion_claims_json(credential, sub, now)));
                &&& built->Ok_0@ == header + "."@ + claims + "."@ + sig
                &&& is_base64url_text(header) && is_base64url_text(claims)
                    && is_base64url_text(sig)
                &&& forall|i: int| 0 <= i < sig.len() ==> sig[i] != '=' && sig[i] != '.'
                &&& forall|i: int| 0 <= i < header.len() ==> header[i] != '=' && header[i] != '.'
                &&& forall|i: int| 0 <= i < claims.len() ==> claims[i] != '=' && claims[i] != '.'
            },
{
    let claims = assertion_claims_json(credential, sub, now);
    let sig = choose|sig: Seq<char>|
        #![trigger is_base64url_text(sig)]
        {
            &&& is_base64url_text(base64url_of(encode_utf8(JWT_HEADER@)))
            &&& is_base64url_text(base64url_of(encode_utf8(claims)))
            &&& is_base64url_text(sig)
            &&& built->Ok_0@ == signing_input(claims) + "."@ + sig
        };
    let header = base64url_of(encode_utf8(JWT_HEADER@));
    let claims_text = base64url_of(encode_utf8(claims));
    assert forall|i: int| 0 <= i < sig.len() implies sig[i] != '=' && sig[i] != '.' by {
        assert(is_base64url_char(sig[i]));
    }
    assert forall|i: int| 0 <= i < header.len() implies header[i] != '=' && header[i] != '.' by {
        assert(is_base64url_char(header[i]));
    }
    assert forall|i: int| 0 <= i < claims_text.len() implies claims_text[i] != '='
        && claims_text[i] != '.' by {
        assert(is_base64url_char(claims_text[i]));
    }
    assert(is_base64url_text(sig));
}

} // verus!
