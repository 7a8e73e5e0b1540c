use vstd::prelude::*;
use vstd::utf8::encode_utf8;

use crate::error::{GoogleApiError, Result};
use crate::json::{json_quoted, quote};
use crate::service_account::ServiceAccount;

use base64::Engine;
use rsa::pkcs8::DecodePrivateKey;
use rsa::signature::{SignatureEncoding, Signer};

verus! {

/// Seconds between the `iat` and the `exp` claim of every assertion.
pub const TOKEN_LIFETIME_SECS: u64 = 3600;

/// The OAuth2 scope that allows sending mail.
pub const GMAIL_SEND_SCOPE: &'static str = "https://www.googleapis.com/auth/gmail.send";

/// The JOSE header of every assertion.
pub const JWT_HEADER: &'static str = "{\"alg\":\"RS256\",\"typ\":\"JWT\"}";

/// The URL-safe base64 text of `bytes`, without padding, as the base64
/// crate writes it.
pub uninterp spec fn base64url_of(bytes: Seq<u8>) -> Seq<char>;

/// The RSASSA-PKCS1-v1_5 SHA-256 signature of `msg` under the PKCS#8 PEM key
/// `pem`, or `None` when `pem` holds no usable RSA key.
pub uninterp spec fn rs256_signature(pem: Seq<char>, msg: Seq<u8>) -> Option<Seq<u8>>;

/// The characters of the URL-safe base64 alphabet.
pub open spec fn is_base64url_char(c: char) -> bool {
    ('A' <= c && c <= 'Z') || ('a' <= c && c <= 'z') || ('0' <= c && c <= '9') || c == '-'
        || c == '_'
}

/// Relies on base64's URL_SAFE_NO_PAD engine, Engine::encode: the encoding
/// uses the URL-safe alphabet and writes no padding.
#[verifier::external_body]
fn base64url(bytes: &[u8]) -> (r: String)
    ensures
        r@ == base64url_of(bytes@),
        forall|i: int| 0 <= i < r@.len() ==> is_base64url_char(#[trigger] r@[i]),
{
    base64::engine::general_purpose::URL_SAFE_NO_PAD.encode(bytes)
}

/// Relies on rsa's RsaPrivateKey::from_pkcs8_pem, pkcs1v15::SigningKey<Sha256>
/// and Signer::try_sign: a deterministic RS256 signature, or `None` when the key
/// does not parse or cannot sign.
#[verifier::external_body]
fn sign_rs256(pem: &str, msg: &[u8]) -> (r: Option<Vec<u8>>)
    ensures
        match r {
            Some(sig) => rs256_signature(pem@, msg@) == Some(sig@),
            None => rs256_signature(pem@, msg@) is None,
        },
{
    match rsa::RsaPrivateKey::from_pkcs8_pem(pem) {
        Ok(key) => match rsa::pkcs1v15::SigningKey::<rsa::sha2::Sha256>::new(key).try_sign(msg) {
            Ok(sig) => Some(sig.to_vec()),
            Err(_) => None,
        },
        Err(_) => None,
    }
}

/// The decimal digit for `d`.
pub open spec fn digit_char(d: nat) -> char {
    if d == 0 { '0' } else if d == 1 { '1' } else if d == 2 { '2' } else if d == 3 { '3' }
    else if d == 4 { '4' } else if d == 5 { '5' } else if d == 6 { '6' } else if d == 7 { '7' }
    else if d == 8 { '8' } else { '9' }
}

/// The decimal text of `n`, without leading zeros.
pub open spec fn decimal(n: nat) -> Seq<char>
    decreases n,
{
    if n < 10 {
        seq![digit_char(n)]
    } else {
        decimal(n / 10) + seq![digit_char(n % 10)]
    }
}

fn digit_str(d: u64) -> (r: &'static str)
    requires
        d < 10,
    ensures
        r@ == seq![digit_char(d as nat)],
{
    proof {
        reveal_strlit("0");
        reveal_strlit("1");
        reveal_strlit("2");
        reveal_strlit("3");
        reveal_strlit("4");
        reveal_strlit("5");
        reveal_strlit("6");
        reveal_strlit("7");
        reveal_strlit("8");
        reveal_strlit("9");
    }
    let r = if d == 0 { "0" } else if d == 1 { "1" } else if d == 2 { "2" } else if d == 3 { "3" }
    else if d == 4 { "4" } else if d == 5 { "5" } else if d == 6 { "6" } else if d == 7 { "7" }
    else if d == 8 { "8" } else { "9" };
    assert(r@ =~= seq![digit_char(d as nat)]);
    r
}

/// Writes `n` in decimal.
pub fn decimal_string(n: u64) -> (r: String)
    ensures
        r@ == decimal(n as nat),
    decreases n,
{
    if n < 10 {
        digit_str(n).to_owned()
    } else {
        let mut s = decimal_string(n / 10);
        s.append(digit_str(n % 10));
        s
    }
}

/// The claim set of an assertion.
#[derive(Debug, Clone)]
pub struct JwtClaims {
    pub iss: String,
    pub sub: String,
    pub scope: String,
    pub aud: String,
    pub iat: u64,
    pub exp: u64,
}

/// The JSON text of a claim set.
pub open spec fn claims_json(
    iss: Seq<char>,
    sub: Seq<char>,
    scope: Seq<char>,
    aud: Seq<char>,
    iat: nat,
    exp: nat,
) -> Seq<char> {
    "{\"iss\":"@ + json_quoted(iss) + ",\"sub\":"@ + json_quoted(sub) + ",\"scope\":"@
        + json_quoted(scope) + ",\"aud\":"@ + json_quoted(aud) + ",\"iat\":"@ + decimal(iat)
        + ",\"exp\":"@ + decimal(exp) + "}"@
}

impl JwtClaims {
    /// The claims that let `credential` act as `impersonated_email`, issued at `now`.
    pub fn new(credential: &ServiceAccount, impersonated_email: &str, now: u64) -> (r: JwtClaims)
        requires
            now <= u64::MAX - TOKEN_LIFETIME_SECS,
        ensures
            r.iss@ == credential.client_email@,
            r.sub@ == impersonated_email@,
            r.scope@ == GMAIL_SEND_SCOPE@,
            r.aud@ == credential.token_uri@,
            r.iat == now,
            r.exp == now + TOKEN_LIFETIME_SECS,
    {
        JwtClaims {
            iss: credential.client_email.clone(),
            sub: impersonated_email.to_owned(),
            scope: GMAIL_SEND_SCOPE.to_owned(),
            aud: credential.token_uri.clone(),
            iat: now,
            exp: now + TOKEN_LIFETIME_SECS,
        }
    }

    /// The JSON text of these claims.
    pub open spec fn json(self) -> Seq<char> {
        claims_json(self.iss@, self.sub@, self.scope@, self.aud@, self.iat as nat, self.exp as nat)
    }

    /// Writes these claims as JSON.
    pub fn to_json(&self) -> (r: String)
        ensures
            r@ == self.json(),
    {
        let mut s = "{\"iss\":".to_owned();
        s.append(quote(self.iss.as_str()).as_str());
        s.append(",\"sub\":");
        s.append(quote(self.sub.as_str()).as_str());
        s.append(",\"scope\":");
        s.append(quote(self.scope.as_str()).as_str());
        s.append(",\"aud\":");
        s.append(quote(self.aud.as_str()).as_str());
        s.append(",\"iat\":");
        s.append(decimal_string(self.iat).as_str());
        s.append(",\"exp\":");
        s.append(decimal_string(self.exp).as_str());
        s.append("}");
        s
    }
}

/// The claims of the assertion for `credential`, `sub` and `now`.
pub open spec fn assertion_claims_json(
    credential: ServiceAccount,
    sub: Seq<char>,
    now: nat,
) -> Seq<char> {
    claims_json(
        credential.client_email@,
        sub,
        GMAIL_SEND_SCOPE@,
        credential.token_uri@,
        now,
        now + TOKEN_LIFETIME_SECS as nat,
    )
}

/// The signed part of an assertion: encoded header, a dot, encoded claims.
pub open spec fn signing_input(claims: Seq<char>) -> Seq<char> {
    base64url_of(encode_utf8(JWT_HEADER@)) + "."@ + base64url_of(encode_utf8(claims))
}

/// The compact assertion for `credential`, `sub` and `now`, or `None` when
/// the credential's key cannot sign.
pub open spec fn assertion(credential: ServiceAccount, sub: Seq<char>, now: nat) -> Option<
    Seq<char>,
> {
    let input = signing_input(assertion_claims_json(credential, sub, now));
    match rs256_signature(credential.private_key@, encode_utf8(input)) {
        Some(sig) => Some(input + "."@ + base64url_of(sig)),
        None => None,
    }
}

/// The message of the error when the key cannot sign.
pub open spec fn signing_error_message() -> Seq<char> {
    "private key cannot produce an RS256 signature"@
}

/// Whether every character of `s` is in the URL-safe base64 alphabet, which
/// has no padding character.
pub open spec fn is_base64url_text(s: Seq<char>) -> bool {
    forall|i: int| 0 <= i < s.len() ==> is_base64url_char(#[trigger] s[i])
}

/// Whether `jwt` is three URL-safe base64 segments joined by dots: the
/// encoded header, the encoded `claims` and a signature.
pub open spec fn compact_segments(jwt: Seq<char>, claims: Seq<char>) -> bool {
    exists|sig: Seq<char>|
        #![trigger is_base64url_text(sig)]
        {
            &&& is_base64url_text(base64url_of(encode_utf8(JWT_HEADER@)))
            &&& is_base64url_text(base64url_of(encode_utf8(claims)))
            &&& is_base64url_text(sig)
            &&& jwt == signing_input(claims) + "."@ + sig
        }
}

/// What [`build_assertion`] gives for `credential`, `sub` and `now`.
pub open spec fn assertion_outcome(
    credential: ServiceAccount,
    sub: Seq<char>,
    now: nat,
    r: Result<String>,
) -> bool {
    match r {
        Ok(jwt) => assertion(credential, sub, now) == Some(jwt@) && compact_segments(
            jwt@,
            assertion_claims_json(credential, sub, now),
        ),
        Err(e) => assertion(credential, sub, now) is None && e is SigningError && e.payload()
            == signing_error_message(),
    }
}

/// Builds and signs the JWT bearer assertion with which `credential` asks
/// for a token to send mail as `impersonated_email`, issued at `now`
/// (seconds since the Unix epoch).
pub fn build_assertion(credential: &ServiceAccount, impersonated_email: &str, now: u64) -> (r:
    Result<String>)
    requires
        now <= u64::MAX - TOKEN_LIFETIME_SECS,
    ensures
        assertion_outcome(*credential, impersonated_email@, now as nat, r),
{
    let claims = JwtClaims::new(credential, impersonated_email, now);
    let claims_text = claims.to_json();
    let header_part = base64url(JWT_HEADER.as_bytes());
    let claims_part = base64url(claims_text.as_str().as_bytes());
    let mut input = header_part.clone();
    input.append(".");
    input.append(claims_part.as_str());
    match sign_rs256(credential.private_key.as_str(), input.as_str().as_bytes()) {
        Some(sig) => {
            let mut jwt = input;
            jwt.append(".");
            let sig_part = base64url(sig.as_slice());
            jwt.append(sig_part.as_str());
            proof {
                assert(is_base64url_text(sig_part@));
                assert(is_base64url_text(header_part@));
                assert(is_base64url_text(claims_part@));
            }
            Ok(jwt)
        },
        None => Err(
            GoogleApiError::SigningError("private key cannot produce an RS256 signature".to_owned()),
        ),
    }
}

} // verus!
