//! A client that sends email through the Gmail API as a Google Workspace
//! user, authenticated with a service account.
use vstd::prelude::*;

/// Types for error handling.
pub mod error;
pub mod json;
pub mod jwt;
pub mod laws;
pub mod send_email;
pub mod service_account;
pub mod token;

use crate::error::Result;
use crate::jwt::{assertion, build_assertion, TOKEN_LIFETIME_SECS};
use crate::send_email::{bearer, SendPlan};
use crate::service_account::{
    credential_error_message, is_credential_document, ServiceAccount,
};
use crate::token::{granted_token, read_token_response};

verus! {

/// The intended way of creating a [`GmailClient`].
#[derive(Debug, Clone)]
pub struct GmailClientBuilder {
    pub service_account: ServiceAccount,
    pub send_from_email: String,
    pub mock_mode: bool,
}

/// What a client sends to the token endpoint: the endpoint and the signed
/// assertion.
#[derive(Debug, Clone)]
pub struct TokenRequest {
    pub token_uri: String,
    pub assertion: String,
}

impl GmailClientBuilder {
    /// Creates a builder from a service-account document and the address
    /// that emails are sent from; mock mode is off.
    pub fn new(service_account_json: &str, send_from_email: &str) -> (r: Result<Self>)
        ensures
            r is Ok <==> is_credential_document(service_account_json@),
            match r {
                Ok(b) => b.service_account.read_from(service_account_json@) && b.send_from_email@
                    == send_from_email@ && !b.mock_mode,
                Err(e) => e is CredentialParseError && e.payload() == credential_error_message(
                    service_account_json@,
                ),
            },
    {
        match ServiceAccount::load_from_str(service_account_json) {
            Ok(service_account) => Ok(
                GmailClientBuilder {
                    service_account,
                    send_from_email: send_from_email.to_owned(),
                    mock_mode: false,
                },
            ),
            Err(e) => Err(e),
        }
    }

    /// Sets mock mode: when enabled, emails are printed instead of sent.
    pub fn mock_mode(self, enabled: bool) -> (r: Self)
        ensures
            r.mock_mode == enabled,
            r.service_account == self.service_account,
            r.send_from_email == self.send_from_email,
    {
        let mut b = self;
        b.mock_mode = enabled;
        b
    }

    /// The request that asks for an access token at `now` (seconds since the
    /// Unix epoch): the credential's token endpoint and a fresh assertion.
    pub fn token_request(&self, now: u64) -> (r: Result<TokenRequest>)
        requires
            now <= u64::MAX - TOKEN_LIFETIME_SECS,
        ensures
            match r {
                Ok(req) => req.token_uri@ == self.service_account.token_uri@ && assertion(
                    self.service_account,
                    self.send_from_email@,
                    now as nat,
                ) == Some(req.assertion@),
                Err(e) => assertion(self.service_account, self.send_from_email@, now as nat) is None
                    && e is SigningError,
            },
    {
        match build_assertion(&self.service_account, self.send_from_email.as_str(), now) {
            Ok(jwt) => Ok(
                TokenRequest { token_uri: self.service_account.token_uri.clone(), assertion: jwt },
            ),
            Err(e) => Err(e),
        }
    }

    /// Builds a [`GmailClient`] from the token endpoint's answer to
    /// [`Self::token_request`]: its HTTP status and its body.
    pub fn build_blocking(self, status: u16, body: &str) -> (r: Result<GmailClient>)
        ensures
            match r {
                Ok(c) => granted_token(status, body@) == Some(c.token@) && c.send_from_email
                    == self.send_from_email && c.mock_mode == self.mock_mode,
                Err(e) => granted_token(status, body@) is None && e is TokenExchangeError
                    && e.payload() == body@,
            },
    {
        match read_token_response(status, body) {
            Ok(token) => Ok(
                GmailClient { send_from_email: self.send_from_email, token, mock_mode: self.mock_mode },
            ),
            Err(e) => Err(e),
        }
    }
}

/// A client ready to send emails through the Gmail API.
#[derive(Debug, Clone)]
pub struct GmailClient {
    pub send_from_email: String,
    pub token: String,
    pub mock_mode: bool,
}

impl GmailClient {
    /// Alias for [`GmailClientBuilder::new`].
    pub fn builder(service_account_json: &str, send_from_email: &str) -> (r: Result<
        GmailClientBuilder,
    >)
        ensures
            r is Ok <==> is_credential_document(service_account_json@),
            match r {
                Ok(b) => b.service_account.read_from(service_account_json@) && b.send_from_email@
                    == send_from_email@ && !b.mock_mode,
                Err(e) => e is CredentialParseError && e.payload() == credential_error_message(
                    service_account_json@,
                ),
            },
    {
        GmailClientBuilder::new(service_account_json, send_from_email)
    }

    /// How an email to `send_to_email` with `subject` and `content` is sent:
    /// printed in mock mode, else posted with this client's token.
    pub fn send_email_blocking(&self, send_to_email: &str, subject: &str, content: &str) -> (r:
        SendPlan)
        ensures
            self.mock_mode <==> r is Print,
            match r {
                SendPlan::Print(m) => m.holds(
                    self.send_from_email@,
                    send_to_email@,
                    subject@,
                    content@,
                ),
                SendPlan::Post { message, authorization } => message.holds(
                    self.send_from_email@,
                    send_to_email@,
                    subject@,
                    content@,
                ) && authorization@ == bearer(self.token@),
            },
    {
        crate::send_email::send_email(
            send_to_email,
            subject,
            content,
            self.token.as_str(),
            self.send_from_email.as_str(),
            self.mock_mode,
        )
    }
}

} // verus!
