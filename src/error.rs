use vstd::prelude::*;

verus! {

/// The ways in which building a client or sending an email can fail.
#[derive(Debug, Clone)]
pub enum GoogleApiError {
    /// The service-account document is malformed or lacks a required field.
    CredentialParseError(String),
    /// The private key could not produce an RS256 signature.
    SigningError(String),
    /// The request did not complete (connection failure, timeout, ...).
    TransportError(String),
    /// The token endpoint answered with an error status or an unusable body,
    /// which is carried verbatim.
    TokenExchangeError(String),
    /// The email endpoint answered with a body that is not a send response,
    /// which is carried verbatim.
    EmailSendError(String),
}

/// Result type of the library.
pub type Result<T> = core::result::Result<T, GoogleApiError>;

impl GoogleApiError {
    /// The text carried by the error.
    pub open spec fn payload(self) -> Seq<char> {
        match self {
            GoogleApiError::CredentialParseError(s) => s@,
            GoogleApiError::SigningError(s) => s@,
            GoogleApiError::TransportError(s) => s@,
            GoogleApiError::TokenExchangeError(s) => s@,
            GoogleApiError::EmailSendError(s) => s@,
        }
    }

    /// The text carried by the error.
    pub fn message(&self) -> (r: String)
        ensures
            r@ == self.payload(),
    {
        match self {
            GoogleApiError::CredentialParseError(s) => s.clone(),
            GoogleApiError::SigningError(s) => s.clone(),
            GoogleApiError::TransportError(s) => s.clone(),
            GoogleApiError::TokenExchangeError(s) => s.clone(),
            GoogleApiError::EmailSendError(s) => s.clone(),
        }
    }
}

} // verus!
