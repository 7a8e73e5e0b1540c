use vstd::prelude::*;

use crate::error::{GoogleApiError, Result};
use crate::json::{is_json, json_value_ok};

verus! {

/// An email as it is handed to the send endpoint.
#[derive(Debug, Clone)]
pub struct EmailMessage {
    pub from: String,
    pub to: String,
    pub subject: String,
    pub content: String,
}

/// What sending an email comes down to.
#[derive(Debug, Clone)]
pub enum SendPlan {
    /// Mock mode: the message is printed, nothing goes over the network, and
    /// the send succeeds.
    Print(EmailMessage),
    /// The message is posted with `authorization` as the Authorization header.
    Post { message: EmailMessage, authorization: String },
}

/// The Authorization header value that carries `token`.
pub open spec fn bearer(token: Seq<char>) -> Seq<char> {
    "Bearer "@ + token
}

/// Writes the Authorization header value that carries `token`.
pub fn bearer_header(token: &str) -> (r: String)
    ensures
        r@ == bearer(token@),
{
    let mut r = "Bearer ".to_owned();
    r.append(token);
    r
}

impl EmailMessage {
    /// Whether the fields are the given texts.
    pub open spec fn holds(
        self,
        from: Seq<char>,
        to: Seq<char>,
        subject: Seq<char>,
        content: Seq<char>,
    ) -> bool {
        self.from@ == from && self.to@ == to && self.subject@ == subject && self.content@
            == content
    }
}

/// Decides how an email from `send_from_email` to `receiver_email` is sent:
/// printed in mock mode, else posted with `token` as bearer token.
pub fn send_email(
    receiver_email: &str,
    subject: &str,
    content: &str,
    token: &str,
    send_from_email: &str,
    mock_mode: bool,
) -> (r: SendPlan)
    ensures
        mock_mode <==> r is Print,
        match r {
            SendPlan::Print(m) => m.holds(send_from_email@, receiver_email@, subject@, content@),
            SendPlan::Post { message, authorization } => message.holds(
                send_from_email@,
                receiver_email@,
                subject@,
                content@,
            ) && authorization@ == bearer(token@),
        },
{
    let message = EmailMessage {
        from: send_from_email.to_owned(),
        to: receiver_email.to_owned(),
        subject: subject.to_owned(),
        content: content.to_owned(),
    };
    if mock_mode {
        SendPlan::Print(message)
    } else {
        SendPlan::Post { message, authorization: bearer_header(token) }
    }
}

/// Reads the send endpoint's answer: it must be JSON, else the send fails
/// with the body verbatim.
pub fn read_send_response(body: &str) -> (r: Result<()>)
    ensures
        r is Ok <==> json_value_ok(body@),
        match r {
            Ok(_) => true,
            Err(e) => e is EmailSendError && e.payload() == body@,
        },
{
    if is_json(body) {
        Ok(())
    } else {
        Err(GoogleApiError::EmailSendError(body.to_owned()))
    }
}

} // verus!
