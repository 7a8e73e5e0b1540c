use gmail_sender::error::GoogleApiError;
use gmail_sender::send_email::{bearer_header, read_send_response, send_email, SendPlan};
use gmail_sender::GmailClient;

fn client(mock: bool) -> GmailClient {
    GmailClient { send_from_email: "me@example.com".to_string(), token: "abc123".to_string(), mock_mode: mock }
}

#[test]
fn mock_send_prints_and_posts_nothing() {
    match client(true).send_email_blocking("a@b.com", "Hi", "<p>hello</p>") {
        SendPlan::Print(m) => {
            assert_eq!(m.from, "me@example.com");
            assert_eq!(m.to, "a@b.com");
            assert_eq!(m.subject, "Hi");
            assert_eq!(m.content, "<p>hello</p>");
        }
        other => panic!("mock mode must not post: {:?}", other),
    }
}

#[test]
fn real_send_posts_with_bearer_token() {
    match client(false).send_email_blocking("a@b.com", "Hi", "<p>hello</p>") {
        SendPlan::Post { message, authorization } => {
            assert_eq!(message.from, "me@example.com");
            assert_eq!(message.to, "a@b.com");
            assert_eq!(message.subject, "Hi");
            assert_eq!(message.content, "<p>hello</p>");
            assert_eq!(authorization, "Bearer abc123");
        }
        other => panic!("real mode must post: {:?}", other),
    }
}

#[test]
fn free_send_decision_matches_mode() {
    assert!(matches!(send_email("t@x.com", "s", "c", "tok", "f@x.com", true), SendPlan::Print(_)));
    assert!(matches!(send_email("t@x.com", "s", "c", "tok", "f@x.com", false), SendPlan::Post { .. }));
}

#[test]
fn bearer_header_text() {
    assert_eq!(bearer_header("tok-42"), "Bearer tok-42");
    assert_eq!(bearer_header(""), "Bearer ");
}

#[test]
fn send_response_json_is_success() {
    assert!(read_send_response("{\"id\":\"1\",\"labelIds\":[\"SENT\"]}").is_ok());
}

#[test]
fn send_response_not_json_keeps_raw_text() {
    match read_send_response("Internal error <b>oops</b>") {
        Err(GoogleApiError::EmailSendError(t)) => assert_eq!(t, "Internal error <b>oops</b>"),
        other => panic!("unexpected {:?}", other),
    }
}

#[test]
fn error_message_returns_payload() {
    let e = GoogleApiError::TransportError("timed out".to_string());
    assert_eq!(e.message(), "timed out");
    let e = GoogleApiError::EmailSendError("raw".to_string());
    assert_eq!(e.message(), "raw");
}
