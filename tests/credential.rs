use rsa::pkcs8::EncodePrivateKey;
use gmail_sender::error::GoogleApiError;
use gmail_sender::service_account::ServiceAccount;
use gmail_sender::{GmailClient, GmailClientBuilder};

/// A small RSA key, assembled from its numbers, written as PKCS#8 PEM.
fn test_key_pem() -> String {
    let num = |hex: &str| rsa::BigUint::parse_bytes(hex.as_bytes(), 16).unwrap();
    let key = rsa::RsaPrivateKey::from_components(
        num("cd576fe341e3cca5eb7072ac5a73a32791c75d6ed8041039946b86214aa5e7f1dfeb42672b9b26bf08094796846ce3da1b258b1be258350bdf7a3bb80ad82bcb"),
        num("10001"),
        num("c62f6ef103462eddb0e81df5957368742772290e73753087b26538d6e6ea4b7a5fccb80ae505eaf692535aa27e2c90883a096721b0cea08d3c8b621b09802899"),
        vec![
            num("e813c692ed92aa7927c82c9217b15026ba04e29e10e7eb0c0990a148d6f7148f"),
            num("e28223e57265a726c69d885150a0e2f8841e1137aae647e322e058373f436b05"),
        ],
    )
    .unwrap();
    key.to_pkcs8_pem(rsa::pkcs8::LineEnding::LF).unwrap().to_string()
}

fn credential_json(client_email: &str, token_uri: &str) -> String {
    let escaped_key = test_key_pem().replace('\n', "\\n");
    format!(
        "{{\"type\":\"service_account\",\"project_id\":\"demo\",\"private_key_id\":\"key-1\",\"private_key\":\"{}\",\"client_email\":\"{}\",\"token_uri\":\"{}\"}}",
        escaped_key, client_email, token_uri
    )
}

fn parse_message(doc: &str) -> String {
    match ServiceAccount::load_from_str(doc) {
        Err(GoogleApiError::CredentialParseError(m)) => m,
        other => panic!("expected a credential parse error, got {:?}", other),
    }
}

#[test]
fn load_returns_the_four_fields() {
    let doc = credential_json("sender@demo.iam.gserviceaccount.com", "https://oauth2.googleapis.com/token");
    let sa = ServiceAccount::load_from_str(&doc).unwrap();
    assert_eq!(sa.client_email, "sender@demo.iam.gserviceaccount.com");
    assert_eq!(sa.private_key, test_key_pem());
    assert_eq!(sa.private_key_id, "key-1");
    assert_eq!(sa.token_uri, "https://oauth2.googleapis.com/token");
}

#[test]
fn load_unescapes_json_strings() {
    let doc = r#"{"client_email":"a@b.com","private_key":"line1\nline2","private_key_id":"id\"q","token_uri":"https:\/\/t"}"#;
    let sa = ServiceAccount::load_from_str(doc).unwrap();
    assert_eq!(sa.client_email, "a@b.com");
    assert_eq!(sa.private_key, "line1\nline2");
    assert_eq!(sa.private_key_id, "id\"q");
    assert_eq!(sa.token_uri, "https://t");
}

#[test]
fn load_rejects_each_missing_field() {
    let full = [
        ("client_email", "a@b.com"),
        ("private_key", "k"),
        ("private_key_id", "i"),
        ("token_uri", "https://t"),
    ];
    for skip in 0..full.len() {
        let members: Vec<String> = full
            .iter()
            .enumerate()
            .filter(|(i, _)| *i != skip)
            .map(|(_, (k, v))| format!("\"{}\":\"{}\"", k, v))
            .collect();
        let doc = format!("{{{}}}", members.join(","));
        assert_eq!(parse_message(&doc), format!("missing or empty field: {}", full[skip].0));
    }
}

#[test]
fn load_rejects_empty_field() {
    let doc = r#"{"client_email":"a@b.com","private_key":"","private_key_id":"i","token_uri":"https://t"}"#;
    assert_eq!(parse_message(doc), "missing or empty field: private_key");
}

#[test]
fn load_rejects_non_string_field() {
    let doc = r#"{"client_email":"a@b.com","private_key":"k","private_key_id":7,"token_uri":"https://t"}"#;
    assert_eq!(parse_message(doc), "missing or empty field: private_key_id");
}

#[test]
fn load_rejects_malformed_json() {
    let msg = parse_message("{\"client_email\": ");
    assert!(!msg.is_empty());
    assert!(!msg.starts_with("missing or empty field"));
    let msg = parse_message("[1, 2]");
    assert!(!msg.starts_with("missing or empty field"));
}

#[test]
fn builder_starts_without_mock_mode() {
    let doc = credential_json("svc@demo.iam.gserviceaccount.com", "https://oauth2.googleapis.com/token");
    let b = GmailClientBuilder::new(&doc, "me@example.com").unwrap();
    assert!(!b.mock_mode);
    assert_eq!(b.send_from_email, "me@example.com");
    assert_eq!(b.service_account.client_email, "svc@demo.iam.gserviceaccount.com");
    let b = b.mock_mode(true);
    assert!(b.mock_mode);
    assert_eq!(b.send_from_email, "me@example.com");
    let b = b.mock_mode(false);
    assert!(!b.mock_mode);
}

#[test]
fn builder_alias_parses_the_same() {
    let doc = credential_json("svc@demo.iam.gserviceaccount.com", "https://t");
    let b = GmailClient::builder(&doc, "me@example.com").unwrap();
    assert_eq!(b.service_account.token_uri, "https://t");
    match GmailClient::builder("not json", "me@example.com") {
        Err(GoogleApiError::CredentialParseError(_)) => {}
        other => panic!("unexpected {:?}", other),
    }
}
