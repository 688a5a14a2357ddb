use boom_bot::dispatch::{command_for_name, Command};
use boom_bot::text::{char_count, chars_of, contains_run};
use boom_bot::verification::{
    after_handshake, after_submission, classify_answer, classify_reply, handshake_fields,
    has_tokens, AuthError, HttpAnswer, ProviderReply, Submission, TransportFault,
    VerificationOutcome,
};

fn reply(kind: &str, error: Option<&str>, uri: Option<&str>) -> ProviderReply {
    ProviderReply {
        kind: kind.to_string(),
        error: error.map(|e| e.to_string()),
        redirect_uri: uri.map(|u| u.to_string()),
    }
}

const TOKEN_URI: &str =
    "https://playvalorant.com/opt_in#access_token=abc&scope=openid&id_token=def&expires_in=3600";

#[test]
fn response_with_tokens_is_success() {
    let out = classify_reply(reply("response", None, Some(TOKEN_URI)));
    assert!(matches!(out, VerificationOutcome::Success));
}

#[test]
fn response_without_id_token_is_not_success() {
    let out = classify_reply(reply("response", None, Some("https://x/#access_token=abc")));
    assert!(matches!(out, VerificationOutcome::TransportError(TransportFault::UnknownReply)));
    let out = classify_reply(reply("response", None, None));
    assert!(matches!(out, VerificationOutcome::TransportError(TransportFault::UnknownReply)));
}

#[test]
fn auth_failure_is_invalid_credentials() {
    let out = classify_reply(reply("auth", Some("auth_failure"), None));
    assert!(matches!(out, VerificationOutcome::InvalidCredentials));
}

#[test]
fn multifactor_demand_is_mfa_required() {
    let out = classify_reply(reply("auth", Some("multifactor_required"), None));
    assert!(matches!(out, VerificationOutcome::MfaRequired));
    let out = classify_reply(reply("multifactor", None, None));
    assert!(matches!(out, VerificationOutcome::TransportError(TransportFault::UnknownReply)));
}

#[test]
fn unknown_discriminant_is_transport_error() {
    let out = classify_reply(reply("error", Some("rate_limited"), None));
    assert!(matches!(out, VerificationOutcome::TransportError(TransportFault::UnknownReply)));
    let out = classify_reply(reply("auth", Some("something_else"), None));
    assert!(matches!(out, VerificationOutcome::TransportError(TransportFault::UnknownReply)));
}

#[test]
fn unreadable_body_is_transport_error_with_status() {
    let out = classify_answer(HttpAnswer { status: 502, reply: None });
    assert!(matches!(out, VerificationOutcome::TransportError(TransportFault::UnreadableBody(502))));
    let out = classify_answer(HttpAnswer { status: 400, reply: Some(reply("auth", Some("auth_failure"), None)) });
    assert!(matches!(out, VerificationOutcome::InvalidCredentials));
}

#[test]
fn submission_failure_is_transport_error() {
    let out = after_submission(Err("timed out".to_string()));
    match out {
        VerificationOutcome::TransportError(TransportFault::Network(d)) => assert_eq!(d, "timed out"),
        other => panic!("unexpected {:?}", other),
    }
    let out = after_submission(Ok(HttpAnswer { status: 200, reply: Some(reply("response", None, Some(TOKEN_URI))) }));
    assert!(matches!(out, VerificationOutcome::Success));
}

#[test]
fn handshake_success_goes_on() {
    assert!(after_handshake(Ok(200)).is_none());
    assert!(after_handshake(Ok(204)).is_none());
}

#[test]
fn handshake_refusal_is_transport_error() {
    let out = after_handshake(Ok(503)).unwrap();
    assert!(matches!(out, VerificationOutcome::TransportError(TransportFault::HandshakeRefused(503))));
    let out = after_handshake(Ok(302)).unwrap();
    assert!(matches!(out, VerificationOutcome::TransportError(TransportFault::HandshakeRefused(302))));
}

#[test]
fn handshake_fields_are_fixed() {
    let f = handshake_fields();
    let want = [
        ("client_id", "play-valorant-web-prod"),
        ("nonce", "1"),
        ("redirect_uri", "https://playvalorant.com/opt_in"),
        ("response_type", "token id_token"),
    ];
    assert_eq!(f.len(), want.len());
    for (got, (n, v)) in f.iter().zip(want.iter()) {
        assert_eq!(got.0, *n);
        assert_eq!(got.1, *v);
    }
    assert_eq!(handshake_fields(), f);
}

#[test]
fn submission_fields_carry_credentials_and_code() {
    let s = Submission { username: "alice".to_string(), password: "pw".to_string(), mfa_token: None };
    let f = s.fields();
    assert_eq!(f, vec![
        ("type".to_string(), "auth".to_string()),
        ("username".to_string(), "alice".to_string()),
        ("password".to_string(), "pw".to_string()),
        ("remember".to_string(), "true".to_string()),
    ]);
    let s = Submission { username: "alice".to_string(), password: "pw".to_string(), mfa_token: Some("123456".to_string()) };
    let f = s.fields();
    assert_eq!(f.len(), 5);
    assert_eq!(f[4], ("code".to_string(), "123456".to_string()));
}

#[test]
fn outcome_as_result() {
    assert!(VerificationOutcome::Success.into_result().is_ok());
    assert!(matches!(VerificationOutcome::InvalidCredentials.into_result(), Err(AuthError::AuthFailed)));
    assert!(matches!(VerificationOutcome::MfaRequired.into_result(), Err(AuthError::MFANeeded)));
    assert!(matches!(
        VerificationOutcome::TransportError(TransportFault::UnknownReply).into_result(),
        Err(AuthError::HttpError(TransportFault::UnknownReply))
    ));
}

#[test]
fn token_detection() {
    assert!(has_tokens(&TOKEN_URI.to_string()));
    assert!(!has_tokens(&"id_token=1".to_string()));
    assert!(!has_tokens(&String::new()));
}

#[test]
fn character_helpers() {
    assert_eq!(char_count("１２３"), 3);
    assert_eq!(chars_of("héllo"), vec!['h', 'é', 'l', 'l', 'o']);
    assert!(contains_run(&['a', 'b', 'c'], &['b', 'c']));
    assert!(contains_run(&['a'], &[]));
    assert!(!contains_run(&['a', 'b'], &['b', 'a']));
    assert!(!contains_run(&['a'], &['a', 'a']));
}

#[test]
fn register_is_the_only_command() {
    assert_eq!(command_for_name("register"), Some(Command::Register));
    assert_eq!(command_for_name("test"), None);
    assert_eq!(command_for_name(""), None);
    assert_eq!(Command::Register.name(), "register");
}
