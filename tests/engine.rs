use otp_auth::email::{create_request_data, otp_email};
use otp_auth::secrets::{decode_secret, encode_secret, hash_password, verify_password};
use otp_auth::token::{generate_token, issue_token};
use otp_auth::totp::{current_code, validate};

const RFC_SECRET: &[u8] = b"12345678901234567890";
const RFC_SECRET_B32: &str = "GEZDGNBVGY3TQOJQGEZDGNBVGY3TQOJQ";

fn rfc_secret() -> Vec<u8> {
    RFC_SECRET.to_vec()
}

#[test]
fn code_matches_published_vectors() {
    assert_eq!(current_code(&rfc_secret(), 59), Some("287082".to_string()));
    assert_eq!(current_code(&rfc_secret(), 1111111109), Some("081804".to_string()));
    assert_eq!(current_code(&rfc_secret(), 1234567890), Some("005924".to_string()));
}

#[test]
fn code_constant_within_window() {
    let s = rfc_secret();
    let a = current_code(&s, 60).unwrap();
    let b = current_code(&s, 89).unwrap();
    assert_eq!(a, b);
    let c = current_code(&s, 90).unwrap();
    assert_ne!(a, c);
}

#[test]
fn short_secret_gives_no_code() {
    assert_eq!(current_code(&vec![1u8; 15], 59), None);
    assert_eq!(validate(&vec![1u8; 15], "123456", 59), None);
    assert!(current_code(&vec![1u8; 16], 59).is_some());
}

#[test]
fn validate_accepts_current_and_adjacent_windows() {
    let s = rfc_secret();
    let t: u64 = 1111111109;
    let now = current_code(&s, t).unwrap();
    let prev = current_code(&s, t - 30).unwrap();
    let next = current_code(&s, t + 30).unwrap();
    let far = current_code(&s, t + 90).unwrap();
    assert_eq!(validate(&s, &now, t), Some(true));
    assert_eq!(validate(&s, &prev, t), Some(true));
    assert_eq!(validate(&s, &next, t), Some(true));
    assert_eq!(validate(&s, &far, t), Some(false));
}

#[test]
fn validate_at_time_zero_has_no_previous_window() {
    let s = rfc_secret();
    let code = current_code(&s, 0).unwrap();
    assert_eq!(validate(&s, &code, 0), Some(true));
    assert_eq!(validate(&s, "not-a-code", 0), Some(false));
}

#[test]
fn codes_are_six_digits() {
    let s = vec![7u8; 20];
    for t in [0u64, 30, 12345, 999_999_999] {
        let c = current_code(&s, t).unwrap();
        assert_eq!(c.len(), 6);
        assert!(c.chars().all(|ch| ch.is_ascii_digit()));
    }
}

#[test]
fn secret_text_round_trip() {
    let text = encode_secret(&rfc_secret());
    assert_eq!(text, RFC_SECRET_B32);
    assert_eq!(decode_secret(&text), Some(rfc_secret()));
    assert_eq!(decode_secret("not base32!"), None);
}

#[test]
fn hashed_password_verifies_and_others_do_not() {
    let h = hash_password("Secret1!").unwrap();
    assert_ne!(h, "Secret1!");
    assert!(verify_password("Secret1!", &h));
    assert!(!verify_password("Secret2!", &h));
    assert!(!verify_password("Secret1!", "not a hash"));
}

#[test]
fn token_carries_subject_and_expiry() {
    let key = b"signing-key";
    let t = issue_token("alice", key, 1000).unwrap();
    assert_eq!(t.split('.').count(), 3);
    assert_eq!(issue_token("alice", key, 1000).unwrap(), t);
    let mut validation = jsonwebtoken::Validation::new(jsonwebtoken::Algorithm::HS256);
    validation.validate_exp = false;
    let data = jsonwebtoken::decode::<serde_json::Value>(
        &t,
        &jsonwebtoken::DecodingKey::from_secret(key),
        &validation,
    )
    .unwrap();
    assert_eq!(data.claims["sub"], "alice");
    assert_eq!(data.claims["exp"], 1000 + 86400);
    assert_ne!(issue_token("bob", key, 1000).unwrap(), t);
}

#[test]
fn token_expiry_overflow_is_an_error() {
    assert_eq!(
        issue_token("alice", b"k", u64::MAX - 10),
        Err(otp_auth::models::AuthError::TokenIssuanceFailed)
    );
}

#[test]
fn generated_token_is_signed() {
    let t = generate_token("alice", b"k").unwrap();
    assert_eq!(t.split('.').count(), 3);
}

#[test]
fn request_data_fields() {
    let r = create_request_data("from@x.com", "to@x.com", "person@x.com", "123456");
    assert_eq!(r.from, "from@x.com");
    assert_eq!(r.to, "to@x.com");
    assert_eq!(r.subject, "Hello from Postmark");
    assert_eq!(
        r.html_body,
        "<strong>Hello person@x.com</strong> below is your OTP: <strong>123456</strong>"
    );
    assert_eq!(r.text_body, "hello there");
    assert_eq!(r.message_stream, "broadcast");
    let o = otp_email("from@x.com", "a@x.com", "654321");
    assert_eq!(o.to, "a@x.com");
    assert!(o.html_body.contains("a@x.com") && o.html_body.contains("654321"));
}
