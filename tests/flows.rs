use otp_auth::auth::{
    after_otp_dispatch, begin_signup, complete_signup, federated_sign_in, reconcile, signin,
    pending_signup, verify_otp, PendingSignup, SigninStep,
};
use otp_auth::models::{AuthError, LoginUser, NewUser, OtpVerification, SignupUser};
use otp_auth::secrets::{decode_secret, hash_password};
use otp_auth::store::UserStore;
use otp_auth::totp::current_code;

const KEY: &[u8] = b"server-key";
const RFC_SECRET_B32: &str = "GEZDGNBVGY3TQOJQGEZDGNBVGY3TQOJQ";
const NOW: u64 = 1111111109;

fn store_with(username: &str, email: &str, hash: &str, verified: bool) -> UserStore {
    let mut store = UserStore::new();
    let n = NewUser {
        username,
        email,
        password_hash: hash,
        otp_secret: RFC_SECRET_B32,
        otp_verified: verified,
    };
    store.insert(7, &n).unwrap();
    store
}

fn pending(username: &str, email: &str) -> PendingSignup {
    PendingSignup {
        username: username.to_string(),
        email: email.to_string(),
        password_hash: "h".to_string(),
        otp_secret: RFC_SECRET_B32.to_string(),
        code: "081804".to_string(),
    }
}

#[test]
fn signup_persists_unverified_user_and_dispatches_code() {
    let mut store = UserStore::new();
    let req = SignupUser { username: "alice", email: "a@x.com", password: "Secret1!" };
    let p = begin_signup(&store, &req, NOW).unwrap();
    assert_eq!(p.email, "a@x.com");
    assert_eq!(p.code.len(), 6);
    assert!(p.code.chars().all(|c| c.is_ascii_digit()));
    assert_eq!(p.otp_secret.len(), 32);
    assert!(p.otp_secret.chars().all(|c| c.is_ascii_uppercase() || ('2'..='7').contains(&c)));
    assert!(p.password_hash.starts_with("$2b$"));
    assert_eq!(p.password_hash.len(), 60);
    let secret = decode_secret(&p.otp_secret).unwrap();
    assert_eq!(secret.len(), 20);
    assert_eq!(current_code(&secret, NOW), Some(p.code.clone()));
    complete_signup(&mut store, &p, true, 1).unwrap();
    let u = store.find_by_username("alice").unwrap();
    assert_eq!(u.id, 1);
    assert_eq!(u.username, "alice");
    assert_eq!(u.email, "a@x.com");
    assert_eq!(u.otp_verified, Some(false));
    assert!(!u.otp_secret.is_empty());
    assert_ne!(u.password_hash, "Secret1!");
    assert_eq!(store.len(), 1);
    assert_eq!(store.find_by_username("alice").unwrap().id, 1);
}

#[test]
fn signup_with_failed_dispatch_writes_nothing() {
    let mut store = UserStore::new();
    let r = complete_signup(&mut store, &pending("alice", "a@x.com"), false, 1);
    assert_eq!(r.err(), Some(AuthError::DeliveryFailed));
    assert_eq!(store.len(), 0);
}

#[test]
fn signup_rejects_empty_fields_and_taken_names() {
    let store = store_with("alice", "a@x.com", "h", false);
    let empty = SignupUser { username: "", email: "b@x.com", password: "p" };
    assert_eq!(begin_signup(&store, &empty, NOW).err(), Some(AuthError::ValidationFailed));
    let taken = SignupUser { username: "alice", email: "b@x.com", password: "p" };
    assert_eq!(begin_signup(&store, &taken, NOW).err(), Some(AuthError::AccountExists));
    let taken_email = SignupUser { username: "bob", email: "a@x.com", password: "p" };
    assert_eq!(begin_signup(&store, &taken_email, NOW).err(), Some(AuthError::AccountExists));
}

#[test]
fn concurrent_signups_same_username_yield_one_user() {
    let mut store = UserStore::new();
    let first = pending("alice", "a@x.com");
    let second = pending("alice", "other@x.com");
    let a = complete_signup(&mut store, &first, true, 1);
    let b = complete_signup(&mut store, &second, true, 2);
    assert!(a.is_ok());
    assert_eq!(b.err(), Some(AuthError::AccountExists));
    assert_eq!(store.len(), 1);
}

#[test]
fn signin_unverified_sends_otp() {
    let h = hash_password("Secret1!").unwrap();
    let store = store_with("alice", "a@x.com", &h, false);
    let login = LoginUser { username: "alice", password: "Secret1!" };
    match signin(&store, &login, NOW, KEY).unwrap() {
        SigninStep::SendOtp { email, code } => {
            assert_eq!(email, "a@x.com");
            assert_eq!(code, "081804");
        }
        SigninStep::Token(_) => panic!("expected a code to dispatch"),
    }
    assert_eq!(
        after_otp_dispatch(true),
        Ok("OTP sent. Please verify to complete sign in.".to_string())
    );
    assert_eq!(after_otp_dispatch(false), Err(AuthError::DeliveryFailed));
}

#[test]
fn signin_verified_gets_token() {
    let h = hash_password("pw").unwrap();
    let store = store_with("alice", "a@x.com", &h, true);
    let login = LoginUser { username: "alice", password: "pw" };
    match signin(&store, &login, NOW, KEY).unwrap() {
        SigninStep::Token(t) => assert_eq!(t.split('.').count(), 3),
        SigninStep::SendOtp { .. } => panic!("expected a token"),
    }
}

#[test]
fn signin_wrong_password_same_as_unknown_user() {
    let h = hash_password("Secret1!").unwrap();
    let store = store_with("alice", "a@x.com", &h, true);
    let wrong = LoginUser { username: "alice", password: "nope" };
    let unknown = LoginUser { username: "mallory", password: "Secret1!" };
    let a = signin(&store, &wrong, NOW, KEY).err();
    let b = signin(&store, &unknown, NOW, KEY).err();
    assert_eq!(a, Some(AuthError::InvalidCredentials));
    assert_eq!(a, b);
}

#[test]
fn verify_otp_with_current_code_marks_verified() {
    let mut store = store_with("alice", "a@x.com", "h", false);
    let req = OtpVerification { username: "alice", otp: "081804" };
    let t = verify_otp(&mut store, &req, NOW, KEY).unwrap();
    assert_eq!(t.split('.').count(), 3);
    assert_eq!(store.find_by_username("alice").unwrap().otp_verified, Some(true));
}

#[test]
fn verify_otp_twice_is_idempotent() {
    let mut store = store_with("alice", "a@x.com", "h", false);
    let req = OtpVerification { username: "alice", otp: "081804" };
    let a = verify_otp(&mut store, &req, NOW, KEY).unwrap();
    let b = verify_otp(&mut store, &req, NOW + 5, KEY).unwrap();
    assert!(!a.is_empty() && !b.is_empty());
    assert_eq!(store.len(), 1);
    assert_eq!(store.find_by_username("alice").unwrap().otp_verified, Some(true));
}

#[test]
fn verify_otp_wrong_code_changes_nothing() {
    let mut store = store_with("alice", "a@x.com", "h", false);
    let req = OtpVerification { username: "alice", otp: "000000" };
    assert_eq!(verify_otp(&mut store, &req, NOW, KEY), Err(AuthError::InvalidOtp));
    assert_eq!(store.find_by_username("alice").unwrap().otp_verified, Some(false));
}

#[test]
fn verify_otp_unknown_user() {
    let mut store = UserStore::new();
    let req = OtpVerification { username: "ghost", otp: "081804" };
    assert_eq!(verify_otp(&mut store, &req, NOW, KEY), Err(AuthError::UserNotFound));
}

#[test]
fn verify_otp_accepts_adjacent_window_only() {
    let mut store = store_with("alice", "a@x.com", "h", false);
    let req = OtpVerification { username: "alice", otp: "081804" };
    assert_eq!(verify_otp(&mut store, &req, NOW + 120, KEY), Err(AuthError::InvalidOtp));
    assert!(verify_otp(&mut store, &req, NOW + 30, KEY).is_ok());
}

#[test]
fn federated_sign_in_is_deterministic() {
    let mut store = UserStore::new();
    let a = reconcile(&mut store, "fed@x.com", 10).unwrap();
    let b = reconcile(&mut store, "fed@x.com", 11).unwrap();
    assert_eq!(a.id, 10);
    assert_eq!(b.id, 10);
    assert_eq!(store.len(), 1);
    assert_eq!(a.password_hash, "");
    let t1 = federated_sign_in(&mut store, "fed@x.com", 12, NOW, KEY).unwrap();
    let t2 = federated_sign_in(&mut store, "fed@x.com", 13, NOW, KEY).unwrap();
    assert_eq!(t1, t2);
    assert_eq!(store.len(), 1);
}

#[test]
fn federated_sign_in_matches_local_account() {
    let mut store = store_with("alice", "a@x.com", "h", false);
    let u = reconcile(&mut store, "a@x.com", 99).unwrap();
    assert_eq!(u.id, 7);
    assert_eq!(u.username, "alice");
    assert_eq!(reconcile(&mut store, "", 99).err(), Some(AuthError::ValidationFailed));
    let login = LoginUser { username: "a@x.com", password: "" };
    assert_eq!(signin(&store, &login, NOW, KEY).err(), Some(AuthError::InvalidCredentials));
}

#[test]
fn federated_account_has_no_usable_password() {
    let mut store = UserStore::new();
    reconcile(&mut store, "fed@x.com", 10).unwrap();
    let login = LoginUser { username: "fed@x.com", password: "" };
    assert_eq!(signin(&store, &login, NOW, KEY).err(), Some(AuthError::InvalidCredentials));
}

#[test]
fn pending_signup_derives_code_from_stored_secret() {
    let secret = b"12345678901234567890".to_vec();
    let p = pending_signup("alice", "a@x.com", "h".to_string(), &secret, NOW).unwrap();
    assert_eq!(p.otp_secret, RFC_SECRET_B32);
    assert_eq!(p.code, "081804");
    assert_eq!(p.password_hash, "h");
    assert!(pending_signup("alice", "a@x.com", "h".to_string(), &vec![1u8; 15], NOW).is_none());
}
