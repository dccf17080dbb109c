use vstd::prelude::*;
use vstd::string::StringSliceAdditionalSpecFns;
use crate::models::{AuthError, LoginUser, NewUser, OtpVerification, SignupUser, User};
use crate::secrets::{
    base32_bytes, base32_text, decode_secret, encode_secret, hash_password, is_base32_char,
    is_bcrypt_format, password_matches, verify_password,
};
use crate::store::{has_email, has_id, has_username, verified_record, UserStore};
use crate::token::{expiry_for, hs256_token, issue_token};
use crate::totp::{
    code_accepted, current_code, current_code_spec, is_six_digit_code, random_secret, secret_usable,
    validate,
};

verus! {

/// Reply to a sign-in whose account still has to confirm its second factor.
pub const OTP_SENT_MESSAGE: &'static str = "OTP sent. Please verify to complete sign in.";

/// The code current at `time` for a secret stored as base32 text, if the
/// text decodes to a usable secret.
pub open spec fn stored_code(stored: Seq<char>, time: int) -> Option<Seq<char>> {
    match base32_bytes(stored) {
        Some(b) => if secret_usable(b) {
            Some(current_code_spec(b, time))
        } else {
            None
        },
        None => None,
    }
}

/// Whether `candidate` is accepted at `time` for a secret stored as base32
/// text; `None` when the text does not decode to a usable secret.
pub open spec fn stored_code_accepted(stored: Seq<char>, candidate: Seq<char>, time: int) -> Option<bool> {
    match base32_bytes(stored) {
        Some(b) => if secret_usable(b) {
            Some(code_accepted(b, candidate, time))
        } else {
            None
        },
        None => None,
    }
}

/// The session token for `username` issued at `now` under `key`, if its expiry is representable.
pub open spec fn token_spec(username: Seq<char>, key: Seq<u8>, now: int) -> Option<Seq<char>> {
    match expiry_for(now) {
        Some(exp) => Some(hs256_token(username, exp, key)),
        None => None,
    }
}

/// `r` is the token for `username` issued at `now` under `key`, or
/// `TokenIssuanceFailed` exactly when its expiry is not representable.
pub open spec fn token_result(r: Result<String, AuthError>, username: Seq<char>, key: Seq<u8>, now: int) -> bool {
    match token_spec(username, key, now) {
        Some(t) => (r matches Ok(s) && s@ == t),
        None => r == Err::<String, AuthError>(AuthError::TokenIssuanceFailed),
    }
}

/// The code current at `now` for a stored base32 secret.
fn code_from_stored(stored: &str, now: u64) -> (r: Option<String>)
    ensures
        r matches Some(c) ==> stored_code(stored@, now as int) == Some(c@) && is_six_digit_code(c@),
        r is None ==> stored_code(stored@, now as int) is None,
{
    match decode_secret(stored) {
        Some(b) => current_code(&b, now),
        None => None,
    }
}

/// Signs a token, stated over `token_spec`.
fn token_for(username: &str, key: &[u8], now: u64) -> (r: Result<String, AuthError>)
    ensures
        token_result(r, username@, key@, now as int),
{
    issue_token(username, key, now)
}

/// A signup whose code is ready to be dispatched; the account is written
/// only once dispatch has succeeded.
pub struct PendingSignup {
    pub username: String,
    pub email: String,
    pub password_hash: String,
    pub otp_secret: String,
    /// The code to dispatch to `email`.
    pub code: String,
}

/// A request field is well formed when it is not empty.
pub open spec fn field_ok(s: Seq<char>) -> bool {
    s.len() > 0
}

/// Assembles a pending signup from an already computed password hash and a
/// drawn secret: the secret is stored as base32 text and the code current at
/// `now` is derived from that text. `None` exactly when the secret is too
/// short to derive codes.
pub fn pending_signup(username: &str, email: &str, password_hash: String, secret: &Vec<u8>, now: u64) -> (r: Option<PendingSignup>)
    ensures
        r is Some <==> secret_usable(secret@),
        r matches Some(p) ==> {
            &&& p.username@ == username@
            &&& p.email@ == email@
            &&& p.password_hash == password_hash
            &&& p.otp_secret@ == base32_text(secret@)
            &&& base32_bytes(p.otp_secret@) == Some(secret@)
            &&& p.otp_secret@.len() == (8 * secret@.len() + 4) / 5
            &&& forall|i: int| 0 <= i < p.otp_secret@.len() ==> is_base32_char(#[trigger] p.otp_secret@[i])
            &&& p.code@ == current_code_spec(secret@, now as int)
            &&& stored_code(p.otp_secret@, now as int) == Some(p.code@)
            &&& is_six_digit_code(p.code@)
        },
{
    let otp_secret = encode_secret(secret);
    let code = match code_from_stored(otp_secret.as_str(), now) {
        Some(c) => c,
        None => return None,
    };
    Some(PendingSignup {
        username: username.to_owned(),
        email: email.to_owned(),
        password_hash,
        otp_secret,
        code,
    })
}

/// First step of signup. Refuses empty fields (`ValidationFailed`) and a
/// username or email already taken (`AccountExists`); then hashes the
/// password, draws a fresh 20-byte secret and assembles the pending signup.
/// The only other failure is the hasher's own (`HashingFailed`).
pub fn begin_signup(store: &UserStore, req: &SignupUser, now: u64) -> (r: Result<PendingSignup, AuthError>)
    requires
        store.wf(),
    ensures
        !(field_ok(req.username@) && field_ok(req.email@) && field_ok(req.password@)) <==> r
            == Err::<PendingSignup, AuthError>(AuthError::ValidationFailed),
        field_ok(req.username@) && field_ok(req.email@) && field_ok(req.password@) ==> ((
        has_username(store.records(), req.username@) || has_email(store.records(), req.email@))
            <==> r == Err::<PendingSignup, AuthError>(AuthError::AccountExists)),
        r matches Err(e) ==> e == AuthError::ValidationFailed || e == AuthError::AccountExists
            || e == AuthError::HashingFailed,
        r matches Ok(p) ==> {
            &&& p.username@ == req.username@
            &&& p.email@ == req.email@
            &&& password_matches(req.password.spec_bytes(), p.password_hash@)
            &&& is_bcrypt_format(p.password_hash@)
            &&& exists|s: Seq<u8>| s.len() == 20 && p.otp_secret@ == #[trigger] base32_text(s)
                && base32_bytes(p.otp_secret@) == Some(s)
            &&& p.otp_secret@.len() == 32
            &&& forall|i: int| 0 <= i < p.otp_secret@.len() ==> is_base32_char(#[trigger] p.otp_secret@[i])
            &&& stored_code(p.otp_secret@, now as int) == Some(p.code@)
            &&& is_six_digit_code(p.code@)
        },
{
    if req.username.is_empty() || req.email.is_empty() || req.password.is_empty() {
        return Err(AuthError::ValidationFailed);
    }
    if store.find_by_username(req.username).is_some() || store.find_by_email(req.email).is_some() {
        return Err(AuthError::AccountExists);
    }
    let password_hash = match hash_password(req.password) {
        Ok(h) => h,
        Err(e) => return Err(e),
    };
    let secret = random_secret();
    match pending_signup(req.username, req.email, password_hash, &secret, now) {
        Some(p) => Ok(p),
        None => Err(AuthError::SecretUnusable),
    }
}

/// Second step of signup, once dispatch of the code has been attempted. On a
/// failed dispatch nothing is written (`DeliveryFailed`); otherwise the account
/// is written unverified under `id`, or refused atomically with `AccountExists`.
pub fn complete_signup(store: &mut UserStore, pending: &PendingSignup, delivered: bool, id: u128) -> (r: Result<(), AuthError>)
    requires
        old(store).wf(),
    ensures
        final(store).wf(),
        !delivered ==> r == Err::<(), AuthError>(AuthError::DeliveryFailed)
            && final(store).records() == old(store).records(),
        delivered ==> {
            let taken = has_id(old(store).records(), id)
                || has_username(old(store).records(), pending.username@)
                || has_email(old(store).records(), pending.email@);
            &&& r is Err <==> taken
            &&& r matches Err(e) ==> e == AuthError::AccountExists
                && final(store).records() == old(store).records()
            &&& r is Ok ==> {
                let u = final(store).records().last();
                &&& u.id == id && u.username@ == pending.username@
                &&& u.email@ == pending.email@ && u.password_hash@ == pending.password_hash@
                &&& u.otp_secret@ == pending.otp_secret@ && u.otp_verified == Some(false)
                &&& final(store).records() == old(store).records().push(u)
            }
        },
{
    if !delivered {
        return Err(AuthError::DeliveryFailed);
    }
    let n = NewUser {
        username: pending.username.as_str(),
        email: pending.email.as_str(),
        password_hash: pending.password_hash.as_str(),
        otp_secret: pending.otp_secret.as_str(),
        otp_verified: false,
    };
    match store.insert(id, &n) {
        Ok(_) => Ok(()),
        Err(e) => Err(e),
    }
}

/// What a sign-in with valid credentials leads to.
pub enum SigninStep {
    /// The second factor is confirmed: a session token.
    Token(String),
    /// The second factor is pending: `code` must be dispatched to `email`,
    /// and the flow continues at OTP verification.
    SendOtp { email: String, code: String },
}

/// Sign-in. An unknown username and a wrong password both give
/// `InvalidCredentials`. A verified account gets a token issued at `now`; an
/// unverified one gets the code current at `now`, derived from its stored
/// secret, to dispatch.
pub fn signin(store: &UserStore, login: &LoginUser, now: u64, key: &[u8]) -> (r: Result<SigninStep, AuthError>)
    requires
        store.wf(),
    ensures
        !has_username(store.records(), login.username@) ==> r == Err::<SigninStep, AuthError>(
            AuthError::InvalidCredentials),
        forall|u: User| #[trigger] store.records().contains(u) && u.username@ == login.username@
            ==> {
            if !password_matches(login.password.spec_bytes(), u.password_hash@) {
                r == Err::<SigninStep, AuthError>(AuthError::InvalidCredentials)
            } else if u.is_verified() {
                match token_spec(u.username@, key@, now as int) {
                    Some(t) => (r matches Ok(SigninStep::Token(s)) && s@ == t),
                    None => r == Err::<SigninStep, AuthError>(AuthError::TokenIssuanceFailed),
                }
            } else {
                match stored_code(u.otp_secret@, now as int) {
                    Some(c) => (r matches Ok(SigninStep::SendOtp { email, code }) && email@ == u.email@
                        && code@ == c && is_six_digit_code(code@)),
                    None => r == Err::<SigninStep, AuthError>(AuthError::SecretUnusable),
                }
            }
        },
{
    let user = match store.find_by_username(login.username) {
        Some(u) => u,
        None => return Err(AuthError::InvalidCredentials),
    };
    proof {
        assert forall|u: User| #[trigger] store.records().contains(u) && u.username@ == login.username@
            implies u == user by {
            lemma_username_determines(store, u, user);
        }
    }
    if !verify_password(login.password, user.password_hash.as_str()) {
        return Err(AuthError::InvalidCredentials);
    }
    if user.otp_verified == Some(true) {
        match token_for(user.username.as_str(), key, now) {
            Ok(t) => Ok(SigninStep::Token(t)),
            Err(e) => Err(e),
        }
    } else {
        match code_from_stored(user.otp_secret.as_str(), now) {
            Some(code) => Ok(SigninStep::SendOtp { email: user.email.clone(), code }),
            None => Err(AuthError::SecretUnusable),
        }
    }
}

/// The reply to a sign-in once the code has been dispatched, or not.
pub fn after_otp_dispatch(delivered: bool) -> (r: Result<String, AuthError>)
    ensures
        delivered ==> (r matches Ok(m) && m@ == OTP_SENT_MESSAGE@),
        !delivered ==> r == Err::<String, AuthError>(AuthError::DeliveryFailed),
{
    if delivered {
        Ok(OTP_SENT_MESSAGE.to_owned())
    } else {
        Err(AuthError::DeliveryFailed)
    }
}

/// Whether `after` is `before` with the record `u` marked verified.
pub open spec fn marked_verified(before: Seq<User>, after: Seq<User>, u: User) -> bool {
    exists|i: int| 0 <= i < before.len() && before[i] == u
        && after == before.update(i, #[trigger] verified_record(u))
}

/// Any two records of a well-formed store with the same username are the same record.
proof fn lemma_username_determines(store: &UserStore, u: User, v: User)
    requires
        store.wf(),
        store.records().contains(u),
        store.records().contains(v),
        u.username@ == v.username@,
    ensures
        u == v,
{
    let i = choose|i: int| 0 <= i < store.records().len() && store.records()[i] == u;
    let j = choose|j: int| 0 <= j < store.records().len() && store.records()[j] == v;
    assert(store.records()[i].username@ == store.records()[j].username@);
}

/// Any two records of a well-formed store with the same email are the same record.
proof fn lemma_email_determines(store: &UserStore, u: User, v: User)
    requires
        store.wf(),
        store.records().contains(u),
        store.records().contains(v),
        u.email@ == v.email@,
    ensures
        u == v,
{
    let i = choose|i: int| 0 <= i < store.records().len() && store.records()[i] == u;
    let j = choose|j: int| 0 <= j < store.records().len() && store.records()[j] == v;
    assert(store.records()[i].email@ == store.records()[j].email@);
}

/// OTP verification. An unknown username gives `UserNotFound`; a code that is
/// not accepted at `now` (current window or an adjacent one) gives
/// `InvalidOtp` and changes nothing. An accepted code marks the account
/// verified and issues a token at `now`; repeating it within the window
/// succeeds again and leaves the store as it was.
pub fn verify_otp(store: &mut UserStore, req: &OtpVerification, now: u64, key: &[u8]) -> (r: Result<String, AuthError>)
    requires
        old(store).wf(),
    ensures
        final(store).wf(),
        !has_username(old(store).records(), req.username@) ==> r == Err::<String, AuthError>(
            AuthError::UserNotFound) && final(store).records() == old(store).records(),
        forall|u: User| #[trigger] old(store).records().contains(u) && u.username@ == req.username@
            ==> match stored_code_accepted(u.otp_secret@, req.otp@, now as int) {
            None => r == Err::<String, AuthError>(AuthError::SecretUnusable)
                && final(store).records() == old(store).records(),
            Some(false) => r == Err::<String, AuthError>(AuthError::InvalidOtp)
                && final(store).records() == old(store).records(),
            Some(true) => marked_verified(old(store).records(), final(store).records(), u)
                && token_result(r, u.username@, key@, now as int),
        },
{
    let user = match store.find_by_username(req.username) {
        Some(u) => u,
        None => return Err(AuthError::UserNotFound),
    };
    proof {
        assert forall|u: User| #[trigger] old(store).records().contains(u) && u.username@ == req.username@
            implies u == user by {
            lemma_username_determines(store, u, user);
        }
    }
    let accepted = match decode_secret(user.otp_secret.as_str()) {
        Some(b) => validate(&b, req.otp, now),
        None => None,
    };
    match accepted {
        None => Err(AuthError::SecretUnusable),
        Some(false) => Err(AuthError::InvalidOtp),
        Some(true) => {
            let ghost before = store.records();
            match store.set_otp_verified(user.id) {
                Ok(()) => {},
                Err(e) => {
                    assert(has_id(before, user.id)) by {
                        let j = choose|j: int| 0 <= j < before.len() && before[j] == user;
                        assert(before[j].id == user.id);
                    }
                    return Err(e);
                },
            }
            proof {
                let i = choose|i: int| 0 <= i < before.len() && (#[trigger] before[i]).id == user.id
                    && store.records() == before.update(i, verified_record(before[i]));
                let j = choose|j: int| 0 <= j < before.len() && before[j] == user;
                if i != j {
                    assert(before[i].id != before[j].id);
                }
                assert(before[i] == user);
            }
            token_for(user.username.as_str(), key, now)
        },
    }
}

/// Whether `u` is the record provisioned under `id` for a federated identity
/// with this email: the email doubles as username, and there is no password
/// hash and no OTP secret.
pub open spec fn is_federated_record(u: User, id: u128, email: Seq<char>) -> bool {
    &&& u.id == id
    &&& u.username@ == email
    &&& u.email@ == email
    &&& u.password_hash@.len() == 0
    &&& u.otp_secret@.len() == 0
    &&& u.otp_verified == Some(false)
}

/// Maps a provider-verified email onto a local account. An existing account
/// with that email is returned unchanged. Otherwise one is provisioned under
/// `id`; if that id or the email as username is taken, `AccountExists` and
/// nothing is written. An empty email gives `ValidationFailed`.
pub fn reconcile(store: &mut UserStore, email: &str, id: u128) -> (r: Result<User, AuthError>)
    requires
        old(store).wf(),
    ensures
        final(store).wf(),
        !field_ok(email@) ==> r == Err::<User, AuthError>(AuthError::ValidationFailed)
            && final(store).records() == old(store).records(),
        forall|u: User| field_ok(email@) && #[trigger] old(store).records().contains(u) && u.email@ == email@
            ==> r == Ok::<User, AuthError>(u) && final(store).records() == old(store).records(),
        field_ok(email@) && !has_email(old(store).records(), email@) ==> {
            let taken = has_id(old(store).records(), id) || has_username(old(store).records(), email@);
            &&& taken ==> r == Err::<User, AuthError>(AuthError::AccountExists)
                && final(store).records() == old(store).records()
            &&& !taken ==> (r matches Ok(u) && is_federated_record(u, id, email@)
                && final(store).records() == old(store).records().push(u))
        },
{
    if email.is_empty() {
        return Err(AuthError::ValidationFailed);
    }
    match store.find_by_email(email) {
        Some(existing) => {
            proof {
                assert forall|u: User| #[trigger] store.records().contains(u) && u.email@ == email@
                    implies u == existing by {
                    lemma_email_determines(store, u, existing);
                }
            }
            Ok(existing)
        },
        None => {
            proof {
                reveal_strlit("");
            }
            let n = NewUser {
                username: email,
                email,
                password_hash: "",
                otp_secret: "",
                otp_verified: false,
            };
            store.insert(id, &n)
        },
    }
}

/// Federated sign-in with the email that the identity provider vouched for:
/// the account is reconciled, and a token is issued at `now` for it,
/// bypassing the password and the second factor.
pub fn federated_sign_in(store: &mut UserStore, email: &str, id: u128, now: u64, key: &[u8]) -> (r: Result<String, AuthError>)
    requires
        old(store).wf(),
    ensures
        final(store).wf(),
        !field_ok(email@) ==> r == Err::<String, AuthError>(AuthError::ValidationFailed)
            && final(store).records() == old(store).records(),
        forall|u: User| field_ok(email@) && #[trigger] old(store).records().contains(u) && u.email@ == email@
            ==> token_result(r, u.username@, key@, now as int)
                && final(store).records() == old(store).records(),
        field_ok(email@) && !has_email(old(store).records(), email@) ==> {
            let taken = has_id(old(store).records(), id) || has_username(old(store).records(), email@);
            &&& taken ==> r == Err::<String, AuthError>(AuthError::AccountExists)
                && final(store).records() == old(store).records()
            &&& !taken ==> token_result(r, email@, key@, now as int)
                && exists|u: User| is_federated_record(u, id, email@)
                && final(store).records() == old(store).records().push(u)
        },
{
    match reconcile(store, email, id) {
        Ok(u) => token_for(u.username.as_str(), key, now),
        Err(e) => Err(e),
    }
}

} // verus!
