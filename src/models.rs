use vstd::prelude::*;

verus! {

/// Canonical identity record, as the credential store holds it.
///
/// `id` is the record's 128-bit identifier. An empty `password_hash` or
/// `otp_secret` marks an account that was provisioned from a federated
/// identity and has no local credential.
pub struct User {
    pub id: u128,
    pub username: String,
    pub email: String,
    pub password_hash: String,
    pub otp_secret: String,
    pub otp_verified: Option<bool>,
}

impl User {
    /// A field-by-field copy.
    pub fn duplicate(&self) -> (r: User)
        ensures
            r == *self,
    {
        User {
            id: self.id,
            username: self.username.clone(),
            email: self.email.clone(),
            password_hash: self.password_hash.clone(),
            otp_secret: self.otp_secret.clone(),
            otp_verified: self.otp_verified,
        }
    }

    /// Whether the second factor has been confirmed (an absent flag counts as not yet).
    pub open spec fn is_verified(&self) -> bool {
        self.otp_verified == Some(true)
    }
}

/// A record about to be written to the credential store.
pub struct NewUser<'a> {
    pub username: &'a str,
    pub email: &'a str,
    pub password_hash: &'a str,
    pub otp_secret: &'a str,
    pub otp_verified: bool,
}

/// Signup request.
pub struct SignupUser<'a> {
    pub username: &'a str,
    pub email: &'a str,
    pub password: &'a str,
}

/// Sign-in request.
#[derive(Clone)]
pub struct LoginUser<'a> {
    pub username: &'a str,
    pub password: &'a str,
}

/// One-time-code verification request.
pub struct OtpVerification<'a> {
    pub username: &'a str,
    pub otp: &'a str,
}

/// The failures that the authentication operations report.
#[derive(Clone, Copy, Debug, PartialEq, Eq, Structural)]
pub enum AuthError {
    ValidationFailed,
    AccountExists,
    InvalidCredentials,
    InvalidOtp,
    UserNotFound,
    DeliveryFailed,
    HashingFailed,
    TokenIssuanceFailed,
    StoreUnavailable,
    ProviderExchangeFailed,
    /// The stored one-time-password secret cannot be decoded or is too short.
    SecretUnusable,
}

/// The text shown to a caller for each failure. Credential and code failures
/// stay generic; internal failures are opaque.
pub open spec fn error_message(e: AuthError) -> Seq<char> {
    match e {
        AuthError::ValidationFailed => "Invalid request"@,
        AuthError::AccountExists => "Account already exists"@,
        AuthError::InvalidCredentials => "Invalid credentials"@,
        AuthError::InvalidOtp => "Invalid OTP"@,
        AuthError::UserNotFound => "User not found"@,
        AuthError::DeliveryFailed => "Failed to send OTP"@,
        AuthError::StoreUnavailable | AuthError::ProviderExchangeFailed => "Service unavailable, retry later"@,
        AuthError::HashingFailed | AuthError::TokenIssuanceFailed | AuthError::SecretUnusable => "Internal error"@,
    }
}

impl AuthError {
    /// The text shown to a caller for this failure.
    pub fn message(&self) -> (r: &'static str)
        ensures
            r@ == error_message(*self),
    {
        match self {
            AuthError::ValidationFailed => "Invalid request",
            AuthError::AccountExists => "Account already exists",
            AuthError::InvalidCredentials => "Invalid credentials",
            AuthError::InvalidOtp => "Invalid OTP",
            AuthError::UserNotFound => "User not found",
            AuthError::DeliveryFailed => "Failed to send OTP",
            AuthError::StoreUnavailable | AuthError::ProviderExchangeFailed => "Service unavailable, retry later",
            AuthError::HashingFailed | AuthError::TokenIssuanceFailed | AuthError::SecretUnusable => "Internal error",
        }
    }
}

} // verus!
