//! Password and one-time-code authentication with verified decisions.
//!
//! - `secrets`: salted password hashing and the base32 text form of OTP secrets.
//! - `totp`: six-digit, 30-second codes derived from a secret and an instant,
//!   and their validation with one window of tolerance either side.
//! - `token`: signed session tokens `{sub, exp}` valid for 24 hours.
//! - `store`: the credential store, with id, username and email unique.
//! - `auth`: signup, sign-in, OTP verification and federated sign-in, as steps
//!   that take the outcome of outside work (code dispatch, the clock) as input.
//! - `email`: the message that carries a code.
//! - `laws`: properties that relate several operations, proved.
use vstd::prelude::*;

pub mod auth;
pub mod email;
pub mod laws;
pub mod models;
pub mod secrets;
pub mod store;
pub mod token;
pub mod totp;

verus! {

/// Liveness reply.
pub fn healthcheck() -> (r: &'static str)
    ensures
        r@ == "Hello, world!"@,
{
    "Hello, world!"
}

} // verus!
