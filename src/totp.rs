use vstd::prelude::*;
use totp_rs::{Algorithm, Secret, TOTP};

verus! {

/// Length of one time step, in seconds.
pub const STEP_SECS: u64 = 30;

/// Shortest secret, in bytes, that codes are derived from.
pub const MIN_SECRET_LEN: usize = 16;

/// The six-digit HMAC-SHA1 code that a secret yields in time window `window`.
pub uninterp spec fn totp_code_of(secret: Seq<u8>, window: int) -> Seq<char>;

/// A code is six decimal digits.
pub open spec fn is_six_digit_code(s: Seq<char>) -> bool {
    s.len() == 6 && forall|i: int| 0 <= i < 6 ==> '0' <= #[trigger] s[i] <= '9'
}

/// The window that an instant (seconds since the epoch) falls in.
pub open spec fn window_of(time: int) -> int {
    time / STEP_SECS as int
}

/// Whether a secret can derive codes at all.
pub open spec fn secret_usable(secret: Seq<u8>) -> bool {
    secret.len() >= MIN_SECRET_LEN
}

/// The code that is current at `time`.
pub open spec fn current_code_spec(secret: Seq<u8>, time: int) -> Seq<char> {
    totp_code_of(secret, window_of(time))
}

/// A candidate is accepted at `time` when it is the code of the current
/// window or of one of the two adjacent windows (where those windows start
/// within the range of a `u64` instant).
pub open spec fn code_accepted(secret: Seq<u8>, candidate: Seq<char>, time: int) -> bool {
    candidate == totp_code_of(secret, window_of(time))
        || (time >= STEP_SECS && candidate == totp_code_of(secret, window_of(time) - 1))
        || (time + STEP_SECS <= u64::MAX && candidate == totp_code_of(secret, window_of(time) + 1))
}

/// Relies on totp_rs::TOTP::new (SHA-1, six digits), which refuses a secret
/// shorter than 16 bytes, and TOTP::generate, whose code depends on the secret
/// and on `time / step` alone and is written as six zero-padded decimal digits.
#[verifier::external_body]
fn totp_generate(secret: &Vec<u8>, time: u64, step: u64) -> (r: Option<String>)
    requires
        step > 0,
    ensures
        r is Some <==> secret@.len() >= 16,
        r matches Some(c) ==> c@ == totp_code_of(secret@, time as int / step as int)
            && is_six_digit_code(c@),
{
    TOTP::new(Algorithm::SHA1, 6, 1, step, secret.clone()).ok().map(|t| t.generate(time))
}

/// Relies on totp_rs::Secret::generate_secret, which draws 20 random bytes
/// into a `Secret::Raw`, whose `to_bytes` hands them back.
#[verifier::external_body]
pub(crate) fn random_secret() -> (r: Vec<u8>)
    ensures
        r@.len() == 20,
{
    match Secret::generate_secret().to_bytes() {
        Ok(b) => b,
        Err(_) => Vec::new(),
    }
}

/// The code current at `time` for `secret`; `None` exactly when the secret is too short.
pub fn current_code(secret: &Vec<u8>, time: u64) -> (r: Option<String>)
    ensures
        r is Some <==> secret_usable(secret@),
        r matches Some(c) ==> c@ == current_code_spec(secret@, time as int) && is_six_digit_code(c@),
{
    totp_generate(secret, time, STEP_SECS)
}

/// Checks a candidate code against the current window and its two neighbours.
/// `None` exactly when the secret is too short.
pub fn validate(secret: &Vec<u8>, candidate: &str, time: u64) -> (r: Option<bool>)
    ensures
        r is Some <==> secret_usable(secret@),
        r matches Some(b) ==> b == code_accepted(secret@, candidate@, time as int),
        r == Some(true) ==> is_six_digit_code(candidate@),
{
    let candidate = candidate.to_owned();
    let cur = match totp_generate(secret, time, STEP_SECS) {
        Some(c) => c,
        None => return None,
    };
    if cur == candidate {
        return Some(true);
    }
    if time >= STEP_SECS {
        let t = time - STEP_SECS;
        assert(t as int / 30 == time as int / 30 - 1);
        if let Some(c) = totp_generate(secret, t, STEP_SECS) {
            if c == candidate {
                return Some(true);
            }
        }
    }
    if time <= u64::MAX - STEP_SECS {
        let t = time + STEP_SECS;
        assert(t as int / 30 == time as int / 30 + 1);
        if let Some(c) = totp_generate(secret, t, STEP_SECS) {
            if c == candidate {
                return Some(true);
            }
        }
    }
    Some(false)
}

} // verus!
