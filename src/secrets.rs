use vstd::prelude::*;
use base32::Alphabet;
use crate::models::AuthError;
use vstd::string::StringSliceAdditionalSpecFns;

verus! {

/// Work factor used for every new password hash.
pub const HASH_COST: u32 = 12;

/// bcrypt's error type, carried opaquely from its functions.
#[verifier::external_type_specification]
#[verifier::external_body]
pub struct ExBcryptError(bcrypt::BcryptError);

/// What bcrypt's verification answers for a password and a stored hash:
/// `Some(matches)` for a well-formed hash, `None` for a malformed one.
pub uninterp spec fn bcrypt_verdict(password: Seq<u8>, hash: Seq<char>) -> Option<bool>;

/// The unpadded RFC 4648 base32 text of some bytes.
pub uninterp spec fn base32_text(bytes: Seq<u8>) -> Seq<char>;

/// The bytes that an unpadded RFC 4648 base32 text decodes to, if any.
pub uninterp spec fn base32_bytes(text: Seq<char>) -> Option<Seq<u8>>;

/// A character of the RFC 4648 base32 alphabet.
pub open spec fn is_base32_char(c: char) -> bool {
    ('A' <= c <= 'Z') || ('2' <= c <= '7')
}

/// The shape of a bcrypt hash as stored: 60 characters, version prefix `$2b$`.
pub open spec fn is_bcrypt_format(h: Seq<char>) -> bool {
    h.len() == 60 && h.subrange(0, 4) == "$2b$"@
}

/// A password matches a stored hash when bcrypt verifies it as a match;
/// a malformed (or absent) hash matches nothing.
pub open spec fn password_matches(password: Seq<u8>, hash: Seq<char>) -> bool {
    bcrypt_verdict(password, hash) == Some(true)
}

/// Relies on bcrypt::hash with a random salt: with a cost in 10..=31 it fails
/// only when the system cannot supply randomness; a hash it returns is
/// formatted as `$2b$`, two cost digits, `$`, 22 salt and 31 hash characters,
/// and bcrypt::verify accepts it for the same password, since verify hashes
/// the password again with the cost and salt read back from it.
#[verifier::external_body]
fn bcrypt_hash(password: &[u8], cost: u32) -> (r: Result<String, bcrypt::BcryptError>)
    requires
        10 <= cost <= 31,
    ensures
        r matches Ok(h) ==> bcrypt_verdict(password@, h@) == Some(true) && is_bcrypt_format(h@),
{
    bcrypt::hash(password, cost)
}

/// Relies on bcrypt::verify, whose answer depends on the password and the hash alone.
#[verifier::external_body]
fn bcrypt_verify(password: &[u8], hash: &str) -> (r: Result<bool, bcrypt::BcryptError>)
    ensures
        r matches Ok(b) ==> bcrypt_verdict(password@, hash@) == Some(b),
        r is Err ==> bcrypt_verdict(password@, hash@) is None,
{
    bcrypt::verify(password, hash)
}

/// Relies on base32::encode with the unpadded RFC 4648 alphabet: eight
/// alphabet characters per five bytes, the last group cut to
/// `(8 * n + 4) / 5` characters in all, which base32::decode turns back into
/// the same bytes (it keeps `len * 5 / 8` of the bytes it decodes).
#[verifier::external_body]
fn base32_encode(bytes: &[u8]) -> (r: String)
    ensures
        r@ == base32_text(bytes@),
        r@.len() == (8 * bytes@.len() + 4) / 5,
        forall|i: int| 0 <= i < r@.len() ==> is_base32_char(#[trigger] r@[i]),
        base32_bytes(r@) == Some(bytes@),
{
    base32::encode(Alphabet::RFC4648 { padding: false }, bytes)
}

/// Relies on base32::decode with the unpadded RFC 4648 alphabet.
#[verifier::external_body]
fn base32_decode(text: &str) -> (r: Option<Vec<u8>>)
    ensures
        r matches Some(b) ==> base32_bytes(text@) == Some(b@),
        r is None ==> base32_bytes(text@) is None,
{
    base32::decode(Alphabet::RFC4648 { padding: false }, text)
}

/// One-way salted hash of a password. A returned hash verifies against the
/// same password; failure to hash is reported, never a panic.
pub fn hash_password(password: &str) -> (r: Result<String, AuthError>)
    ensures
        r matches Ok(h) ==> password_matches(password.spec_bytes(), h@) && is_bcrypt_format(h@),
        r matches Err(e) ==> e == AuthError::HashingFailed,
{
    match bcrypt_hash(password.as_bytes(), HASH_COST) {
        Ok(h) => Ok(h),
        Err(_) => Err(AuthError::HashingFailed),
    }
}

/// Whether a password matches a stored hash; a malformed hash matches nothing.
pub fn verify_password(password: &str, hash: &str) -> (r: bool)
    ensures
        r == password_matches(password.spec_bytes(), hash@),
{
    match bcrypt_verify(password.as_bytes(), hash) {
        Ok(b) => b,
        Err(_) => false,
    }
}

/// The text form in which an OTP secret is stored; it decodes back to the secret.
pub fn encode_secret(secret: &Vec<u8>) -> (r: String)
    ensures
        r@ == base32_text(secret@),
        r@.len() == (8 * secret@.len() + 4) / 5,
        forall|i: int| 0 <= i < r@.len() ==> is_base32_char(#[trigger] r@[i]),
        base32_bytes(r@) == Some(secret@),
{
    base32_encode(secret.as_slice())
}

/// The bytes of a stored OTP secret, if its text decodes.
pub fn decode_secret(text: &str) -> (r: Option<Vec<u8>>)
    ensures
        r matches Some(b) ==> base32_bytes(text@) == Some(b@),
        r is None ==> base32_bytes(text@) is None,
{
    base32_decode(text)
}

} // verus!
