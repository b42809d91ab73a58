use argon2::password_hash::rand_core::OsRng;
use argon2::password_hash::{PasswordHash, PasswordHasher, PasswordVerifier, Salt, SaltString};
use argon2::Argon2;
use vstd::prelude::*;

use crate::error::IdentityError;

verus! {

#[verifier::external_type_specification]
#[verifier::external_body]
pub struct ExPasswordHashError(argon2::password_hash::Error);

/// Whether Argon2 accepts `password` against the PHC string `encoded`.
pub uninterp spec fn argon2_accepts(password: Seq<char>, encoded: Seq<char>) -> bool;

/// Calls `PasswordHash::new` on `encoded` and then `Argon2::default().verify_password`:
/// the answer depends on the two strings alone, and a string that does not parse is
/// refused.
#[verifier::external_body]
fn argon2_verify(password: &str, encoded: &str) -> (ok: bool)
    ensures
        ok == argon2_accepts(password@, encoded@),
{
    match PasswordHash::new(encoded) {
        Ok(h) => Argon2::default().verify_password(password.as_bytes(), &h).is_ok(),
        Err(_) => false,
    }
}

/// A character of unpadded standard Base64: `A`-`Z`, `a`-`z`, `0`-`9`, `+` or `/`.
pub open spec fn is_b64_char(c: char) -> bool {
    ('A' <= c && c <= 'Z') || ('a' <= c && c <= 'z') || ('0' <= c && c <= '9') || c == '+' || c
        == '/'
}

/// A salt in the form that `SaltString::generate` writes: 16 bytes in unpadded standard
/// Base64, that is 22 Base64 characters, the last of which carries two bits of data and
/// four zero bits, so that it is `A`, `Q`, `g` or `w`.
pub open spec fn is_generated_salt(s: Seq<char>) -> bool {
    &&& s.len() == 22
    &&& forall|i: int| 0 <= i < 22 ==> is_b64_char(#[trigger] s[i])
    &&& (s[21] == 'A' || s[21] == 'Q' || s[21] == 'g' || s[21] == 'w')
}

/// The longest password, in bytes, that Argon2 takes (`argon2::MAX_PWD_LEN`).
pub open spec fn argon2_max_password_bytes() -> nat {
    0xffff_ffff
}

/// The start of every PHC string that `Argon2::default()` writes: its algorithm is
/// Argon2id.
pub open spec fn argon2id_prefix() -> Seq<char> {
    "$argon2id$"@
}

/// Calls `SaltString::generate` with the operating system's random source, and gives the
/// salt in its B64 text form. The bytes are random; their encoding is 16 bytes
/// (`Salt::RECOMMENDED_LENGTH`) in unpadded standard Base64 (`Encoding::B64`).
#[verifier::external_body]
fn random_salt() -> (salt: String)
    ensures
        is_generated_salt(salt@),
{
    SaltString::generate(&mut OsRng).as_str().to_owned()
}

/// The PHC string of the Argon2 digest of `password` with the B64 salt `salt`.
pub uninterp spec fn argon2_phc(password: Seq<char>, salt: Seq<char>) -> Seq<char>;

/// Calls `Argon2::default().hash_password` with the salt that `Salt::from_b64` reads from
/// `salt`, and writes the digest as a PHC string. The digest is a function of the password
/// and the salt; `verify_password` accepts the password against it, since it recomputes
/// the digest with the salt and parameters that the string holds; the string starts with
/// the algorithm, `$argon2id$`. The call fails only on a salt that does not decode to 8 or
/// more bytes, or on a password longer than `MAX_PWD_LEN` bytes; so a generated salt and a
/// password within that length give a digest.
#[verifier::external_body]
fn argon2_hash(password: &str, salt: &str) -> (r: Result<String, argon2::password_hash::Error>)
    ensures
        is_generated_salt(salt@) && vstd::utf8::encode_utf8(password@).len()
            <= argon2_max_password_bytes() ==> r is Ok,
        r matches Ok(h) ==> h@ == argon2_phc(password@, salt@) && argon2_accepts(password@, h@)
            && argon2id_prefix().is_prefix_of(h@),
{
    match Salt::from_b64(salt) {
        Err(e) => Err(e),
        Ok(salt) => match Argon2::default().hash_password(password.as_bytes(), salt) {
            Ok(h) => Ok(h.to_string()),
            Err(e) => Err(e),
        },
    }
}

/// An Argon2id digest of `password` with a fresh random salt, as a PHC string. It is
/// given for every password of at most `MAX_PWD_LEN` bytes.
pub fn hash(password: &str) -> (r: Result<String, IdentityError>)
    ensures
        vstd::utf8::encode_utf8(password@).len() <= argon2_max_password_bytes() ==> r is Ok,
        r matches Ok(h) ==> argon2_accepts(password@, h@) && argon2id_prefix().is_prefix_of(h@)
            && exists|salt: Seq<char>| is_generated_salt(salt) && h@ == argon2_phc(password@, salt),
        r matches Err(e) ==> e == IdentityError::PasswordHashing,
{
    let salt = random_salt();
    match argon2_hash(password, salt.as_str()) {
        Ok(h) => Ok(h),
        Err(_) => Err(IdentityError::PasswordHashing),
    }
}

/// Whether `password` matches the Argon2 digest `encoded`.
pub fn verify(password: &str, encoded: &str) -> (ok: bool)
    ensures
        ok == argon2_accepts(password@, encoded@),
{
    argon2_verify(password, encoded)
}

/// A stored digest never is the password itself, unless the password is written like a
/// digest: every digest starts with `$argon2id$`.
pub proof fn digest_is_not_the_password(password: Seq<char>, digest: Seq<char>)
    requires
        argon2id_prefix().is_prefix_of(digest),
        !argon2id_prefix().is_prefix_of(password),
    ensures
        digest != password,
{
}

} // verus!
