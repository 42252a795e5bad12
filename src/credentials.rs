use vstd::prelude::*;
use argon2::password_hash::rand_core::OsRng;
use argon2::password_hash::{PasswordHash, PasswordHasher, PasswordVerifier, SaltString};
use argon2::Argon2;

verus! {

/// Passwords of at most this many characters always fit Argon2's input
/// limit of `u32::MAX` bytes, since a character takes at most 4 bytes in UTF-8.
pub const MAX_PASSWORD_CHARS: usize = 0x3fff_ffff;

/// Whether Argon2 with default parameters accepts `password` against the PHC
/// string `hash` (false where `hash` does not parse).
pub uninterp spec fn argon2_accepts(password: Seq<char>, hash: Seq<char>) -> bool;

/// The B64 text of Argon2id's 32-byte output, with default parameters, for
/// `password` under the B64 salt `salt`.
pub uninterp spec fn argon2_output(password: Seq<char>, salt: Seq<char>) -> Seq<char>;

pub open spec fn is_b64_char(c: char) -> bool {
    ('A' <= c && c <= 'Z') || ('a' <= c && c <= 'z') || ('0' <= c && c <= '9') || c == '+' || c
        == '/'
}

/// The canonical unpadded B64 text of 16 salt bytes: 22 characters, the last
/// one carrying no stray low bits.
pub open spec fn salt_ok(s: Seq<char>) -> bool {
    &&& s.len() == 22
    &&& forall|i: int| 0 <= i < 22 ==> is_b64_char(#[trigger] s[i])
    &&& (s[21] == 'A' || s[21] == 'Q' || s[21] == 'g' || s[21] == 'w')
}

/// Algorithm, version and cost parameters of `Argon2::default()` in PHC form.
pub open spec fn default_params_prefix() -> Seq<char> {
    "$argon2id$v=19$m=19456,t=2,p=1$"@
}

/// A stored hash made with the default algorithm and cost parameters.
pub open spec fn has_default_params(h: Seq<char>) -> bool {
    h.len() >= 31 && h.subrange(0, 31) == default_params_prefix()
}

/// The PHC string that hashing `password` with salt `salt` yields.
pub open spec fn phc_string(password: Seq<char>, salt: Seq<char>) -> Seq<char> {
    default_params_prefix() + salt + "$"@ + argon2_output(password, salt)
}

/// Every PHC string has the default parameters, and strings made under two
/// different well-formed salts differ, whatever the passwords.
pub proof fn lemma_phc_string(p1: Seq<char>, s1: Seq<char>, p2: Seq<char>, s2: Seq<char>)
    ensures
        has_default_params(phc_string(p1, s1)),
        phc_string(p1, s1).len() > 0,
        salt_ok(s1) && salt_ok(s2) && s1 != s2 ==> phc_string(p1, s1) != phc_string(p2, s2),
{
    reveal_strlit("$argon2id$v=19$m=19456,t=2,p=1$");
    let h1 = phc_string(p1, s1);
    let h2 = phc_string(p2, s2);
    assert(h1.subrange(0, 31) =~= default_params_prefix());
    if salt_ok(s1) && salt_ok(s2) {
        assert(h1.subrange(31, 53) =~= s1);
        assert(h2.subrange(31, 53) =~= s2);
    }
}

/// Relies on `SaltString::generate(&mut OsRng)`: 16 random bytes from the
/// operating system, encoded as canonical unpadded B64.
#[verifier::external_body]
pub(crate) fn generate_salt() -> (r: String)
    ensures
        salt_ok(r@),
{
    SaltString::generate(&mut OsRng).as_str().to_string()
}

/// Relies on `SaltString::from_b64` and on
/// `Argon2::default().hash_password(..).to_string()`. The PHC string is
/// `$argon2id$v=19$m=19456,t=2,p=1$`, the salt, `$` and the B64 output;
/// verifying the same password against it recomputes the same output, so it
/// is accepted. With a canonical salt, hashing fails only for passwords over
/// `u32::MAX` bytes.
#[verifier::external_body]
pub(crate) fn hash_password(password: &str, salt: &str) -> (r: Result<String, ()>)
    ensures
        r is Ok ==> r->Ok_0@ == default_params_prefix() + salt@ + "$"@ + argon2_output(
            password@,
            salt@,
        ),
        r is Ok ==> argon2_accepts(password@, r->Ok_0@),
        salt_ok(salt@) && password@.len() <= MAX_PASSWORD_CHARS ==> r is Ok,
{
    let salt = match SaltString::from_b64(salt) {
        Ok(s) => s,
        Err(_) => return Err(()),
    };
    match Argon2::default().hash_password(password.as_bytes(), &salt) {
        Ok(h) => Ok(h.to_string()),
        Err(_) => Err(()),
    }
}

/// Relies on `PasswordHash::new` to parse the stored PHC string and on
/// `Argon2::default().verify_password` to check the password against it; the
/// answer depends on the two strings alone. The default cost parameters keep
/// the work bounded.
#[verifier::external_body]
pub(crate) fn verify_password(password: &str, hash: &str) -> (r: bool)
    requires
        has_default_params(hash@),
    ensures
        r == argon2_accepts(password@, hash@),
{
    match PasswordHash::new(hash) {
        Ok(parsed) => Argon2::default().verify_password(password.as_bytes(), &parsed).is_ok(),
        Err(_) => false,
    }
}

} // verus!
