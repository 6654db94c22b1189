//! Session tokens and password hashes.
use vstd::prelude::*;
use vstd::string::*;
use vstd::utf8::encode_utf8;
use crate::text::{decimal, decimal_nat, digit_char, hex_lower, hex_string, lemma_hex_lower_shape};
use sha2::Digest;
use rand::Rng;

verus! {

/// The SHA-256 digest of `data`.
pub uninterp spec fn sha256_digest(data: Seq<u8>) -> Seq<u8>;

/// Calls `sha2::Sha256::digest`: the result is the SHA-256 digest of the
/// bytes, which is 32 bytes long.
#[verifier::external_body]
fn sha256(data: &[u8]) -> (r: Vec<u8>)
    ensures
        r@ == sha256_digest(data@),
        r@.len() == 32,
{
    sha2::Sha256::digest(data).to_vec()
}

/// The largest suffix drawn for a token.
pub const TOKEN_SUFFIX_MAX: u32 = 10000000;

/// Calls `rand::thread_rng().gen_range(0..=TOKEN_SUFFIX_MAX)`: a number
/// drawn at random, within the inclusive range. Which number comes out is
/// left unsaid: it depends on chance.
#[verifier::external_body]
fn random_suffix() -> (n: u32)
    ensures
        n <= TOKEN_SUFFIX_MAX,
{
    rand::thread_rng().gen_range(0..=TOKEN_SUFFIX_MAX)
}

/// The text hashed into a token: the email, a dash and the suffix.
pub open spec fn clear_token(email: Seq<char>, suffix: nat) -> Seq<char> {
    email + seq!['-'] + decimal_nat(suffix)
}

/// The token issued to `email` for a given suffix: the lower-case
/// hexadecimal SHA-256 digest of the UTF-8 bytes of the clear token.
pub open spec fn token_for(email: Seq<char>, suffix: nat) -> Seq<char> {
    hex_lower(sha256_digest(encode_utf8(clear_token(email, suffix))))
}

/// The token issued to `email` when `suffix` was drawn.
pub fn token_with_suffix(email: &String, suffix: u32) -> (t: String)
    ensures
        t@ == token_for(email@, suffix as nat),
        t@.len() == 64,
{
    let mut clear = email.clone();
    proof { reveal_strlit("-"); }
    clear.append("-");
    let digits = decimal(suffix as i64);
    clear.append(digits.as_str());
    assert(clear@ == clear_token(email@, suffix as nat));
    let digest = sha256(clear.as_str().as_bytes());
    proof { lemma_hex_lower_shape(digest@); }
    hex_string(digest.as_slice())
}

/// Whether `t` is a token `email` may be issued: the token for some
/// suffix between 0 and `TOKEN_SUFFIX_MAX`, 64 characters long.
pub open spec fn is_fresh_token(email: Seq<char>, t: Seq<char>) -> bool {
    &&& t.len() == 64
    &&& exists|n: nat| n <= TOKEN_SUFFIX_MAX && t == #[trigger] token_for(email, n)
}

/// Every token issued is made of lower-case hexadecimal digits only.
pub proof fn law_tokens_are_hex(email: Seq<char>, t: Seq<char>)
    requires
        is_fresh_token(email, t),
    ensures
        forall|i: int| 0 <= i < t.len() ==> exists|d: int| 0 <= d < 16 && #[trigger] t[i] == digit_char(d),
{
    let n = choose|n: nat| n <= TOKEN_SUFFIX_MAX && t == #[trigger] token_for(email, n);
    lemma_hex_lower_shape(sha256_digest(encode_utf8(clear_token(email, n))));
}

/// A fresh session token for `email`: the token for a suffix drawn at
/// random between 0 and `TOKEN_SUFFIX_MAX`.
pub fn create_token(email: &String) -> (t: String)
    ensures
        is_fresh_token(email@, t@),
        t@.len() == 64,
{
    let n = random_suffix();
    token_with_suffix(email, n)
}

#[verifier::external_type_specification]
#[verifier::external_body]
pub struct ExBcryptError(bcrypt::BcryptError);

/// What `bcrypt::verify` reports for a password and a stored hash: whether
/// they match, or nothing when the hash cannot be read.
pub uninterp spec fn bcrypt_verification(password: Seq<char>, hash: Seq<char>) -> Option<bool>;

/// Calls `bcrypt::hash(password, bcrypt::DEFAULT_COST)`. The salt is drawn
/// from the OS, so the hash itself is left unsaid; what holds of every hash
/// it returns is that `bcrypt::verify` accepts the same password against it.
/// With the default cost, which is a valid one, the call fails only when the
/// OS cannot supply the salt; whether it does is left unsaid, as it rests
/// on the machine.
#[verifier::external_body]
fn bcrypt_hash(password: &str) -> (r: Result<String, bcrypt::BcryptError>)
    ensures
        r matches Ok(h) ==> bcrypt_verification(password@, h@) == Some(true),
{
    bcrypt::hash(password, bcrypt::DEFAULT_COST)
}

/// Calls `bcrypt::verify(password, hash)`: whether the password matches the
/// hash, or an error when the hash cannot be read.
#[verifier::external_body]
fn bcrypt_verify(password: &str, hash: &str) -> (r: Result<bool, bcrypt::BcryptError>)
    ensures
        r is Ok <==> bcrypt_verification(password@, hash@) is Some,
        r matches Ok(b) ==> bcrypt_verification(password@, hash@) == Some(b),
{
    bcrypt::verify(password, hash)
}

/// Hashes a password for storage; `None` when hashing failed, which happens
/// only when the OS cannot supply the random salt, whatever the password.
pub fn hash_password(password: &String) -> (r: Option<String>)
    ensures
        r matches Some(h) ==> bcrypt_verification(password@, h@) == Some(true),
{
    match bcrypt_hash(password.as_str()) {
        Ok(h) => Some(h),
        Err(_) => None,
    }
}

/// Checks a password against a stored hash; `None` when the hash cannot be
/// read.
pub fn verify_password(password: &String, hash: &String) -> (r: Option<bool>)
    ensures
        r == bcrypt_verification(password@, hash@),
{
    match bcrypt_verify(password.as_str(), hash.as_str()) {
        Ok(b) => Some(b),
        Err(_) => None,
    }
}

} // verus!
