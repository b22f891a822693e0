//! Password hashing and checking, by `bcrypt`.

use vstd::prelude::*;

verus! {

/// A failure of `bcrypt`: a cost out of range, a malformed hash, or no
/// randomness from the system.
#[verifier::external_type_specification]
#[verifier::external_body]
pub struct ExBcryptError(bcrypt::BcryptError);

/// What `bcrypt::verify` answers for a password and a stored hash: whether the
/// password matches, or `None` when the hash cannot be read.
pub uninterp spec fn bcrypt_verify(password: Seq<char>, hash: Seq<char>) -> Option<bool>;

/// A character of the base-64 alphabet that bcrypt writes salts and hashes in.
pub open spec fn is_bcrypt_base64_char(c: char) -> bool {
    ||| c == '.'
    ||| c == '/'
    ||| ('A' <= c && c <= 'Z')
    ||| ('a' <= c && c <= 'z')
    ||| ('0' <= c && c <= '9')
}

/// A stored bcrypt hash made at `cost`: `$2b$`, the cost as two decimal
/// digits, `$`, then 22 characters of salt and 31 of hash, all in bcrypt's
/// base-64 alphabet.
pub open spec fn is_bcrypt_hash_at(h: Seq<char>, cost: u32) -> bool {
    &&& h.len() == 60
    &&& h[0] == '$' && h[1] == '2' && h[2] == 'b' && h[3] == '$'
    &&& h[4] as int == 48 + cost / 10
    &&& h[5] as int == 48 + cost % 10
    &&& h[6] == '$'
    &&& forall|i: int| 7 <= i < 60 ==> is_bcrypt_base64_char(#[trigger] h[i])
}

/// Calls `bcrypt::hash` on the UTF-8 bytes of `password`. The salt is random, so
/// the hash is not named; the contract claims what `bcrypt`'s source shows of
/// every outcome: a cost outside 4..=31 is refused, and a hash that is made is
/// one that `bcrypt::verify` accepts for the same password (it reads back the
/// cost and salt and hashes the password again). A made hash is written as
/// `${version}${cost:02}${salt}{hash}` with version `2b`, a 16-byte salt and a
/// 23-byte hash, both in bcrypt's unpadded base 64.
#[verifier::external_body]
fn bcrypt_hash(password: &str, cost: u32) -> (r: Result<String, bcrypt::BcryptError>)
    ensures
        !(4 <= cost <= 31) ==> r is Err,
        r matches Ok(h) ==> bcrypt_verify(password@, h@) == Some(true),
        r matches Ok(h) ==> is_bcrypt_hash_at(h@, cost),
{
    bcrypt::hash(password, cost)
}

/// Calls `bcrypt::verify`; the contract ties its answer to `bcrypt_verify`.
#[verifier::external_body]
fn bcrypt_check(password: &str, hash: &str) -> (r: Result<bool, bcrypt::BcryptError>)
    ensures
        match r {
            Ok(b) => bcrypt_verify(password@, hash@) == Some(b),
            Err(_) => bcrypt_verify(password@, hash@) is None,
        },
{
    bcrypt::verify(password, hash)
}

/// A password could not be hashed or checked.
#[derive(Debug)]
pub struct PasswordError;

/// Hashes a password for storage with the given bcrypt cost. Every hash it
/// gives is a bcrypt hash at that cost and is accepted by `verify_password`
/// for the same password.
pub fn hash_password(password: &str, cost: u32) -> (r: Result<String, PasswordError>)
    ensures
        !(4 <= cost <= 31) ==> r is Err,
        r matches Ok(h) ==> bcrypt_verify(password@, h@) == Some(true),
        r matches Ok(h) ==> is_bcrypt_hash_at(h@, cost),
{
    match bcrypt_hash(password, cost) {
        Ok(h) => Ok(h),
        Err(_) => Err(PasswordError),
    }
}

/// Checks a password against a stored hash.
pub fn verify_password(password: &str, hashed: &str) -> (r: Result<bool, PasswordError>)
    ensures
        match bcrypt_verify(password@, hashed@) {
            Some(b) => r == Ok::<bool, PasswordError>(b),
            None => r is Err,
        },
{
    match bcrypt_check(password, hashed) {
        Ok(b) => Ok(b),
        Err(_) => Err(PasswordError),
    }
}

} // verus!
