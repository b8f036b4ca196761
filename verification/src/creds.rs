//! The credential store: salted one-way digests of secrets, their
//! verification, and the derivation of opaque tokens.

use vstd::prelude::*;
use crate::err::ErrKind;
use crate::err::JadeErr;
use crate::err::fails_with;

verus! {

#[verifier::external_type_specification]
#[verifier::external_body]
pub struct ExBcryptError(bcrypt::BcryptError);

/// What `bcrypt::verify` answers for a plain text and a digest: `Some(true)`
/// when the digest was made from the plain text, `Some(false)` when it was
/// made from another, `None` when the digest is malformed.
pub uninterp spec fn digest_verdict(plain: Seq<char>, digest: Seq<char>) -> Option<bool>;

/// The number of characters of every digest that bcrypt writes.
pub open spec fn digest_len() -> nat {
    60
}

/// Calls `bcrypt::hash` with the crate's default cost. Trusted: a digest
/// that comes back is one that `bcrypt::verify` accepts for the same plain
/// text, since verification reads cost and salt out of the digest and
/// repeats the computation; and it is 60 characters long, the fixed size of
/// the text bcrypt writes. The salt is random, so nothing else is claimed of
/// the digest.
#[verifier::external_body]
fn bcrypt_hash(plain: &str) -> (r: Result<String, bcrypt::BcryptError>)
    ensures
        r matches Ok(digest) ==> digest_verdict(plain@, digest@) == Some(true) && digest@.len()
            == digest_len(),
{
    bcrypt::hash(plain, bcrypt::DEFAULT_COST)
}

/// Calls `bcrypt::verify`. Trusted: the answer depends on the two texts
/// alone, and is an error exactly when the verdict is `None`.
#[verifier::external_body]
fn bcrypt_verify(plain: &str, digest: &str) -> (r: Result<bool, bcrypt::BcryptError>)
    ensures
        match r {
            Ok(same) => digest_verdict(plain@, digest@) == Some(same),
            Err(_) => digest_verdict(plain@, digest@) is None,
        },
{
    bcrypt::verify(plain, digest)
}

/// The text bcrypt's `Display` gives for one of its errors. Nothing is
/// claimed of it.
#[verifier::external_body]
fn bcrypt_error_text(e: &bcrypt::BcryptError) -> (r: String) {
    e.to_string()
}

/// The error this library reports when hashing or verification fails.
fn hashing_failure(e: &bcrypt::BcryptError) -> (r: JadeErr)
    ensures
        r.kind == ErrKind::HashingError,
{
    JadeErr::of(ErrKind::HashingError, bcrypt_error_text(e))
}

/// Whether `digest` is a digest of `plain` as [`hash_secret`] makes them:
/// one that verifies against `plain`, of the fixed length of a digest. It
/// therefore differs from every plain text of another length.
pub open spec fn digest_of(plain: Seq<char>, digest: Seq<char>) -> bool {
    &&& digest_verdict(plain, digest) == Some(true)
    &&& digest.len() == digest_len()
    &&& plain.len() != digest_len() ==> digest != plain
}

/// A fresh salted digest of `plain`. Whatever digest comes back,
/// [`verify_secret`] accepts it for `plain`; the only failure is
/// `HashingError`.
pub fn hash_secret(plain: &str) -> (r: Result<String, JadeErr>)
    ensures
        r matches Ok(digest) ==> digest_of(plain@, digest@),
        r matches Err(e) ==> e.kind == ErrKind::HashingError,
{
    match bcrypt_hash(plain) {
        Ok(digest) => Ok(digest),
        Err(e) => Err(hashing_failure(&e)),
    }
}

/// Whether `r` is what [`verify_secret`] answers for `plain` and `digest`:
/// the verdict where there is one, and `HashingError` for a malformed
/// digest.
pub open spec fn answers_verdict(plain: Seq<char>, digest: Seq<char>, r: Result<bool, JadeErr>)
    -> bool {
    match digest_verdict(plain, digest) {
        Some(same) => r == Ok::<bool, JadeErr>(same),
        None => fails_with(r, ErrKind::HashingError),
    }
}

/// Whether `digest` was made from `plain`. A mismatch is `Ok(false)`; an
/// error is returned only for a malformed digest, as `HashingError`.
pub fn verify_secret(plain: &str, digest: &str) -> (r: Result<bool, JadeErr>)
    ensures
        answers_verdict(plain@, digest@, r),
{
    match bcrypt_verify(plain, digest) {
        Ok(same) => Ok(same),
        Err(e) => Err(hashing_failure(&e)),
    }
}

/// An opaque text derived from `seed`: a fresh digest of it, salted anew at
/// every call. Whatever text comes back verifies against the seed.
pub fn derive_token(seed: &str) -> (r: Result<String, JadeErr>)
    ensures
        r matches Ok(token) ==> digest_of(seed@, token@),
        r matches Err(e) ==> e.kind == ErrKind::HashingError,
{
    hash_secret(seed)
}

} // verus!
