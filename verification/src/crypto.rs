//! The credential hasher: one-way, salted digests of passwords, and their check.

use vstd::prelude::*;

verus! {

/// What `bcrypt::verify` returns for a password and a digest: whether the
/// password matches, or the text of its error for a digest it cannot read.
pub uninterp spec fn bcrypt_verify(password: Seq<char>, digest: Seq<char>) -> Result<bool, Seq<char>>;

/// An outcome of the hasher with its texts as sequences of characters.
pub open spec fn outcome_view<T>(outcome: Result<T, String>) -> Result<T, Seq<char>> {
    match outcome {
        Ok(value) => Ok(value),
        Err(detail) => Err(detail@),
    }
}

/// A digest of the hasher with its texts as sequences of characters.
pub open spec fn digest_view(outcome: Result<String, String>) -> Result<Seq<char>, Seq<char>> {
    match outcome {
        Ok(digest) => Ok(digest@),
        Err(detail) => Err(detail@),
    }
}

/// `digest` is one that the hasher may return for `password`: checking the
/// password against it succeeds.
pub open spec fn is_digest_of(password: Seq<char>, digest: Seq<char>) -> bool {
    bcrypt_verify(password, digest) == Ok::<bool, Seq<char>>(true)
}

/// Calls `bcrypt::hash` at the crate's `DEFAULT_COST`, with the error as text.
///
/// The salt is drawn at random, so the digest is not a function of the
/// password. What is claimed of every digest that comes back: `bcrypt::verify`
/// accepts the same password against it. `hash` writes the cost and the salt
/// into the digest, and `verify` reads them back and repeats the computation.
#[verifier::external_body]
fn bcrypt_hash_default(password: &str) -> (outcome: Result<String, String>)
    ensures
        outcome matches Ok(digest) ==> is_digest_of(password@, digest@),
{
    bcrypt::hash(password, bcrypt::DEFAULT_COST).map_err(|e| e.to_string())
}

/// Calls `bcrypt::verify`, with the error as text.
///
/// The result depends on the two texts alone; the contract names it.
#[verifier::external_body]
fn bcrypt_verify_text(password: &str, digest: &str) -> (outcome: Result<bool, String>)
    ensures
        outcome_view(outcome) == bcrypt_verify(password@, digest@),
{
    bcrypt::verify(password, digest).map_err(|e| e.to_string())
}

/// A fresh salted digest of `password`, or the text of the hasher's failure.
///
/// Whatever digest is returned, `verify_password` accepts `password` against it.
pub fn hash_password(password: &str) -> (outcome: Result<String, String>)
    ensures
        outcome matches Ok(digest) ==> is_digest_of(password@, digest@),
{
    bcrypt_hash_default(password)
}

/// Whether `password` matches the digest `hash_str`, or the text of the
/// hasher's failure where `hash_str` is no digest.
pub fn verify_password(password: &str, hash_str: &str) -> (outcome: Result<bool, String>)
    ensures
        outcome_view(outcome) == bcrypt_verify(password@, hash_str@),
{
    bcrypt_verify_text(password, hash_str)
}

/// Round trip: whatever digest `hash_password` returns for a password,
/// `verify_password` answers `Ok(true)` for that password and that digest.
///
/// `hashed` stands for what `hash_password` returned and `verified` for what
/// `verify_password` then returned, each as its contract describes it.
pub proof fn law_digest_verifies_its_password(
    password: Seq<char>,
    hashed: Result<Seq<char>, Seq<char>>,
    verified: Result<bool, Seq<char>>,
)
    requires
        hashed matches Ok(digest) ==> is_digest_of(password, digest),
        hashed matches Ok(digest) && verified == bcrypt_verify(password, digest),
    ensures
        verified == Ok::<bool, Seq<char>>(true),
{
}

} // verus!
