//! Passwords: stored as bcrypt hashes and checked against them.

use vstd::prelude::*;

use crate::error::ErrorKind;

verus! {

/// The error of `bcrypt`, carried through and never looked into.
#[verifier::external_type_specification]
#[verifier::external_body]
pub struct ExBcryptError(bcrypt::BcryptError);

/// Whether `bcrypt::verify` finds that a password matches a hash, or `None`
/// where it reports an error: the hash is not of bcrypt's form.
pub uninterp spec fn password_verdict(password: Seq<char>, hash: Seq<char>) -> Option<bool>;

/// `bcrypt::verify`. The contract gives the outcome a name and says no more
/// of it.
#[verifier::external_body]
fn bcrypt_verify(password: &str, hash: &str) -> (outcome: Result<bool, bcrypt::BcryptError>)
    ensures
        match outcome {
            Ok(matches) => password_verdict(password@, hash@) == Some(matches),
            Err(_) => password_verdict(password@, hash@) is None,
        },
{
    bcrypt::verify(password, hash)
}

/// `bcrypt::hash` at `bcrypt::DEFAULT_COST`. The salt is random, so the hash
/// has no name. The contract claims of every hash that comes out that
/// `bcrypt::verify` finds the same password to match it: verifying hashes
/// the password again under the salt and cost that the hash records.
#[verifier::external_body]
fn bcrypt_hash(password: &str) -> (outcome: Result<String, bcrypt::BcryptError>)
    ensures
        outcome matches Ok(hash) ==> password_verdict(password@, hash@) == Some(true),
{
    bcrypt::hash(password, bcrypt::DEFAULT_COST)
}

/// What a verdict means for a login.
pub open spec fn password_outcome(verdict: Option<bool>) -> Result<(), ErrorKind> {
    match verdict {
        Some(true) => Ok(()),
        Some(false) => Err(ErrorKind::InvalidPassword),
        None => Err(ErrorKind::ValidationFailed),
    }
}

/// Turns a verdict into success or the failure to report: a password that
/// does not match is invalid, a hash that cannot be read fails validation.
pub fn judge_password(verdict: Option<bool>) -> (outcome: Result<(), ErrorKind>)
    ensures
        outcome == password_outcome(verdict),
{
    match verdict {
        Some(true) => Ok(()),
        Some(false) => Err(ErrorKind::InvalidPassword),
        None => Err(ErrorKind::ValidationFailed),
    }
}

/// Holds a password against a stored hash: whether it matches, or `None`
/// where the hash cannot be read.
pub fn verify_password(password: &str, hash: &str) -> (verdict: Option<bool>)
    ensures
        verdict == password_verdict(password@, hash@),
{
    bcrypt_verify(password, hash).ok()
}

/// Hashes a password for storage. A hash that comes out matches the
/// password.
pub fn hash_password(password: &str) -> (outcome: Result<String, ErrorKind>)
    ensures
        match outcome {
            Ok(hash) => password_verdict(password@, hash@) == Some(true),
            Err(kind) => kind == ErrorKind::HashingFailed,
        },
{
    match bcrypt_hash(password) {
        Ok(hash) => Ok(hash),
        Err(_) => Err(ErrorKind::HashingFailed),
    }
}

} // verus!
