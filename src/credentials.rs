use vstd::prelude::*;

verus! {

/// What bcrypt's verification says of `password` against the stored `hash`:
/// `None` where the hash string is not a well-formed bcrypt hash.
pub uninterp spec fn bcrypt_verdict(password: Seq<char>, hash: Seq<char>) -> Option<bool>;

/// Relies on bcrypt::hash at bcrypt::DEFAULT_COST. The salt is random, so
/// nothing is said of the string itself; but bcrypt::verify recomputes the
/// digest from the salt and cost that the string carries, so it accepts the
/// same password against every hash returned here.
#[verifier::external_body]
fn bcrypt_hash(password: &str) -> (r: Option<String>)
    ensures
        r matches Some(h) ==> bcrypt_verdict(password@, h@) == Some(true),
{
    bcrypt::hash(password, bcrypt::DEFAULT_COST).ok()
}

/// Relies on bcrypt::verify: `Err` for a malformed hash, otherwise whether the
/// password reproduces the stored digest.
#[verifier::external_body]
fn bcrypt_verify(password: &str, hash: &str) -> (r: Option<bool>)
    ensures
        r == bcrypt_verdict(password@, hash@),
{
    bcrypt::verify(password, hash).ok()
}

/// Hashes a password for storage; `None` when hashing fails.
pub fn hash_password(password: &str) -> (r: Option<String>)
    ensures
        r matches Some(h) ==> bcrypt_verdict(password@, h@) == Some(true),
{
    bcrypt_hash(password)
}

/// Checks a password against a stored hash; `None` when the hash is malformed.
pub fn verify_password(password: &str, hash: &str) -> (r: Option<bool>)
    ensures
        r == bcrypt_verdict(password@, hash@),
{
    bcrypt_verify(password, hash)
}

} // verus!
