//! Password hashing, left to the bcrypt library.
use vstd::prelude::*;

verus! {

/// The error type of the bcrypt library, opaque to the verifier.
#[verifier::external_type_specification]
#[verifier::external_body]
pub struct ExBcryptError(bcrypt::BcryptError);

/// The smallest work factor that the bcrypt library accepts.
pub const MIN_HASH_COST: u32 = 4;

/// The largest work factor that the bcrypt library accepts.
pub const MAX_HASH_COST: u32 = 31;

/// What the bcrypt library says of a password held against a hash: whether
/// the password is the one that was hashed, or nothing if `hash` is not a
/// bcrypt hash.
pub uninterp spec fn password_verdict(password: Seq<char>, hash: Seq<char>) -> Option<bool>;

/// `bcrypt::hash`: hashes `password` at the work factor `cost` with a salt
/// drawn at random.
///
/// Trusted: a work factor outside 4 to 31 is refused, and a hash that was
/// produced matches the password it was produced from. Which hash comes out
/// depends on the salt, so nothing more is said of it.
#[verifier::external_body]
pub(crate) fn hash_password(password: &str, cost: u32) -> (r: Result<String, bcrypt::BcryptError>)
    ensures
        cost < MIN_HASH_COST || cost > MAX_HASH_COST ==> r is Err,
        r matches Ok(hash) ==> password_verdict(password@, hash@) == Some(true),
{
    bcrypt::hash(password, cost)
}

/// `bcrypt::verify`: recomputes the hash of `password` with the salt and the
/// work factor stored in `hash` and compares. It fails if `hash` is not a
/// bcrypt hash.
///
/// Trusted: the result is a function of the password and the hash.
#[verifier::external_body]
pub(crate) fn verify_password(password: &str, hash: &str) -> (r: Result<bool, bcrypt::BcryptError>)
    ensures
        match r {
            Ok(matches) => password_verdict(password@, hash@) == Some(matches),
            Err(_) => password_verdict(password@, hash@) is None,
        },
{
    bcrypt::verify(password, hash)
}

} // verus!
