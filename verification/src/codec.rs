//! Credential codec: one-way password hashing and verification, built on
//! the bcrypt crate. The outcome of a verification is deterministic in the
//! password and the hash, so it is given a name, `verify_outcome`, and the
//! round trip promised by the hashing function is stated through that name.

use vstd::prelude::*;

verus! {

#[verifier::external_type_specification]
#[verifier::external_body]
pub struct ExBcryptError(bcrypt::BcryptError);

/// What bcrypt::verify returns for a password and a stored hash:
/// `None` when the hash is not structurally a bcrypt hash (the call fails),
/// otherwise `Some` of whether the password matches. The result depends on
/// the two arguments alone.
pub uninterp spec fn verify_outcome(password: Seq<char>, hashed: Seq<char>) -> Option<bool>;

/// Hash a password.
///
/// Relies on bcrypt::hash with the default cost: the call fails only on a
/// salt-generation fault, never on the password's content, and bcrypt
/// guarantees that verifying a password against its own fresh hash
/// succeeds and reports a match.
#[verifier::external_body]
pub fn hash_password(password: &str) -> (r: Result<String, bcrypt::BcryptError>)
    ensures
        r matches Ok(h) ==> verify_outcome(password@, h@) == Some(true),
{
    bcrypt::hash(password, bcrypt::DEFAULT_COST)
}

/// Verify a password against a stored hash.
///
/// Relies on bcrypt::verify: it parses the hash — failing exactly when
/// the hash is malformed, a check that reads the hash alone, so the
/// password's content never causes an error — and otherwise recomputes
/// and compares, all deterministic in the two arguments.
#[verifier::external_body]
pub fn verify_password(password: &str, hashed: &str) -> (r: Result<bool, bcrypt::BcryptError>)
    ensures
        match r {
            Ok(b) => verify_outcome(password@, hashed@) == Some(b),
            Err(_) => verify_outcome(password@, hashed@) is None,
        },
        r is Err ==> forall|p: Seq<char>| verify_outcome(p, hashed@) is None,
{
    bcrypt::verify(password, hashed)
}

} // verus!
