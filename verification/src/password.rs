//! Password hashing with bcrypt.

use vstd::prelude::*;

verus! {

/// What `bcrypt::verify` answers for a password and a stored hash: whether
/// the password matches, or `None` where the hash cannot be read.
pub uninterp spec fn bcrypt_verdict(password: Seq<char>, hash: Seq<char>) -> Option<bool>;

/// Hashes a password with `bcrypt::hash` at `bcrypt::DEFAULT_COST`, under a
/// random salt drawn from the operating system. The salt makes the hash
/// random, so the contract does not name it; it claims what the crate's
/// source shows of every hash it returns: it is 60 characters long, starts
/// with `$2b$12$` (version 2b, cost 12), `bcrypt::verify` accepts the
/// password against it, and `bcrypt::verify` can read it whatever password
/// it is given (`split_hash` reads back what `format` wrote, and the cost is
/// in range). `None` stands for the crate's error, which comes only
/// where no random salt could be drawn.
#[verifier::external_body]
pub(crate) fn hash_password(password: &str) -> (r: Option<String>)
    ensures
        r matches Some(h) ==> h@.len() == 60 && h@.subrange(0, 7) == "$2b$12$"@ && bcrypt_verdict(
            password@,
            h@,
        ) == Some(true),
        r matches Some(h) ==> forall|p: Seq<char>| #[trigger] bcrypt_verdict(p, h@) is Some,
{
    match bcrypt::hash(password, bcrypt::DEFAULT_COST) {
        Ok(h) => Some(h),
        Err(_) => None,
    }
}

/// Checks a password against a stored hash with `bcrypt::verify`; `None`
/// stands for the crate's error (a hash it cannot read).
#[verifier::external_body]
pub(crate) fn verify_password(password: &str, hash: &str) -> (r: Option<bool>)
    ensures
        r == bcrypt_verdict(password@, hash@),
{
    match bcrypt::verify(password, hash) {
        Ok(b) => Some(b),
        Err(_) => None,
    }
}

} // verus!
