//! Password hashing and checking with bcrypt.
use vstd::prelude::*;
use bcrypt::BcryptError;

verus! {

#[verifier::external_type_specification]
#[verifier::external_body]
pub struct ExBcryptError(bcrypt::BcryptError);

/// What `bcrypt::verify` answers for a password and a stored hash: whether
/// the hash is that of the password, or `None` where it reports an error
/// (a hash that does not parse, or a cost out of range).
pub uninterp spec fn bcrypt_verdict(password: Seq<char>, hash: Seq<char>) -> Option<bool>;

/// A password is accepted against a stored hash when bcrypt verifies it;
/// an error of the verification counts as a refusal.
pub open spec fn password_accepted(password: Seq<char>, hash: Seq<char>) -> bool {
    bcrypt_verdict(password, hash) == Some(true)
}

/// The form of every hash `bcrypt::hash` writes at the default cost:
/// 60 ASCII characters, the first seven `$2b$12$` (version, cost, then the
/// salt and the digest in bcrypt's base-64 alphabet).
pub open spec fn default_cost_hash_form(h: Seq<char>) -> bool {
    &&& h.len() == 60
    &&& h.subrange(0, 7) == "$2b$12$"@
    &&& forall|i: int| 0 <= i < h.len() ==> (#[trigger] h[i] as u32) < 128
}

/// `bcrypt::verify(password, hash)`. Its result is a function of the
/// password's bytes and the hash alone (the salt and the cost are read from
/// the hash), named `bcrypt_verdict`.
#[verifier::external_body]
fn bcrypt_verify(password: &str, hash: &str) -> (r: Result<bool, BcryptError>)
    ensures
        match r {
            Ok(b) => bcrypt_verdict(password@, hash@) == Some(b),
            Err(_) => bcrypt_verdict(password@, hash@) is None,
        },
{
    bcrypt::verify(password, hash)
}

/// `bcrypt::hash(password, bcrypt::DEFAULT_COST)`. The salt is drawn at
/// random, so nothing names the hash itself; what the crate's source shows
/// of every hash it returns is that `bcrypt::verify` accepts the same
/// password against it (both truncate the password the same way and read
/// back the salt and cost written into the hash), and that it is written as
/// `$2b$12$`, the 22-character salt and the 31-character digest. An error
/// can come from the random source; which one comes, if any, is not
/// stated.
#[verifier::external_body]
pub(crate) fn bcrypt_hash(password: &str) -> (r: Result<String, BcryptError>)
    ensures
        r matches Ok(h) ==> bcrypt_verdict(password@, h@) == Some(true),
        r matches Ok(h) ==> default_cost_hash_form(h@),
{
    bcrypt::hash(password, bcrypt::DEFAULT_COST)
}

/// Whether `password` matches the stored `hash` (`verify(..).unwrap_or(false)`).
pub fn check_password(password: &str, hash: &str) -> (ok: bool)
    ensures
        ok == password_accepted(password@, hash@),
{
    match bcrypt_verify(password, hash) {
        Ok(b) => b,
        Err(_) => false,
    }
}

/// A stored hash is never the password itself, unless the password has
/// the very form of a bcrypt hash.
pub proof fn law_hash_is_not_the_password(password: Seq<char>, hash: Seq<char>)
    requires
        default_cost_hash_form(hash),
        !default_cost_hash_form(password),
    ensures
        hash != password,
{
}

} // verus!
