use vstd::prelude::*;

verus! {

/// Raised when bcrypt itself refuses to hash or to check a password;
/// a wrong password is not an error but a `false` answer.
#[derive(Debug, Clone, Copy, PartialEq, Eq, Structural)]
pub enum PasswordError {
    HashingFailed,
}

#[verifier::external_type_specification]
#[verifier::external_body]
pub struct ExBcryptError(bcrypt::BcryptError);

/// Relies on bcrypt::verify: checks `password` against the bcrypt hash
/// `hashed`.  Whether they match is bcrypt's judgement of the hash text,
/// so only the shape of the outcome is stated.
#[verifier::external_body]
fn bcrypt_verify(password: &str, hashed: &str) -> (r: Result<bool, bcrypt::BcryptError>) {
    bcrypt::verify(password, hashed)
}

/// Relies on bcrypt::hash at the default cost.  The salt comes from the
/// operating system, so the hash text differs from call to call and
/// nothing can be said of it.
#[verifier::external_body]
fn bcrypt_hash(password: &str) -> (r: Result<String, bcrypt::BcryptError>) {
    bcrypt::hash(password, bcrypt::DEFAULT_COST)
}

/// Whether `password` is the one `hashed` was made from, as bcrypt
/// judges it.
pub fn password_verify(password: &str, hashed: &str) -> (r: Result<bool, PasswordError>)
    ensures
        r is Err ==> r->Err_0 == PasswordError::HashingFailed,
{
    match bcrypt_verify(password, hashed) {
        Ok(matched) => Ok(matched),
        Err(_) => Err(PasswordError::HashingFailed),
    }
}

/// Hashes a password for storage, salted by the operating system.
pub fn hash_password(password: &str) -> (r: Result<String, PasswordError>)
    ensures
        r is Err ==> r->Err_0 == PasswordError::HashingFailed,
{
    match bcrypt_hash(password) {
        Ok(hashed) => Ok(hashed),
        Err(_) => Err(PasswordError::HashingFailed),
    }
}

} // verus!
