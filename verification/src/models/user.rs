use vstd::prelude::*;

verus! {

/// What it takes to register a user.
#[derive(Debug)]
pub struct UserCreate {
    pub username: String,
    pub password: String,
    pub secret: String,
}

/// A login attempt.
#[derive(Debug)]
pub struct UserLogin {
    pub username: String,
    pub password: String,
}

/// A password change request.
#[derive(Debug)]
pub struct UserChangePassword {
    pub old_password: String,
    pub new_password: String,
    pub new_password_again: String,
}

/// A request to delete a user account.
#[derive(Debug)]
pub struct UserDelete {
    pub force: bool,
    pub secret: String,
}

} // verus!
