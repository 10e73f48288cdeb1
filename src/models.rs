use vstd::prelude::*;

verus! {

/// One row of the accounts table: a unique username and the SHA-256 digest of
/// its password.
pub struct Account {
    pub username: String,
    pub password_hash: Vec<u8>,
}

/// The body of a sign-up or log-in request.
pub struct RequestParams {
    pub username: String,
    pub password: String,
}

/// The body of a change-password request.
pub struct ChangePassParams {
    pub oldpass: String,
    pub newpass: String,
}

} // verus!
