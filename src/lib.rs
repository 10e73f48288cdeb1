//! Account sign-up, log-in, password change and deletion: the decisions taken
//! for each request, given what the accounts table and the session cookie hold.

pub mod digest;
pub mod flow;
pub mod models;
