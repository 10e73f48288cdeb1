use crate::digest::{lossy_text_of, sha256, sha256_of, text_of_bytes};
use crate::models::{Account, ChangePassParams, RequestParams};
use vstd::prelude::*;

verus! {

/// The text answers that the account endpoints send back.
#[derive(Clone, Copy, Debug, PartialEq, Eq, Structural)]
pub enum Reply {
    AccountCreated,
    UsernameExists,
    NoSuchUser,
    LoginSuccess,
    WrongPassword,
    InvalidSession,
    PasswordChanged,
    AccountDeleted,
}

/// The text of each answer.
pub open spec fn reply_text(r: Reply) -> Seq<char> {
    match r {
        Reply::AccountCreated => "Account created! <a href='/'>Login</a>"@,
        Reply::UsernameExists => "Username exists"@,
        Reply::NoSuchUser => "No such user"@,
        Reply::LoginSuccess => "LOGIN_SUCCESS"@,
        Reply::WrongPassword => "Wrong Password"@,
        Reply::InvalidSession => "Invalid session"@,
        Reply::PasswordChanged => "Password changed"@,
        Reply::AccountDeleted => "Account deleted"@,
    }
}

impl Reply {
    /// The text sent back for this answer.
    pub fn message(&self) -> (r: &'static str)
        ensures
            r@ == reply_text(*self),
    {
        match self {
            Reply::AccountCreated => "Account created! <a href='/'>Login</a>",
            Reply::UsernameExists => "Username exists",
            Reply::NoSuchUser => "No such user",
            Reply::LoginSuccess => "LOGIN_SUCCESS",
            Reply::WrongPassword => "Wrong Password",
            Reply::InvalidSession => "Invalid session",
            Reply::PasswordChanged => "Password changed",
            Reply::AccountDeleted => "Account deleted",
        }
    }
}

/// How a password digest compares with the rows loaded for a username.
#[derive(Clone, Copy, Debug, PartialEq, Eq, Structural)]
pub enum Credential {
    /// No row was found.
    Unknown,
    /// The first row holds another digest.
    Mismatch,
    /// The first row holds this digest.
    Match,
}

/// The first row found decides; an empty result means the user does not exist.
pub open spec fn credential_of(rows: Seq<Account>, given: Seq<u8>) -> Credential {
    if rows.len() == 0 {
        Credential::Unknown
    } else if rows[0].password_hash@ == given {
        Credential::Match
    } else {
        Credential::Mismatch
    }
}

fn same_bytes(a: &Vec<u8>, b: &Vec<u8>) -> (r: bool)
    ensures
        r == (a@ == b@),
{
    if a.len() != b.len() {
        return false;
    }
    let mut i: usize = 0;
    while i < a.len()
        invariant
            a@.len() == b@.len(),
            0 <= i <= a@.len(),
            forall|j: int| 0 <= j < i ==> a@[j] == b@[j],
        decreases a@.len() - i,
    {
        if a[i] != b[i] {
            return false;
        }
        i += 1;
    }
    assert(a@ =~= b@);
    true
}

/// Compares a password digest byte for byte with the one stored in the first
/// row loaded for a username.
pub fn check_hash(rows: &Vec<Account>, given: &Vec<u8>) -> (r: Credential)
    ensures
        r == credential_of(rows@, given@),
{
    if rows.len() == 0 {
        Credential::Unknown
    } else if same_bytes(&rows[0].password_hash, given) {
        Credential::Match
    } else {
        Credential::Mismatch
    }
}

/// What a request handler does next.
#[derive(Debug, PartialEq, Eq)]
pub enum Action {
    /// Load the rows of this username from the accounts table.
    LookUp(String),
    /// Keep this username in the identity cookie, then answer `LoginSuccess`.
    Remember(String),
    /// Store this digest as the user's password, then answer `PasswordChanged`.
    StoreHash(String, Vec<u8>),
    /// Delete the user's account and forget the identity, then answer
    /// `AccountDeleted`.
    Remove(String),
    /// Answer with this text; nothing else is done.
    Respond(Reply),
    /// The signed-in user has no row in the table: the request is abandoned.
    Abandon,
}

/// The answer sent once an action has been carried out; a lookup leads to a
/// further step instead, and an abandoned request gets none.
pub open spec fn reply_after_spec(a: Action) -> Option<Reply> {
    match a {
        Action::LookUp(_) => None,
        Action::Remember(_) => Some(Reply::LoginSuccess),
        Action::StoreHash(_, _) => Some(Reply::PasswordChanged),
        Action::Remove(_) => Some(Reply::AccountDeleted),
        Action::Respond(r) => Some(r),
        Action::Abandon => None,
    }
}

/// The answer sent once `action` has been carried out.
pub fn reply_after(action: &Action) -> (r: Option<Reply>)
    ensures
        r == reply_after_spec(*action),
{
    match action {
        Action::LookUp(_) => None,
        Action::Remember(_) => Some(Reply::LoginSuccess),
        Action::StoreHash(_, _) => Some(Reply::PasswordChanged),
        Action::Remove(_) => Some(Reply::AccountDeleted),
        Action::Respond(r) => Some(*r),
        Action::Abandon => None,
    }
}

/// The row that a sign-up request inserts: its username, and the digest of
/// its password.
pub fn new_account(params: &RequestParams) -> (a: Account)
    ensures
        a.username == params.username,
        a.password_hash@ == sha256_of(params.password@),
{
    Account { username: params.username.clone(), password_hash: sha256(params.password.as_str()) }
}

/// The answer to a sign-up request: the insert fails only where the username
/// is taken.
pub fn create_reply(inserted: bool) -> (r: Reply)
    ensures
        r == (if inserted {
            Reply::AccountCreated
        } else {
            Reply::UsernameExists
        }),
{
    if inserted {
        Reply::AccountCreated
    } else {
        Reply::UsernameExists
    }
}

/// A log-in request, once the rows of its username are loaded and the
/// digest of its password is known.
pub fn login_step_hashed(params: &RequestParams, given: &Vec<u8>, rows: &Vec<Account>) -> (r:
    Action)
    ensures
        r == match credential_of(rows@, given@) {
            Credential::Unknown => Action::Respond(Reply::NoSuchUser),
            Credential::Mismatch => Action::Respond(Reply::WrongPassword),
            Credential::Match => Action::Remember(params.username),
        },
{
    match check_hash(rows, given) {
        Credential::Unknown => Action::Respond(Reply::NoSuchUser),
        Credential::Mismatch => Action::Respond(Reply::WrongPassword),
        Credential::Match => Action::Remember(params.username.clone()),
    }
}

/// A log-in request, once the rows of its username are loaded: the user is
/// remembered only where the password's digest is the stored one.
pub fn login_step(params: &RequestParams, rows: &Vec<Account>) -> (r: Action)
    ensures
        r == match credential_of(rows@, sha256_of(params.password@)) {
            Credential::Unknown => Action::Respond(Reply::NoSuchUser),
            Credential::Mismatch => Action::Respond(Reply::WrongPassword),
            Credential::Match => Action::Remember(params.username),
        },
{
    let given = sha256(params.password.as_str());
    login_step_hashed(params, &given, rows)
}

/// The first step of a request that needs a signed-in user: look up the user
/// that the identity cookie names, or refuse without one.
pub fn session_step(identity: &Option<String>) -> (r: Action)
    ensures
        r == match *identity {
            Some(u) => Action::LookUp(u),
            None => Action::Respond(Reply::InvalidSession),
        },
{
    match identity {
        Some(u) => Action::LookUp(u.clone()),
        None => Action::Respond(Reply::InvalidSession),
    }
}

/// A change-password request of the signed-in `username`, once its rows are
/// loaded and the digests of the old and the new password are known.
pub fn chpass_step_hashed(
    username: &String,
    old_hash: &Vec<u8>,
    new_hash: Vec<u8>,
    rows: &Vec<Account>,
) -> (r: Action)
    ensures
        r == match credential_of(rows@, old_hash@) {
            Credential::Unknown => Action::Abandon,
            Credential::Mismatch => Action::Respond(Reply::WrongPassword),
            Credential::Match => Action::StoreHash(*username, new_hash),
        },
{
    match check_hash(rows, old_hash) {
        Credential::Unknown => Action::Abandon,
        Credential::Mismatch => Action::Respond(Reply::WrongPassword),
        Credential::Match => Action::StoreHash(username.clone(), new_hash),
    }
}

/// A change-password request of the signed-in `username`, once its rows are
/// loaded: the new password's digest is stored only where the old password
/// is confirmed.
pub fn chpass_step(username: &String, params: &ChangePassParams, rows: &Vec<Account>) -> (r:
    Action)
    ensures
        match credential_of(rows@, sha256_of(params.oldpass@)) {
            Credential::Unknown => r == Action::Abandon,
            Credential::Mismatch => r == Action::Respond(Reply::WrongPassword),
            Credential::Match => r matches Action::StoreHash(u, h) && u == *username && h@
                == sha256_of(params.newpass@),
        },
{
    let old_hash = sha256(params.oldpass.as_str());
    let new_hash = sha256(params.newpass.as_str());
    chpass_step_hashed(username, &old_hash, new_hash, rows)
}

/// A delete-account request of the signed-in `username`, once its rows are
/// loaded and the digest of the confirming password is known.
pub fn delacc_step_hashed(username: &String, given: &Vec<u8>, rows: &Vec<Account>) -> (r: Action)
    ensures
        r == match credential_of(rows@, given@) {
            Credential::Unknown => Action::Abandon,
            Credential::Mismatch => Action::Respond(Reply::WrongPassword),
            Credential::Match => Action::Remove(*username),
        },
{
    match check_hash(rows, given) {
        Credential::Unknown => Action::Abandon,
        Credential::Mismatch => Action::Respond(Reply::WrongPassword),
        Credential::Match => Action::Remove(username.clone()),
    }
}

/// A delete-account request of the signed-in `username`, whose body is the
/// password read as UTF-8: the account is removed only where that password is
/// confirmed.
pub fn delacc_step(username: &String, body: &[u8], rows: &Vec<Account>) -> (r: Action)
    ensures
        r == match credential_of(rows@, sha256_of(lossy_text_of(body@))) {
            Credential::Unknown => Action::Abandon,
            Credential::Mismatch => Action::Respond(Reply::WrongPassword),
            Credential::Match => Action::Remove(*username),
        },
{
    let password = text_of_bytes(body);
    let given = sha256(password.as_str());
    delacc_step_hashed(username, &given, rows)
}

/// The page served at the site's root.
#[derive(Debug, PartialEq, Eq)]
pub enum Page {
    /// The welcome page, greeting this user.
    Welcome(String),
    /// A redirect to the log-in form.
    ToLogin,
}

/// The root page: a signed-in user is welcomed, anyone else is sent to log in.
pub fn index_page(identity: &Option<String>) -> (r: Page)
    ensures
        r == match *identity {
            Some(u) => Page::Welcome(u),
            None => Page::ToLogin,
        },
{
    match identity {
        Some(u) => Page::Welcome(u.clone()),
        None => Page::ToLogin,
    }
}

/// An account made from a sign-up request lets its own password log in, and
/// refuses every password whose digest differs from the stored one.
pub proof fn signup_then_login(params: RequestParams, account: Account, other: Seq<char>)
    requires
        account.username == params.username,
        account.password_hash@ == sha256_of(params.password@),
    ensures
        credential_of(seq![account], sha256_of(params.password@)) == Credential::Match,
        sha256_of(other) != sha256_of(params.password@) ==> credential_of(
            seq![account],
            sha256_of(other),
        ) == Credential::Mismatch,
{
}

} // verus!
