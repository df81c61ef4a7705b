use vstd::prelude::*;

verus! {

/// A stored account, as the repository hands it out. Timestamps are unix seconds.
pub struct User {
    pub id: i64,
    pub username: String,
    pub email: String,
    pub password_hash: String,
    pub created_at: i64,
    pub updated_at: i64,
    pub is_active: bool,
    pub role: String,
}

/// Why the repository could not do what it was asked.
#[derive(Clone, Copy, Debug, PartialEq, Eq, Structural)]
pub enum StorageError {
    /// The storage's uniqueness constraint refused an insert.
    UniqueViolation,
    /// Any other storage failure.
    Other,
}

/// An account that registration has prepared for insertion.
pub struct NewAccount {
    pub id: i64,
    pub username: String,
    pub email: String,
    pub password_hash: String,
}

pub struct RegisterUserRequest {
    pub username: String,
    pub email: String,
    pub password: String,
}

pub struct LoginUserRequest {
    pub email: String,
    pub password: String,
}

pub struct RefreshTokenRequest {
    pub refresh_token: String,
}

pub struct LoginUserReply {
    pub username: String,
    pub email: String,
    pub role: String,
    pub access_token: String,
    pub refresh_token: String,
    pub access_expire_time: i64,
    pub refresh_expire_time: i64,
}

pub struct RefreshTokenReply {
    pub access_token: String,
    pub access_expire_time: i64,
}

/// Whether validator accepts `s` as an email address (the HTML5 form rule).
pub uninterp spec fn html5_email(s: Seq<char>) -> bool;

/// Relies on validator's `ValidateEmail::validate_email` for `&str`.
#[verifier::external_body]
fn is_email(s: &str) -> (r: bool)
    ensures
        r == html5_email(s@),
{
    validator::ValidateEmail::validate_email(&s)
}

/// The least number of characters a password must have.
pub const PASSWORD_MIN_LEN: usize = 6;

pub open spec fn register_request_valid(username: Seq<char>, email: Seq<char>, password: Seq<char>) -> bool {
    username.len() >= 1 && html5_email(email) && password.len() >= PASSWORD_MIN_LEN
}

impl RegisterUserRequest {
    /// A registration needs a non-empty username, an email address and a
    /// password of at least six characters.
    pub fn validate(&self) -> (r: bool)
        ensures
            r == register_request_valid(self.username@, self.email@, self.password@),
    {
        self.username.unicode_len() >= 1 && is_email(self.email.as_str())
            && self.password.unicode_len() >= PASSWORD_MIN_LEN
    }
}

impl LoginUserRequest {
    /// A login needs an email address and a password of at least six characters.
    pub fn validate(&self) -> (r: bool)
        ensures
            r == (html5_email(self.email@) && self.password@.len() >= PASSWORD_MIN_LEN),
    {
        is_email(self.email.as_str()) && self.password.unicode_len() >= PASSWORD_MIN_LEN
    }
}

impl RefreshTokenRequest {
    /// A refresh request needs a non-empty token.
    pub fn validate(&self) -> (r: bool)
        ensures
            r == (self.refresh_token@.len() >= 1),
    {
        self.refresh_token.unicode_len() >= 1
    }
}

} // verus!
