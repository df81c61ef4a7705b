use crate::claims::JwtSecret;
use crate::constants::{
    CODE_ACCOUNT_NOT_EXISTS, CODE_PARAMETER_ERROR, CODE_WRONG_ACCOUNT_OR_PASSWORD,
};
use crate::credentials::bcrypt_verdict;
use crate::tokens::{access_token_spec, first_value, refresh_check, refresh_token_spec, CLAIM_EXP};
use crate::user::{NewAccount, StorageError, User};
use crate::user_service::{login_spec, prepared_account, refresh_reply_spec};
use vstd::prelude::*;

verus! {

/// Registering and then logging in with the same email and password succeeds
/// and hands back the registered username and email and the stored role,
/// wherever the repository returns the account as it was inserted and both
/// tokens can be signed.
pub proof fn lemma_register_then_login(
    secret: JwtSecret,
    username: Seq<char>,
    email: Seq<char>,
    password: Seq<char>,
    acc: NewAccount,
    stored: User,
    now: i64,
)
    requires
        prepared_account(username, email, password, acc),
        stored.username@ == acc.username@,
        stored.email@ == acc.email@,
        stored.password_hash@ == acc.password_hash@,
        access_token_spec(
            secret.access_secret@,
            secret.access_validity_period,
            stored.email@,
            stored.role@,
            now,
        ) is Ok,
        refresh_token_spec(
            secret.refresh_secret@,
            secret.refresh_validity_period,
            stored.email@,
            now,
        ) is Ok,
    ensures
        login_spec(secret, password, Ok(Some(stored)), now) matches Ok(v) && v.username == username
            && v.email == email && v.role == stored.role@,
{
}

/// Login with a password that the stored hash refuses is always the
/// wrong-password error, never the unknown-account one.
pub proof fn lemma_wrong_password(secret: JwtSecret, password: Seq<char>, stored: User, now: i64)
    requires
        bcrypt_verdict(password, stored.password_hash@) == Some(false),
    ensures
        login_spec(secret, password, Ok(Some(stored)), now) == Err::<
            crate::user_service::LoginView,
            u16,
        >(CODE_WRONG_ACCOUNT_OR_PASSWORD),
{
}

/// Login with an email that no account holds is always the unknown-account error.
pub proof fn lemma_unknown_email(secret: JwtSecret, password: Seq<char>, now: i64)
    ensures
        login_spec(secret, password, Ok(None::<User>), now) == Err::<
            crate::user_service::LoginView,
            u16,
        >(CODE_ACCOUNT_NOT_EXISTS),
{
}

/// A refresh hands out an access token that expires exactly one access
/// validity period after the time of the refresh.
pub proof fn lemma_refreshed_access_expiry(
    secret: JwtSecret,
    existing: Result<Option<User>, StorageError>,
    now: i64,
)
    ensures
        refresh_reply_spec(secret, existing, now) matches Ok((_, exp)) ==> exp == now
            + secret.access_validity_period,
{
}

/// A refresh token whose expiry is not after `now` is refused with the
/// parameter error.
pub proof fn lemma_expired_refresh_refused(
    decoded: Option<(Seq<(Seq<char>, Seq<char>)>, Seq<(Seq<char>, i64)>)>,
    now: i64,
)
    requires
        decoded matches Some((_, n)) && first_value(n, CLAIM_EXP@) matches Some(exp) && exp <= now,
    ensures
        refresh_check(decoded, now) == Err::<(Seq<char>, i64, Seq<char>), u16>(
            CODE_PARAMETER_ERROR,
        ),
{
}

} // verus!
