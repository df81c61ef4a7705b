use crate::claims::{JwtSecret, RefreshTokenClaims};
use crate::constants::{
    CODE_ACCOUNT_ALREADY_EXISTS, CODE_ACCOUNT_NOT_EXISTS, CODE_DATE_OPERATION_ERROR,
    CODE_INTERNAL_SERVER_ERROR, CODE_WRONG_ACCOUNT_OR_PASSWORD,
};
use crate::credentials::{bcrypt_verdict, hash_password, verify_password};
use crate::ids::next_account_id;
use crate::tokens::{
    access_token_spec, jwt_claims_of, refresh_check, refresh_token_spec, refresh_view,
};
use crate::user::{
    LoginUserReply, LoginUserRequest, NewAccount, RefreshTokenReply, RefreshTokenRequest,
    RegisterUserRequest, StorageError, User,
};
use vstd::prelude::*;

verus! {

/// The authentication service. It keeps no state of its own beyond the token
/// secrets: each operation runs in steps, and the repository's answers come in
/// as arguments.
pub struct UserService {
    pub jwt_secret: JwtSecret,
}

/// What a successful login hands back, as plain values.
pub struct LoginView {
    pub username: Seq<char>,
    pub email: Seq<char>,
    pub role: Seq<char>,
    pub access_token: Seq<char>,
    pub refresh_token: Seq<char>,
    pub access_expire_time: i64,
    pub refresh_expire_time: i64,
}

pub open spec fn login_view(r: Result<LoginUserReply, u16>) -> Result<LoginView, u16> {
    match r {
        Ok(p) => Ok(
            LoginView {
                username: p.username@,
                email: p.email@,
                role: p.role@,
                access_token: p.access_token@,
                refresh_token: p.refresh_token@,
                access_expire_time: p.access_expire_time,
                refresh_expire_time: p.refresh_expire_time,
            },
        ),
        Err(e) => Err(e),
    }
}

pub open spec fn refresh_reply_view(r: Result<RefreshTokenReply, u16>) -> Result<(Seq<char>, i64), u16> {
    match r {
        Ok(p) => Ok((p.access_token@, p.access_expire_time)),
        Err(e) => Err(e),
    }
}

/// An account prepared for a registration: it keeps the username and email,
/// and its stored hash is one that the password passes.
pub open spec fn prepared_account(
    username: Seq<char>,
    email: Seq<char>,
    password: Seq<char>,
    acc: NewAccount,
) -> bool {
    acc.username@ == username && acc.email@ == email && bcrypt_verdict(password, acc.password_hash@)
        == Some(true)
}

/// The code that a failed insert turns into.
pub open spec fn insert_error_code(e: StorageError) -> u16 {
    match e {
        StorageError::UniqueViolation => CODE_ACCOUNT_ALREADY_EXISTS,
        StorageError::Other => CODE_DATE_OPERATION_ERROR,
    }
}

/// Login, given what the lookup by email returned and the time `now`.
pub open spec fn login_spec(
    secret: JwtSecret,
    password: Seq<char>,
    existing: Result<Option<User>, StorageError>,
    now: i64,
) -> Result<LoginView, u16> {
    match existing {
        Err(_) => Err(CODE_DATE_OPERATION_ERROR),
        Ok(None) => Err(CODE_ACCOUNT_NOT_EXISTS),
        Ok(Some(u)) => match bcrypt_verdict(password, u.password_hash@) {
            None => Err(CODE_INTERNAL_SERVER_ERROR),
            Some(false) => Err(CODE_WRONG_ACCOUNT_OR_PASSWORD),
            Some(true) => match access_token_spec(
                secret.access_secret@,
                secret.access_validity_period,
                u.email@,
                u.role@,
                now,
            ) {
                Err(e) => Err(e),
                Ok((at, ae)) => match refresh_token_spec(
                    secret.refresh_secret@,
                    secret.refresh_validity_period,
                    u.email@,
                    now,
                ) {
                    Err(e) => Err(e),
                    Ok((rt, re)) => Ok(
                        LoginView {
                            username: u.username@,
                            email: u.email@,
                            role: u.role@,
                            access_token: at,
                            refresh_token: rt,
                            access_expire_time: ae,
                            refresh_expire_time: re,
                        },
                    ),
                },
            },
        },
    }
}

/// The second step of a refresh, given what the lookup by the token's subject
/// returned and the time `now`: a fresh access token, the refresh token itself
/// is kept.
pub open spec fn refresh_reply_spec(
    secret: JwtSecret,
    existing: Result<Option<User>, StorageError>,
    now: i64,
) -> Result<(Seq<char>, i64), u16> {
    match existing {
        Err(_) => Err(CODE_DATE_OPERATION_ERROR),
        Ok(None) => Err(CODE_ACCOUNT_NOT_EXISTS),
        Ok(Some(u)) => access_token_spec(
            secret.access_secret@,
            secret.access_validity_period,
            u.email@,
            u.role@,
            now,
        ),
    }
}

impl UserService {
    pub fn new(jwt_secret: JwtSecret) -> (r: Self)
        ensures
            r.jwt_secret == jwt_secret,
    {
        UserService { jwt_secret }
    }

    /// First step of a registration, given what the lookup by email returned:
    /// an account that already holds the email refuses it; otherwise the
    /// password is hashed and a fresh id drawn, and the account to insert comes
    /// back.
    pub fn register(&self, user: &RegisterUserRequest, existing: Result<Option<User>, StorageError>) -> (r:
        Result<NewAccount, u16>)
        ensures
            existing is Err ==> r == Err::<NewAccount, u16>(CODE_DATE_OPERATION_ERROR),
            existing matches Ok(Some(_)) ==> r == Err::<NewAccount, u16>(
                CODE_ACCOUNT_ALREADY_EXISTS,
            ),
            existing matches Ok(None) ==> match r {
                Ok(acc) => prepared_account(user.username@, user.email@, user.password@, acc),
                Err(e) => e == CODE_DATE_OPERATION_ERROR,
            },
    {
        match existing {
            Err(_) => Err(CODE_DATE_OPERATION_ERROR),
            Ok(Some(_)) => Err(CODE_ACCOUNT_ALREADY_EXISTS),
            Ok(None) => match hash_password(user.password.as_str()) {
                None => Err(CODE_DATE_OPERATION_ERROR),
                Some(password_hash) => {
                    let id = next_account_id();
                    Ok(
                        NewAccount {
                            id,
                            username: user.username.clone(),
                            email: user.email.clone(),
                            password_hash,
                        },
                    )
                },
            },
        }
    }

    /// Last step of a registration, given what the insert returned: the
    /// storage's uniqueness guard refusing it means the email was taken
    /// meanwhile.
    pub fn finish_register(inserted: Result<(), StorageError>) -> (r: Result<(), u16>)
        ensures
            match inserted {
                Ok(()) => r is Ok,
                Err(e) => r == Err::<(), u16>(insert_error_code(e)),
            },
    {
        match inserted {
            Ok(()) => Ok(()),
            Err(StorageError::UniqueViolation) => Err(CODE_ACCOUNT_ALREADY_EXISTS),
            Err(StorageError::Other) => Err(CODE_DATE_OPERATION_ERROR),
        }
    }

    /// Login, given what the lookup by the request's email returned and the
    /// time `now`: the password is checked against the stored hash, then an
    /// access and a refresh token are issued.
    pub fn login(
        &self,
        user: &LoginUserRequest,
        existing: Result<Option<User>, StorageError>,
        now: i64,
    ) -> (r: Result<LoginUserReply, u16>)
        ensures
            login_view(r) == login_spec(self.jwt_secret, user.password@, existing, now),
    {
        match existing {
            Err(_) => Err(CODE_DATE_OPERATION_ERROR),
            Ok(None) => Err(CODE_ACCOUNT_NOT_EXISTS),
            Ok(Some(u)) => match verify_password(user.password.as_str(), u.password_hash.as_str()) {
                None => Err(CODE_INTERNAL_SERVER_ERROR),
                Some(false) => Err(CODE_WRONG_ACCOUNT_OR_PASSWORD),
                Some(true) => {
                    let (access_token, access_expire_time) = match self.jwt_secret.issue_access(
                        &u.email,
                        &u.role,
                        now,
                    ) {
                        Ok(issued) => issued,
                        Err(e) => {
                            return Err(e);
                        },
                    };
                    let (refresh_token, refresh_expire_time) = match self.jwt_secret.issue_refresh(
                        &u.email,
                        now,
                    ) {
                        Ok(issued) => issued,
                        Err(e) => {
                            return Err(e);
                        },
                    };
                    Ok(
                        LoginUserReply {
                            username: u.username,
                            email: u.email,
                            role: u.role,
                            access_token,
                            refresh_token,
                            access_expire_time,
                            refresh_expire_time,
                        },
                    )
                },
            },
        }
    }

    /// First step of a refresh: the token must verify under the refresh
    /// secret, carry the refresh discriminator and not have expired at `now`.
    /// Its claims come back, and their subject is the email to look up.
    pub fn refresh_token(&self, req: &RefreshTokenRequest, now: i64) -> (r: Result<
        RefreshTokenClaims,
        u16,
    >)
        ensures
            refresh_view(r) == refresh_check(
                jwt_claims_of(req.refresh_token@, self.jwt_secret.refresh_secret@),
                now,
            ),
    {
        self.jwt_secret.verify_refresh(req.refresh_token.as_str(), now)
    }

    /// Last step of a refresh, given what the lookup by the token's subject
    /// returned: a new access token is issued at `now`.
    pub fn finish_refresh(&self, existing: Result<Option<User>, StorageError>, now: i64) -> (r:
        Result<RefreshTokenReply, u16>)
        ensures
            refresh_reply_view(r) == refresh_reply_spec(self.jwt_secret, existing, now),
    {
        match existing {
            Err(_) => Err(CODE_DATE_OPERATION_ERROR),
            Ok(None) => Err(CODE_ACCOUNT_NOT_EXISTS),
            Ok(Some(u)) => match self.jwt_secret.issue_access(&u.email, &u.role, now) {
                Ok((access_token, access_expire_time)) => Ok(
                    RefreshTokenReply { access_token, access_expire_time },
                ),
                Err(e) => Err(e),
            },
        }
    }
}

} // verus!
