use std::collections::HashSet;
use user_auth::claims::JwtSecret;
use user_auth::constants::{
    CODE_ACCOUNT_ALREADY_EXISTS, CODE_ACCOUNT_NOT_EXISTS, CODE_DATE_OPERATION_ERROR,
    CODE_INTERNAL_SERVER_ERROR, CODE_PARAMETER_ERROR, CODE_WRONG_ACCOUNT_OR_PASSWORD,
};
use user_auth::user::{
    LoginUserRequest, NewAccount, RefreshTokenRequest, RegisterUserRequest, StorageError, User,
};
use user_auth::user_service::UserService;

const NOW: i64 = 1_700_000_000;

fn service() -> UserService {
    UserService::new(JwtSecret {
        access_secret: "access-secret".to_string(),
        access_validity_period: 900,
        refresh_secret: "refresh-secret".to_string(),
        refresh_validity_period: 604_800,
    })
}

fn register_req(username: &str, email: &str, password: &str) -> RegisterUserRequest {
    RegisterUserRequest {
        username: username.to_string(),
        email: email.to_string(),
        password: password.to_string(),
    }
}

fn login_req(email: &str, password: &str) -> LoginUserRequest {
    LoginUserRequest { email: email.to_string(), password: password.to_string() }
}

/// The row that storage would hold after inserting `acc`, with its defaults.
fn stored(acc: &NewAccount) -> User {
    User {
        id: acc.id,
        username: acc.username.clone(),
        email: acc.email.clone(),
        password_hash: acc.password_hash.clone(),
        created_at: NOW,
        updated_at: NOW,
        is_active: true,
        role: "user".to_string(),
    }
}

/// A stored account with a cheap (cost 4) hash of `password`.
fn cheap_user(email: &str, password: &str) -> User {
    let hash = bcrypt::hash_with_salt(password, 4, [7u8; 16]).unwrap();
    User {
        id: 1,
        username: "bob".to_string(),
        email: email.to_string(),
        password_hash: hash.format_for_version(bcrypt::Version::TwoB),
        created_at: NOW,
        updated_at: NOW,
        is_active: true,
        role: "admin".to_string(),
    }
}

#[test]
fn register_with_taken_email_refused() {
    let s = service();
    let existing = cheap_user("alice@x.com", "whatever");
    let r = s.register(&register_req("someone-else", "alice@x.com", "secret1"), Ok(Some(existing)));
    assert_eq!(r.err(), Some(CODE_ACCOUNT_ALREADY_EXISTS));
    let existing = cheap_user("alice@x.com", "whatever");
    let r = s.register(&register_req("bob", "alice@x.com", "secret1"), Ok(Some(existing)));
    assert_eq!(r.err(), Some(CODE_ACCOUNT_ALREADY_EXISTS));
}

#[test]
fn register_lookup_failure_is_data_error() {
    let r = service().register(&register_req("alice", "alice@x.com", "secret1"), Err(StorageError::Other));
    assert_eq!(r.err(), Some(CODE_DATE_OPERATION_ERROR));
}

#[test]
fn insert_outcomes() {
    assert_eq!(UserService::finish_register(Ok(())), Ok(()));
    assert_eq!(
        UserService::finish_register(Err(StorageError::UniqueViolation)),
        Err(CODE_ACCOUNT_ALREADY_EXISTS)
    );
    assert_eq!(UserService::finish_register(Err(StorageError::Other)), Err(CODE_DATE_OPERATION_ERROR));
}

#[test]
fn login_unknown_email() {
    let r = service().login(&login_req("nobody@x.com", "secret1"), Ok(None), NOW);
    assert_eq!(r.err(), Some(CODE_ACCOUNT_NOT_EXISTS));
}

#[test]
fn login_lookup_failure_is_data_error() {
    let r = service().login(&login_req("a@x.com", "secret1"), Err(StorageError::Other), NOW);
    assert_eq!(r.err(), Some(CODE_DATE_OPERATION_ERROR));
}

#[test]
fn login_wrong_password() {
    let u = cheap_user("bob@x.com", "secret1");
    let r = service().login(&login_req("bob@x.com", "secret2"), Ok(Some(u)), NOW);
    assert_eq!(r.err(), Some(CODE_WRONG_ACCOUNT_OR_PASSWORD));
}

#[test]
fn login_with_malformed_stored_hash() {
    let mut u = cheap_user("bob@x.com", "secret1");
    u.password_hash = "plain".to_string();
    let r = service().login(&login_req("bob@x.com", "secret1"), Ok(Some(u)), NOW);
    assert_eq!(r.err(), Some(CODE_INTERNAL_SERVER_ERROR));
}

#[test]
fn login_success_reply() {
    let u = cheap_user("bob@x.com", "secret1");
    let r = service().login(&login_req("bob@x.com", "secret1"), Ok(Some(u)), NOW).unwrap();
    assert_eq!(r.username, "bob");
    assert_eq!(r.email, "bob@x.com");
    assert_eq!(r.role, "admin");
    assert_eq!(r.access_expire_time, NOW + 900);
    assert_eq!(r.refresh_expire_time, NOW + 604_800);
    assert!(!r.access_token.is_empty());
    assert!(!r.refresh_token.is_empty());
    assert_ne!(r.access_token, r.refresh_token);
}

#[test]
fn refresh_after_login() {
    let s = service();
    let u = cheap_user("bob@x.com", "secret1");
    let reply = s.login(&login_req("bob@x.com", "secret1"), Ok(Some(u)), NOW).unwrap();
    let later = NOW + 60;
    let claims = s
        .refresh_token(&RefreshTokenRequest { refresh_token: reply.refresh_token.clone() }, later)
        .unwrap();
    assert_eq!(claims.sub, "bob@x.com");
    let again = cheap_user("bob@x.com", "secret1");
    let fresh = s.finish_refresh(Ok(Some(again)), later).unwrap();
    assert_eq!(fresh.access_expire_time, later + 900);
    assert!(fresh.access_expire_time > NOW + 900);
    assert!(!fresh.access_token.is_empty());
    let stolen = RefreshTokenRequest { refresh_token: reply.access_token.clone() };
    assert_eq!(s.refresh_token(&stolen, later).err(), Some(CODE_PARAMETER_ERROR));
}

#[test]
fn refresh_for_vanished_account() {
    let s = service();
    assert_eq!(s.finish_refresh(Ok(None), NOW).err(), Some(CODE_ACCOUNT_NOT_EXISTS));
    assert_eq!(s.finish_refresh(Err(StorageError::Other), NOW).err(), Some(CODE_DATE_OPERATION_ERROR));
}

#[test]
fn refresh_with_expired_token() {
    let s = service();
    let (token, exp) = s.jwt_secret.issue_refresh(&"bob@x.com".to_string(), NOW).unwrap();
    let r = s.refresh_token(&RefreshTokenRequest { refresh_token: token }, exp + 1);
    assert_eq!(r.err(), Some(CODE_PARAMETER_ERROR));
}

#[test]
fn alice_end_to_end() {
    let s = service();
    let acc = s.register(&register_req("alice", "alice@x.com", "secret1"), Ok(None)).unwrap();
    assert_eq!(acc.username, "alice");
    assert_eq!(acc.email, "alice@x.com");
    assert_ne!(acc.password_hash, "secret1");
    assert_eq!(UserService::finish_register(Ok(())), Ok(()));
    let row = stored(&acc);
    let reply = s.login(&login_req("alice@x.com", "secret1"), Ok(Some(row)), NOW).unwrap();
    assert_eq!(reply.username, "alice");
    assert_eq!(reply.email, "alice@x.com");
    assert_eq!(reply.role, "user");
    assert!(!reply.access_token.is_empty());
    assert!(!reply.refresh_token.is_empty());
    assert!(reply.access_expire_time > NOW);
    let wrong = s.login(&login_req("alice@x.com", "wrong"), Ok(Some(stored(&acc))), NOW);
    assert_eq!(wrong.err(), Some(CODE_WRONG_ACCOUNT_OR_PASSWORD));
    let stolen = RefreshTokenRequest { refresh_token: reply.access_token };
    assert_eq!(s.refresh_token(&stolen, NOW).err(), Some(CODE_PARAMETER_ERROR));
}

#[test]
fn ids_are_unique_across_many_calls() {
    let options = idgenerator::IdGeneratorOptions::new().worker_id(1).worker_id_bit_len(6);
    idgenerator::IdInstance::init(options).unwrap();
    let mut seen = HashSet::new();
    for _ in 0..10_000 {
        assert!(seen.insert(idgenerator::IdInstance::next_id()));
    }
}
