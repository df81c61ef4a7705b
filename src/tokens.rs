use crate::claims::{AccessTokenClaims, JwtSecret, RefreshTokenClaims};
use crate::constants::{CODE_INTERNAL_SERVER_ERROR, CODE_PARAMETER_ERROR};
use jsonwebtoken::{Algorithm, DecodingKey, EncodingKey, Header, Validation};
use serde_json::Value;
use std::collections::BTreeMap;
use vstd::prelude::*;

verus! {

pub const CLAIM_SUB: &'static str = "sub";
pub const CLAIM_EXP: &'static str = "exp";
pub const CLAIM_IAT: &'static str = "iat";
pub const CLAIM_ROLE: &'static str = "role";
pub const CLAIM_TOKEN_TYPE: &'static str = "token_type";
/// The discriminator that marks a refresh token.
pub const REFRESH_TOKEN_TYPE: &'static str = "refresh";

/// Text-valued claims, as (name, value) pairs.
pub type TextClaims = Vec<(String, String)>;

/// Integer-valued claims, as (name, value) pairs.
pub type NumberClaims = Vec<(String, i64)>;

pub open spec fn texts_view(v: Seq<(String, String)>) -> Seq<(Seq<char>, Seq<char>)> {
    v.map_values(|p: (String, String)| (p.0@, p.1@))
}

pub open spec fn numbers_view(v: Seq<(String, i64)>) -> Seq<(Seq<char>, i64)> {
    v.map_values(|p: (String, i64)| (p.0@, p.1))
}

pub open spec fn token_view(r: Option<String>) -> Option<Seq<char>> {
    match r {
        Some(t) => Some(t@),
        None => None,
    }
}

pub open spec fn decoded_view(r: Option<(TextClaims, NumberClaims)>) -> Option<
    (Seq<(Seq<char>, Seq<char>)>, Seq<(Seq<char>, i64)>),
> {
    match r {
        Some((t, n)) => Some((texts_view(t@), numbers_view(n@))),
        None => None,
    }
}

/// The HS256 token that jsonwebtoken makes of these claims under `secret`,
/// or `None` where it fails to make one.
pub uninterp spec fn jwt_of(
    texts: Seq<(Seq<char>, Seq<char>)>,
    numbers: Seq<(Seq<char>, i64)>,
    secret: Seq<char>,
) -> Option<Seq<char>>;

/// The text and integer claims of `token` where its HS256 signature checks
/// out under `secret`; `None` otherwise.
pub uninterp spec fn jwt_claims_of(token: Seq<char>, secret: Seq<char>) -> Option<
    (Seq<(Seq<char>, Seq<char>)>, Seq<(Seq<char>, i64)>),
>;

/// Relies on jsonwebtoken::encode with the default header (HS256): the claims
/// go in as one JSON object; the token depends on them and the secret alone.
#[verifier::external_body]
fn jwt_encode(texts: &TextClaims, numbers: &NumberClaims, secret: &str) -> (r: Option<String>)
    ensures
        token_view(r) == jwt_of(texts_view(texts@), numbers_view(numbers@), secret@),
{
    let mut claims: BTreeMap<String, Value> = BTreeMap::new();
    for (k, v) in texts.iter() {
        claims.insert(k.clone(), Value::from(v.clone()));
    }
    for (k, v) in numbers.iter() {
        claims.insert(k.clone(), Value::from(*v));
    }
    let key = EncodingKey::from_secret(secret.as_bytes());
    jsonwebtoken::encode(&Header::default(), &claims, &key).ok()
}

/// Relies on jsonwebtoken::decode under HS256 with the expiry check switched
/// off (the caller compares the expiry with its own clock), so that the
/// outcome depends on the token and the secret alone; the token must still
/// carry an `exp` claim. String and integer claims are handed back.
#[verifier::external_body]
fn jwt_decode(token: &str, secret: &str) -> (r: Option<(TextClaims, NumberClaims)>)
    ensures
        decoded_view(r) == jwt_claims_of(token@, secret@),
{
    let mut validation = Validation::new(Algorithm::HS256);
    validation.validate_exp = false;
    let key = DecodingKey::from_secret(secret.as_bytes());
    let data = jsonwebtoken::decode::<BTreeMap<String, Value>>(token, &key, &validation).ok()?;
    let (mut texts, mut numbers) = (Vec::new(), Vec::new());
    for (k, v) in data.claims {
        match v {
            Value::String(s) => texts.push((k, s)),
            Value::Number(n) => numbers.extend(n.as_i64().map(|i| (k, i))),
            _ => {},
        }
    }
    Some((texts, numbers))
}

/// The value of the first claim named `key`.
pub open spec fn first_value<V>(c: Seq<(Seq<char>, V)>, key: Seq<char>) -> Option<V>
    decreases c.len(),
{
    if c.len() == 0 {
        None
    } else if c[0].0 == key {
        Some(c[0].1)
    } else {
        first_value(c.drop_first(), key)
    }
}

/// Looks up a text claim by name.
pub fn find_text(c: &TextClaims, key: &String) -> (r: Option<String>)
    ensures
        token_view(r) == first_value(texts_view(c@), key@),
{
    let ghost all = texts_view(c@);
    let mut i: usize = 0;
    assert(all.subrange(0, all.len() as int) =~= all);
    while i < c.len()
        invariant
            i <= c.len(),
            all == texts_view(c@),
            first_value(all, key@) == first_value(all.subrange(i as int, all.len() as int), key@),
        decreases c.len() - i,
    {
        let ghost rest = all.subrange(i as int, all.len() as int);
        assert(rest[0] == all[i as int]);
        assert(all[i as int].0 == c@[i as int].0@);
        if c[i].0.eq(key) {
            return Some(c[i].1.clone());
        }
        assert(rest.drop_first() =~= all.subrange(i + 1, all.len() as int));
        i = i + 1;
    }
    assert(all.subrange(i as int, all.len() as int).len() == 0);
    None
}

/// Looks up an integer claim by name.
pub fn find_number(c: &NumberClaims, key: &String) -> (r: Option<i64>)
    ensures
        r == first_value(numbers_view(c@), key@),
{
    let ghost all = numbers_view(c@);
    let mut i: usize = 0;
    assert(all.subrange(0, all.len() as int) =~= all);
    while i < c.len()
        invariant
            i <= c.len(),
            all == numbers_view(c@),
            first_value(all, key@) == first_value(all.subrange(i as int, all.len() as int), key@),
        decreases c.len() - i,
    {
        let ghost rest = all.subrange(i as int, all.len() as int);
        assert(rest[0] == all[i as int]);
        assert(all[i as int].0 == c@[i as int].0@);
        if c[i].0.eq(key) {
            return Some(c[i].1);
        }
        assert(rest.drop_first() =~= all.subrange(i + 1, all.len() as int));
        i = i + 1;
    }
    assert(all.subrange(i as int, all.len() as int).len() == 0);
    None
}

/// `now + period`, where it fits in an `i64`.
pub open spec fn expiry(now: i64, period: i64) -> Option<i64> {
    if i64::MIN <= now + period <= i64::MAX {
        Some((now + period) as i64)
    } else {
        None
    }
}

pub open spec fn access_texts(sub: Seq<char>, role: Seq<char>) -> Seq<(Seq<char>, Seq<char>)> {
    seq![(CLAIM_SUB@, sub), (CLAIM_ROLE@, role)]
}

pub open spec fn access_numbers(exp: i64, iat: i64) -> Seq<(Seq<char>, i64)> {
    seq![(CLAIM_EXP@, exp), (CLAIM_IAT@, iat)]
}

pub open spec fn refresh_texts(sub: Seq<char>) -> Seq<(Seq<char>, Seq<char>)> {
    seq![(CLAIM_SUB@, sub), (CLAIM_TOKEN_TYPE@, REFRESH_TOKEN_TYPE@)]
}

pub open spec fn refresh_numbers(exp: i64) -> Seq<(Seq<char>, i64)> {
    seq![(CLAIM_EXP@, exp)]
}

/// A token with its expiry, or the internal error where signing fails.
pub open spec fn signed(
    texts: Seq<(Seq<char>, Seq<char>)>,
    numbers: Seq<(Seq<char>, i64)>,
    secret: Seq<char>,
    exp: i64,
) -> Result<(Seq<char>, i64), u16> {
    match jwt_of(texts, numbers, secret) {
        Some(t) => Ok((t, exp)),
        None => Err(CODE_INTERNAL_SERVER_ERROR),
    }
}

/// The access token for `sub` and `role` issued at `now`: it expires `period`
/// seconds later and is signed with the access secret.
pub open spec fn access_token_spec(
    secret: Seq<char>,
    period: i64,
    sub: Seq<char>,
    role: Seq<char>,
    now: i64,
) -> Result<(Seq<char>, i64), u16> {
    match expiry(now, period) {
        Some(exp) => signed(access_texts(sub, role), access_numbers(exp, now), secret, exp),
        None => Err(CODE_INTERNAL_SERVER_ERROR),
    }
}

/// The refresh token for `sub` issued at `now`: it expires `period` seconds
/// later, carries the refresh discriminator and is signed with the refresh secret.
pub open spec fn refresh_token_spec(secret: Seq<char>, period: i64, sub: Seq<char>, now: i64) -> Result<
    (Seq<char>, i64),
    u16,
> {
    match expiry(now, period) {
        Some(exp) => signed(refresh_texts(sub), refresh_numbers(exp), secret, exp),
        None => Err(CODE_INTERNAL_SERVER_ERROR),
    }
}

pub open spec fn issued_view(r: Result<(String, i64), u16>) -> Result<(Seq<char>, i64), u16> {
    match r {
        Ok((t, exp)) => Ok((t@, exp)),
        Err(e) => Err(e),
    }
}

/// What a refresh token's claims amount to at `now`: subject, expiry and
/// discriminator where all three are present, the discriminator is the
/// refresh one and the expiry lies after `now`; the parameter error otherwise.
pub open spec fn refresh_check(
    decoded: Option<(Seq<(Seq<char>, Seq<char>)>, Seq<(Seq<char>, i64)>)>,
    now: i64,
) -> Result<(Seq<char>, i64, Seq<char>), u16> {
    match decoded {
        None => Err(CODE_PARAMETER_ERROR),
        Some((t, n)) => match (
            first_value(t, CLAIM_SUB@),
            first_value(n, CLAIM_EXP@),
            first_value(t, CLAIM_TOKEN_TYPE@),
        ) {
            (Some(sub), Some(exp), Some(ty)) => if ty == REFRESH_TOKEN_TYPE@ && exp > now {
                Ok((sub, exp, ty))
            } else {
                Err(CODE_PARAMETER_ERROR)
            },
            _ => Err(CODE_PARAMETER_ERROR),
        },
    }
}

pub open spec fn refresh_view(r: Result<RefreshTokenClaims, u16>) -> Result<
    (Seq<char>, i64, Seq<char>),
    u16,
> {
    match r {
        Ok(c) => Ok((c.sub@, c.exp, c.token_type@)),
        Err(e) => Err(e),
    }
}

impl AccessTokenClaims {
    /// The claim lists that an access token carries.
    pub fn to_claims(&self) -> (r: (TextClaims, NumberClaims))
        ensures
            texts_view(r.0@) == access_texts(self.sub@, self.role@),
            numbers_view(r.1@) == access_numbers(self.exp, self.iat),
    {
        let texts = vec![
            (CLAIM_SUB.to_owned(), self.sub.clone()),
            (CLAIM_ROLE.to_owned(), self.role.clone()),
        ];
        let numbers = vec![(CLAIM_EXP.to_owned(), self.exp), (CLAIM_IAT.to_owned(), self.iat)];
        assert(texts_view(texts@) =~= access_texts(self.sub@, self.role@));
        assert(numbers_view(numbers@) =~= access_numbers(self.exp, self.iat));
        (texts, numbers)
    }
}

impl RefreshTokenClaims {
    /// The claim lists that a refresh token carries; the discriminator is
    /// always the refresh one.
    pub fn to_claims(&self) -> (r: (TextClaims, NumberClaims))
        ensures
            texts_view(r.0@) == refresh_texts(self.sub@),
            numbers_view(r.1@) == refresh_numbers(self.exp),
    {
        let texts = vec![
            (CLAIM_SUB.to_owned(), self.sub.clone()),
            (CLAIM_TOKEN_TYPE.to_owned(), REFRESH_TOKEN_TYPE.to_owned()),
        ];
        let numbers = vec![(CLAIM_EXP.to_owned(), self.exp)];
        assert(texts_view(texts@) =~= refresh_texts(self.sub@));
        assert(numbers_view(numbers@) =~= refresh_numbers(self.exp));
        (texts, numbers)
    }
}

/// Signs claim lists; a failure to sign is the internal error.
pub fn sign_claims(texts: &TextClaims, numbers: &NumberClaims, secret: &str, exp: i64) -> (r:
    Result<(String, i64), u16>)
    ensures
        issued_view(r) == signed(texts_view(texts@), numbers_view(numbers@), secret@, exp),
{
    match jwt_encode(texts, numbers, secret) {
        Some(t) => Ok((t, exp)),
        None => Err(CODE_INTERNAL_SERVER_ERROR),
    }
}

/// Reads decoded claims as a refresh token's at `now`; see `refresh_check`.
pub fn check_refresh_claims(decoded: Option<(TextClaims, NumberClaims)>, now: i64) -> (r: Result<
    RefreshTokenClaims,
    u16,
>)
    ensures
        refresh_view(r) == refresh_check(decoded_view(decoded), now),
{
    match decoded {
        None => Err(CODE_PARAMETER_ERROR),
        Some((texts, numbers)) => {
            let sub = find_text(&texts, &CLAIM_SUB.to_owned());
            let exp = find_number(&numbers, &CLAIM_EXP.to_owned());
            let ty = find_text(&texts, &CLAIM_TOKEN_TYPE.to_owned());
            match (sub, exp, ty) {
                (Some(sub), Some(exp), Some(ty)) => {
                    if ty.eq(&REFRESH_TOKEN_TYPE.to_owned()) && exp > now {
                        Ok(RefreshTokenClaims { sub, exp, token_type: ty })
                    } else {
                        Err(CODE_PARAMETER_ERROR)
                    }
                },
                _ => Err(CODE_PARAMETER_ERROR),
            }
        },
    }
}

impl JwtSecret {
    /// Issues an access token for `sub` and `role` at `now`.
    pub fn issue_access(&self, sub: &String, role: &String, now: i64) -> (r: Result<(String, i64), u16>)
        ensures
            issued_view(r) == access_token_spec(
                self.access_secret@,
                self.access_validity_period,
                sub@,
                role@,
                now,
            ),
    {
        match now.checked_add(self.access_validity_period) {
            Some(exp) => {
                let claims = AccessTokenClaims { sub: sub.clone(), exp, iat: now, role: role.clone() };
                let (texts, numbers) = claims.to_claims();
                sign_claims(&texts, &numbers, self.access_secret.as_str(), exp)
            },
            None => Err(CODE_INTERNAL_SERVER_ERROR),
        }
    }

    /// Issues a refresh token for `sub` at `now`.
    pub fn issue_refresh(&self, sub: &String, now: i64) -> (r: Result<(String, i64), u16>)
        ensures
            issued_view(r) == refresh_token_spec(
                self.refresh_secret@,
                self.refresh_validity_period,
                sub@,
                now,
            ),
    {
        match now.checked_add(self.refresh_validity_period) {
            Some(exp) => {
                let claims = RefreshTokenClaims {
                    sub: sub.clone(),
                    exp,
                    token_type: REFRESH_TOKEN_TYPE.to_owned(),
                };
                let (texts, numbers) = claims.to_claims();
                sign_claims(&texts, &numbers, self.refresh_secret.as_str(), exp)
            },
            None => Err(CODE_INTERNAL_SERVER_ERROR),
        }
    }

    /// Checks a refresh token against the refresh secret at `now`. Every way
    /// of failing (signature, shape, discriminator, expiry) is the one
    /// parameter error.
    pub fn verify_refresh(&self, token: &str, now: i64) -> (r: Result<RefreshTokenClaims, u16>)
        ensures
            refresh_view(r) == refresh_check(jwt_claims_of(token@, self.refresh_secret@), now),
    {
        check_refresh_claims(jwt_decode(token, self.refresh_secret.as_str()), now)
    }
}

} // verus!
