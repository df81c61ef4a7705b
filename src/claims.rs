use vstd::prelude::*;

verus! {

/// Claims carried by an access token.
pub struct AccessTokenClaims {
    /// The account's email.
    pub sub: String,
    /// Expiry, in unix seconds.
    pub exp: i64,
    /// Issue time, in unix seconds.
    pub iat: i64,
    pub role: String,
}

/// Claims carried by a refresh token.
pub struct RefreshTokenClaims {
    /// The account's email.
    pub sub: String,
    /// Expiry, in unix seconds.
    pub exp: i64,
    /// Always "refresh" on a token that this library issues.
    pub token_type: String,
}

/// The two signing secrets and the validity period, in seconds, of each kind of token.
pub struct JwtSecret {
    pub access_secret: String,
    pub access_validity_period: i64,
    pub refresh_secret: String,
    pub refresh_validity_period: i64,
}

} // verus!
