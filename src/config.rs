use crate::claims::JwtSecret;
use vstd::prelude::*;

verus! {

/// The service's settings, as loaded at start-up.
pub struct AppConfig {
    pub database: DatabaseConfig,
    pub service: ServiceConfig,
    pub log: LogConfig,
    pub jwt: JWT,
}

pub struct DatabaseConfig {
    pub url: String,
    pub max_connections: u32,
    pub idle_timeout: u32,
}

pub struct ServiceConfig {
    pub name: String,
    pub port: u16,
    /// This instance's worker id for the id generator.
    pub worker_id: u32,
    /// How many bits of every generated id hold the worker id.
    pub worker_id_bit_len: u8,
}

pub struct LogConfig {
    pub level: String,
}

/// The token settings: a secret and a validity period, in seconds, per kind of token.
pub struct JWT {
    pub access_secret: String,
    pub access_validity_period: i64,
    pub refresh_secret: String,
    pub refresh_validity_period: i64,
}

impl JWT {
    /// The secrets that the service signs and checks tokens with.
    pub fn jwt_secret(&self) -> (r: JwtSecret)
        ensures
            r.access_secret@ == self.access_secret@,
            r.access_validity_period == self.access_validity_period,
            r.refresh_secret@ == self.refresh_secret@,
            r.refresh_validity_period == self.refresh_validity_period,
    {
        JwtSecret {
            access_secret: self.access_secret.clone(),
            access_validity_period: self.access_validity_period,
            refresh_secret: self.refresh_secret.clone(),
            refresh_validity_period: self.refresh_validity_period,
        }
    }
}

} // verus!
