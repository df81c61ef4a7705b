pub mod claims;
pub mod config;
pub mod constants;
pub mod credentials;
pub mod ids;
pub mod laws;
pub mod reply;
pub mod tokens;
pub mod user;
pub mod user_service;
