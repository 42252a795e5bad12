//! Credential and token management for a small authentication service:
//! registration, login, and a time-boxed, single-use password reset flow.

pub mod errors;
pub mod user;
pub mod credentials;
pub mod tokens;
pub mod clock;
pub mod auth;
pub mod laws;
pub mod routes;
