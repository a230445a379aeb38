//! Credential sets for machine-to-machine OAuth2 logins: how a set is
//! collected, stored, loaded and exchanged for an access token.

pub mod commands;
pub mod credentials;
pub mod json;
pub mod prompt;
pub mod store;
pub mod text;
