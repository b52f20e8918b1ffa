//! Credential and session lifecycle for an authentication service.
//!
//! The library verifies passwords, issues and checks second-factor
//! challenges, mints and validates signed session tokens, and revokes
//! tokens on logout. Stores are in-memory; callers supply the current
//! time in seconds, so every time-to-live rule is part of the contracts.

pub mod auth;
pub mod banned_store;
pub mod codec;
pub mod email;
pub mod errors;
pub mod laws;
pub mod password;
mod strutil;
pub mod token;
pub mod two_fa;
pub mod two_fa_store;
pub mod user;
pub mod user_store;

pub use email::Email;
pub use password::HashedPassword;
pub use user::User;
