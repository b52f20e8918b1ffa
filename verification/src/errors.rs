//! Error taxonomy of the service.
//!
//! Store errors distinguish "not found" from "system failure" internally;
//! the orchestrator collapses authentication-adjacent not-found cases into
//! the same externally visible outcome as a genuine mismatch, so a caller
//! cannot enumerate accounts or challenges.

use vstd::prelude::*;

verus! {

/// A malformed second-factor code.
#[derive(Debug, PartialEq, Eq, Structural, Clone, Copy)]
pub enum TwoFaError {
    InvalidCode,
}

impl TwoFaError {
    pub fn message(&self) -> (r: &str)
        ensures
            r@ == "invalid 2FA code"@,
    {
        "invalid 2FA code"
    }
}

/// Outcomes of credential-store operations.
#[derive(Debug, PartialEq, Eq, Structural, Clone, Copy)]
pub enum UserStoreError {
    UserAlreadyExists,
    UserNotFound,
    InvalidCredentials,
    UnexpectedError,
}

/// Outcomes of revocation-list operations.
#[derive(Debug, PartialEq, Eq, Structural, Clone, Copy)]
pub enum BannedTokenStoreError {
    TokenAlreadyBanned,
    UnexpectedError,
}

/// Outcomes of challenge-store operations.
#[derive(Debug, PartialEq, Eq, Structural, Clone, Copy)]
pub enum TwoFACodeStoreError {
    LoginAttemptIdNotFound,
    UnexpectedError,
}

/// The caller-visible error classes of the protocol operations.
#[derive(Debug, PartialEq, Eq, Structural, Clone, Copy)]
pub enum AuthAPIError {
    UserAlreadyExists,
    InvalidCredentials,
    UnexpectedError,
    IncorrectCredentials,
    MissingToken,
    InvalidToken,
}

impl AuthAPIError {
    /// The HTTP status each error class maps to at the boundary.
    pub fn status_code(&self) -> (r: u16)
        ensures
            r == match *self {
                AuthAPIError::UserAlreadyExists => 409u16,
                AuthAPIError::InvalidCredentials => 400u16,
                AuthAPIError::IncorrectCredentials => 401u16,
                AuthAPIError::MissingToken => 400u16,
                AuthAPIError::InvalidToken => 401u16,
                AuthAPIError::UnexpectedError => 500u16,
            },
    {
        match *self {
            AuthAPIError::UserAlreadyExists => 409,
            AuthAPIError::InvalidCredentials => 400,
            AuthAPIError::IncorrectCredentials => 401,
            AuthAPIError::MissingToken => 400,
            AuthAPIError::InvalidToken => 401,
            AuthAPIError::UnexpectedError => 500,
        }
    }

    /// The uniform message for each class; credential-adjacent failures
    /// share one message so the reason does not leak.
    pub fn error_message(&self) -> (r: &str)
        ensures
            *self == AuthAPIError::UserAlreadyExists ==> r@ == "User already exists"@,
            *self == AuthAPIError::UnexpectedError ==> r@ == "Unexpected error"@,
            !(*self == AuthAPIError::UserAlreadyExists) && !(*self
                == AuthAPIError::UnexpectedError) ==> r@ == "Invalid credentials"@,
    {
        match *self {
            AuthAPIError::UserAlreadyExists => "User already exists",
            AuthAPIError::UnexpectedError => "Unexpected error",
            _ => "Invalid credentials",
        }
    }
}

/// The JSON error body shape of the boundary.
pub struct ErrorResponse {
    pub error: String,
}

} // verus!
