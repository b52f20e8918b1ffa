//! The protocol orchestrator: signup, login, second-factor
//! verification, logout and token verification over the shared stores
//! and the process-wide signing key.
//!
//! Every operation takes the current time in seconds, so expiry rules
//! are part of the contracts. Authentication-adjacent failures (unknown
//! user, wrong password, absent or expired or mismatched challenge) are
//! collapsed into one caller-visible outcome to prevent enumeration.

use vstd::prelude::*;
use vstd::string::*;
use crate::banned_store::BannedTokenStore;
use crate::email::{Email, is_valid_email};
use crate::errors::AuthAPIError;
use crate::password::{
    HashedPassword,
    PasswordParseError,
    spec_password_ok,
    spec_policy_hash,
    validate_password,
    verifies,
    is_phc_hash,
};
use crate::token::{TOKEN_TTL_SECONDS, issue_token, validate_token, token_of, token_valid};
use crate::two_fa::{LoginAttemptId, TwoFaCode, is_uuid, spec_code_ok};
use crate::two_fa_store::{TwoFACodeStore, TWO_FA_TTL_SECONDS, ChallengeV, challenge_matches};
use crate::user::{User, UserV};
use crate::user_store::UserStore;

verus! {

/// The signup request shape of the boundary.
pub struct SignupRequest {
    pub email: String,
    pub password: String,
    pub requires_2fa: bool,
}

/// The signup success body.
#[derive(Debug, PartialEq, Eq)]
pub struct SignupResponse {
    pub message: String,
}

/// The login request shape of the boundary.
pub struct LoginRequest {
    pub email: String,
    pub password: String,
}

/// The two login success bodies: a plain acknowledgement when no second
/// factor is required (the token travels out of band, as a cookie), or
/// the attempt identifier the client must echo back — never the code.
#[derive(Debug)]
pub enum LoginResponse {
    RegularAuth,
    TwoFactorAuth(TwoFactorAuthResponse),
}

/// The body returned when a second factor is required.
#[derive(Debug)]
pub struct TwoFactorAuthResponse {
    pub message: String,
    pub login_attempt_id: String,
}

/// The second-factor verification request shape.
pub struct Verify2FARequest {
    pub email: String,
    pub login_attempt_id: String,
    pub two_fa_code: String,
}

/// The token verification request shape.
pub struct VerifyTokenRequest {
    pub token: String,
}

/// What a successful login hands back to the boundary: either the
/// minted session token, or the fresh challenge whose code the caller
/// must deliver to the user out of band.
#[derive(Debug, PartialEq, Eq)]
pub enum LoginSuccess {
    RegularAuth { token: String },
    TwoFactorAuth { attempt_id: LoginAttemptId, code: TwoFaCode },
}

impl LoginSuccess {
    /// The response body for this outcome; the code is withheld.
    pub fn to_response(&self) -> (r: LoginResponse)
        ensures
            self matches LoginSuccess::RegularAuth { .. } ==> r == LoginResponse::RegularAuth,
            self matches LoginSuccess::TwoFactorAuth { attempt_id, .. } ==> (r matches
                LoginResponse::TwoFactorAuth(t) && t.message@ == "2FA required"@
                && t.login_attempt_id@ == attempt_id@),
    {
        match self {
            LoginSuccess::RegularAuth { .. } => LoginResponse::RegularAuth,
            LoginSuccess::TwoFactorAuth { attempt_id, .. } => LoginResponse::TwoFactorAuth(
                TwoFactorAuthResponse {
                    message: "2FA required".to_owned(),
                    login_attempt_id: attempt_id.as_str().to_owned(),
                },
            ),
        }
    }
}

/// Whether the protocol accepts a token at `now`: not revoked, and
/// cryptographically valid.
pub open spec fn token_accepted(
    banned: Set<Seq<char>>,
    key: Seq<u8>,
    token: Seq<char>,
    now: u64,
) -> bool {
    !banned.contains(token) && token_valid(key, token, now)
}

/// The shared state of the service: the three stores and the signing
/// key established at startup.
pub struct AppState<U: UserStore, B: BannedTokenStore, T: TwoFACodeStore> {
    pub user_store: U,
    pub banned_token_store: B,
    pub two_fa_code_store: T,
    pub token_key: Vec<u8>,
}

impl<U: UserStore, B: BannedTokenStore, T: TwoFACodeStore> AppState<U, B, T> {
    pub fn new(user_store: U, banned_token_store: B, two_fa_code_store: T, token_key: Vec<u8>) -> (r:
        Self)
        ensures
            r.user_store == user_store,
            r.banned_token_store == banned_token_store,
            r.two_fa_code_store == two_fa_code_store,
            r.token_key == token_key,
    {
        AppState { user_store, banned_token_store, two_fa_code_store, token_key }
    }

    /// Creates the account: parse and validate both fields, hash the
    /// password, reject a taken email, persist. Only the credential
    /// store changes, and only on success.
    pub fn signup(&mut self, request: SignupRequest) -> (r: Result<SignupResponse, AuthAPIError>)
        ensures
            final(self).banned_token_store == old(self).banned_token_store,
            final(self).two_fa_code_store == old(self).two_fa_code_store,
            final(self).token_key == old(self).token_key,
            r is Err ==> final(self).user_store.users() == old(self).user_store.users(),
            r == Err::<SignupResponse, AuthAPIError>(AuthAPIError::InvalidCredentials) <==> !(
            is_valid_email(request.email@) && spec_password_ok(request.password@)),
            r == Err::<SignupResponse, AuthAPIError>(AuthAPIError::UserAlreadyExists) <==> (
            is_valid_email(request.email@) && spec_password_ok(request.password@) && old(self).user_store.users().contains_key(request.email@)),
            is_valid_email(request.email@) && spec_password_ok(request.password@) && !old(self).user_store.users().contains_key(request.email@) ==> (r is Ok || r == Err::<
                SignupResponse,
                AuthAPIError,
            >(AuthAPIError::UnexpectedError)),
            r matches Ok(resp) ==> is_valid_email(request.email@) && spec_password_ok(
                request.password@,
            ) && !old(self).user_store.users().contains_key(request.email@) && resp.message@
                == "User created successfully!"@ && (exists|h: Seq<char>|
                verifies(h, request.password@) && is_phc_hash(h) && spec_policy_hash(h) && final(self).user_store.users() == old(self).user_store.users().insert(
                    request.email@,
                    (UserV {
                        email: request.email@,
                        password_hash: h,
                        requires_2fa: request.requires_2fa,
                    }),
                )),
    {
        let email = match Email::parse(request.email) {
            Ok(e) => e,
            Err(_) => {
                return Err(AuthAPIError::InvalidCredentials);
            },
        };
        if !validate_password(request.password.as_str()) {
            return Err(AuthAPIError::InvalidCredentials);
        }
        if self.user_store.get_user(&email).is_ok() {
            return Err(AuthAPIError::UserAlreadyExists);
        }
        let password = match HashedPassword::parse(request.password.as_str()) {
            Ok(p) => p,
            Err(PasswordParseError::InvalidPassword) => {
                return Err(AuthAPIError::InvalidCredentials);
            },
            Err(PasswordParseError::HashingFailed) => {
                return Err(AuthAPIError::UnexpectedError);
            },
        };
        let user = User::new(email, password, request.requires_2fa);
        match self.user_store.add_user(user) {
            Ok(()) => Ok(SignupResponse { message: "User created successfully!".to_owned() }),
            Err(_) => Err(AuthAPIError::UnexpectedError),
        }
    }

    /// Checks the credentials; on success either mints a session token
    /// (no second factor) or issues a fresh challenge, replacing any
    /// prior one for that identity. Malformed input and wrong
    /// credentials are reported distinctly (400 against 401), but wrong
    /// credentials never say why.
    pub fn login(&mut self, request: LoginRequest, now: u64) -> (r: Result<
        LoginSuccess,
        AuthAPIError,
    >)
        requires
            now + TWO_FA_TTL_SECONDS <= u64::MAX,
            now + TOKEN_TTL_SECONDS <= u64::MAX,
        ensures
            final(self).user_store == old(self).user_store,
            final(self).banned_token_store == old(self).banned_token_store,
            final(self).token_key == old(self).token_key,
            !(is_valid_email(request.email@) && spec_password_ok(request.password@)) ==> r
                == Err::<LoginSuccess, AuthAPIError>(AuthAPIError::InvalidCredentials) && final(self).two_fa_code_store == old(self).two_fa_code_store,
            is_valid_email(request.email@) && spec_password_ok(request.password@) && !(old(self).user_store.users().contains_key(request.email@) && verifies(
                old(self).user_store.users()[request.email@].password_hash,
                request.password@,
            )) ==> r == Err::<LoginSuccess, AuthAPIError>(AuthAPIError::IncorrectCredentials)
                && final(self).two_fa_code_store == old(self).two_fa_code_store,
            is_valid_email(request.email@) && spec_password_ok(request.password@) && old(self).user_store.users().contains_key(request.email@) && verifies(
                old(self).user_store.users()[request.email@].password_hash,
                request.password@,
            ) && !old(self).user_store.users()[request.email@].requires_2fa ==> (r matches Ok(s)
                && s matches LoginSuccess::RegularAuth { token } && token@ == token_of(
                old(self).token_key@,
                request.email@,
                (now + TOKEN_TTL_SECONDS) as u64,
            ) && final(self).two_fa_code_store == old(self).two_fa_code_store),
            is_valid_email(request.email@) && spec_password_ok(request.password@) && old(self).user_store.users().contains_key(request.email@) && verifies(
                old(self).user_store.users()[request.email@].password_hash,
                request.password@,
            ) && old(self).user_store.users()[request.email@].requires_2fa ==> (r matches Ok(s)
                && s matches LoginSuccess::TwoFactorAuth { attempt_id, code } && is_uuid(
                attempt_id@,
            ) && spec_code_ok(code@) && final(self).two_fa_code_store.codes() == old(self).two_fa_code_store.codes().insert(
                request.email@,
                (ChallengeV {
                    attempt_id: attempt_id@,
                    code: code@,
                    expires_at: (now + TWO_FA_TTL_SECONDS) as u64,
                }),
            )),
    {
        let email = match Email::parse(request.email) {
            Ok(e) => e,
            Err(_) => {
                return Err(AuthAPIError::InvalidCredentials);
            },
        };
        if !validate_password(request.password.as_str()) {
            return Err(AuthAPIError::InvalidCredentials);
        }
        if self.user_store.validate_user(&email, request.password.as_str()).is_err() {
            return Err(AuthAPIError::IncorrectCredentials);
        }
        let user = match self.user_store.get_user(&email) {
            Ok(u) => u,
            Err(_) => {
                return Err(AuthAPIError::IncorrectCredentials);
            },
        };
        if user.requires_2fa {
            self.handle_2fa(email, now)
        } else {
            self.handle_no_2fa(&email, now)
        }
    }

    /// Issues a fresh challenge for the identity and hands its code
    /// back for out-of-band delivery.
    fn handle_2fa(&mut self, email: Email, now: u64) -> (r: Result<LoginSuccess, AuthAPIError>)
        requires
            now + TWO_FA_TTL_SECONDS <= u64::MAX,
        ensures
            final(self).user_store == old(self).user_store,
            final(self).banned_token_store == old(self).banned_token_store,
            final(self).token_key == old(self).token_key,
            r matches Ok(s) && s matches LoginSuccess::TwoFactorAuth { attempt_id, code }
                && is_uuid(attempt_id@) && spec_code_ok(code@) && final(self).two_fa_code_store.codes() == old(self).two_fa_code_store.codes().insert(
                email@,
                (ChallengeV {
                    attempt_id: attempt_id@,
                    code: code@,
                    expires_at: (now + TWO_FA_TTL_SECONDS) as u64,
                }),
            ),
    {
        let login_attempt_id = LoginAttemptId::default();
        let two_fa_code = TwoFaCode::default();
        match self.two_fa_code_store.add_code(
            email,
            login_attempt_id.clone(),
            two_fa_code.clone(),
            now,
        ) {
            Ok(()) => Ok(
                LoginSuccess::TwoFactorAuth { attempt_id: login_attempt_id, code: two_fa_code },
            ),
            Err(_) => Err(AuthAPIError::UnexpectedError),
        }
    }

    /// Mints the session token for an already-authenticated identity.
    fn handle_no_2fa(&self, email: &Email, now: u64) -> (r: Result<LoginSuccess, AuthAPIError>)
        requires
            now + TOKEN_TTL_SECONDS <= u64::MAX,
        ensures
            r matches Ok(s) && s matches LoginSuccess::RegularAuth { token } && token@ == token_of(
                self.token_key@,
                email@,
                (now + TOKEN_TTL_SECONDS) as u64,
            ),
    {
        let token = issue_token(&self.token_key, email, now + TOKEN_TTL_SECONDS);
        Ok(LoginSuccess::RegularAuth { token })
    }

    /// Verifies the second factor: all three fields format-validated
    /// before any lookup, then the live challenge must match attempt id
    /// and code exactly; on success the challenge is consumed in the
    /// same operation and the session token is minted.
    pub fn verify_2fa(&mut self, request: Verify2FARequest, now: u64) -> (r: Result<
        String,
        AuthAPIError,
    >)
        requires
            now + TOKEN_TTL_SECONDS <= u64::MAX,
        ensures
            final(self).user_store == old(self).user_store,
            final(self).banned_token_store == old(self).banned_token_store,
            final(self).token_key == old(self).token_key,
            !(is_valid_email(request.email@) && is_uuid(request.login_attempt_id@) && spec_code_ok(
                request.two_fa_code@,
            )) ==> r == Err::<String, AuthAPIError>(AuthAPIError::InvalidCredentials) && final(self).two_fa_code_store == old(self).two_fa_code_store,
            is_valid_email(request.email@) && is_uuid(request.login_attempt_id@) && spec_code_ok(
                request.two_fa_code@,
            ) && !challenge_matches(
                old(self).two_fa_code_store.codes(),
                request.email@,
                request.login_attempt_id@,
                request.two_fa_code@,
                now,
            ) ==> r == Err::<String, AuthAPIError>(AuthAPIError::IncorrectCredentials) && final(self).two_fa_code_store == old(self).two_fa_code_store,
            is_valid_email(request.email@) && is_uuid(request.login_attempt_id@) && spec_code_ok(
                request.two_fa_code@,
            ) && challenge_matches(
                old(self).two_fa_code_store.codes(),
                request.email@,
                request.login_attempt_id@,
                request.two_fa_code@,
                now,
            ) ==> (r matches Ok(token) && token@ == token_of(
                old(self).token_key@,
                request.email@,
                (now + TOKEN_TTL_SECONDS) as u64,
            ) && final(self).two_fa_code_store.codes() == old(self).two_fa_code_store.codes().remove(request.email@)),
    {
        let email = match Email::parse(request.email) {
            Ok(e) => e,
            Err(_) => {
                return Err(AuthAPIError::InvalidCredentials);
            },
        };
        let login_attempt_id = match LoginAttemptId::parse(request.login_attempt_id) {
            Ok(a) => a,
            Err(_) => {
                return Err(AuthAPIError::InvalidCredentials);
            },
        };
        let two_fa_code = match TwoFaCode::parse(request.two_fa_code) {
            Ok(c) => c,
            Err(_) => {
                return Err(AuthAPIError::InvalidCredentials);
            },
        };
        let code_tuple = match self.two_fa_code_store.get_code(&email, now) {
            Ok(t) => t,
            Err(_) => {
                return Err(AuthAPIError::IncorrectCredentials);
            },
        };
        if !crate::strutil::str_eq(code_tuple.0.as_str(), login_attempt_id.as_str())
            || !crate::strutil::str_eq(code_tuple.1.as_str(), two_fa_code.as_str()) {
            return Err(AuthAPIError::IncorrectCredentials);
        }
        let token = issue_token(&self.token_key, &email, now + TOKEN_TTL_SECONDS);
        match self.two_fa_code_store.remove_code(&email) {
            Ok(()) => Ok(token),
            Err(_) => Err(AuthAPIError::IncorrectCredentials),
        }
    }

    /// Ends the session: a missing token, an invalid one, and a valid
    /// one are told apart, and a valid token lands on the revocation
    /// list.
    pub fn logout(&mut self, token: Option<&str>, now: u64) -> (r: Result<(), AuthAPIError>)
        ensures
            final(self).user_store == old(self).user_store,
            final(self).two_fa_code_store == old(self).two_fa_code_store,
            final(self).token_key == old(self).token_key,
            token is None ==> r == Err::<(), AuthAPIError>(AuthAPIError::MissingToken) && final(self).banned_token_store == old(self).banned_token_store,
            token matches Some(t) ==> (!token_valid(old(self).token_key@, t@, now) ==> r == Err::<
                (),
                AuthAPIError,
            >(AuthAPIError::InvalidToken) && final(self).banned_token_store == old(self).banned_token_store),
            token matches Some(t) ==> (token_valid(old(self).token_key@, t@, now) && old(self).banned_token_store.banned().contains(t@) ==> r == Err::<(), AuthAPIError>(
                AuthAPIError::UnexpectedError,
            ) && final(self).banned_token_store.banned() == old(self).banned_token_store.banned()),
            token matches Some(t) ==> (token_valid(old(self).token_key@, t@, now) && !old(self).banned_token_store.banned().contains(t@) ==> r == Ok::<(), AuthAPIError>(())
                && final(self).banned_token_store.banned() == old(self).banned_token_store.banned().insert(t@)),
    {
        let t = match token {
            Some(t) => t,
            None => {
                return Err(AuthAPIError::MissingToken);
            },
        };
        if validate_token(&self.token_key, t, now).is_err() {
            return Err(AuthAPIError::InvalidToken);
        }
        match self.banned_token_store.add_token(t.to_owned()) {
            Ok(()) => Ok(()),
            Err(_) => Err(AuthAPIError::UnexpectedError),
        }
    }

    /// The check a protected resource runs: the revocation list first,
    /// independent of signature validity, then signature and expiry.
    /// Read-only.
    pub fn verify_token(&self, request: &VerifyTokenRequest, now: u64) -> (r: Result<
        (),
        AuthAPIError,
    >)
        ensures
            r is Ok <==> token_accepted(
                self.banned_token_store.banned(),
                self.token_key@,
                request.token@,
                now,
            ),
            r is Err ==> r == Err::<(), AuthAPIError>(AuthAPIError::InvalidToken),
    {
        if self.banned_token_store.is_token_banned(request.token.clone()) {
            return Err(AuthAPIError::InvalidToken);
        }
        if validate_token(&self.token_key, request.token.as_str(), now).is_err() {
            return Err(AuthAPIError::InvalidToken);
        }
        Ok(())
    }
}

} // verus!
