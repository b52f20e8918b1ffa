use auth_service::auth::{
    AppState, LoginRequest, LoginResponse, LoginSuccess, SignupRequest, Verify2FARequest,
    VerifyTokenRequest,
};
use auth_service::banned_store::HashsetBannedTokenStore;
use auth_service::errors::AuthAPIError;
use auth_service::two_fa::LoginAttemptId;
use auth_service::two_fa_store::HashmapTwoFACodeStore;
use auth_service::user_store::HashmapUserStore;

const NOW: u64 = 1_700_000_000;

type TestState = AppState<HashmapUserStore, HashsetBannedTokenStore, HashmapTwoFACodeStore>;

fn test_state() -> TestState {
    AppState::new(
        HashmapUserStore::default(),
        HashsetBannedTokenStore::new(),
        HashmapTwoFACodeStore::default(),
        b"test-signing-key".to_vec(),
    )
}

fn get_random_email() -> String {
    format!("{}@example.com", uuid::Uuid::new_v4())
}

fn signup_body(email: &str, requires_2fa: bool) -> SignupRequest {
    SignupRequest {
        email: email.to_string(),
        password: "password123".to_string(),
        requires_2fa,
    }
}

fn login_body(email: &str) -> LoginRequest {
    LoginRequest {
        email: email.to_string(),
        password: "password123".to_string(),
    }
}

#[test]
fn signup_login_verify_token_round_trip() {
    let mut app = test_state();
    let email = get_random_email();

    let response = app.signup(signup_body(&email, false)).unwrap();
    assert_eq!(response.message, "User created successfully!");

    let token = match app.login(login_body(&email), NOW).unwrap() {
        LoginSuccess::RegularAuth { token } => token,
        LoginSuccess::TwoFactorAuth { .. } => panic!("no second factor was configured"),
    };
    assert!(!token.is_empty());

    let request = VerifyTokenRequest { token };
    assert!(app.verify_token(&request, NOW).is_ok());
}

#[test]
fn two_factor_login_round_trip() {
    let mut app = test_state();
    let email = get_random_email();

    app.signup(signup_body(&email, true)).unwrap();

    let (attempt_id, code) = match app.login(login_body(&email), NOW).unwrap() {
        LoginSuccess::TwoFactorAuth { attempt_id, code } => (attempt_id, code),
        LoginSuccess::RegularAuth { .. } => panic!("a second factor was configured"),
    };

    // the response body carries the attempt id, never the code
    let outcome = LoginSuccess::TwoFactorAuth {
        attempt_id: attempt_id.clone(),
        code: code.clone(),
    };
    match outcome.to_response() {
        LoginResponse::TwoFactorAuth(body) => {
            assert_eq!(body.message, "2FA required");
            assert_eq!(body.login_attempt_id, attempt_id.as_str());
        }
        LoginResponse::RegularAuth => panic!("expected the two-factor body"),
    }

    // a wrong code is rejected, then the correct one accepted
    let wrong = Verify2FARequest {
        email: email.clone(),
        login_attempt_id: attempt_id.as_str().to_string(),
        two_fa_code: if code.as_str() == "111111" { "222222" } else { "111111" }.to_string(),
    };
    assert_eq!(
        app.verify_2fa(wrong, NOW),
        Err(AuthAPIError::IncorrectCredentials)
    );

    let right = Verify2FARequest {
        email: email.clone(),
        login_attempt_id: attempt_id.as_str().to_string(),
        two_fa_code: code.as_str().to_string(),
    };
    let token = app.verify_2fa(right, NOW).unwrap();
    assert!(app.verify_token(&VerifyTokenRequest { token }, NOW).is_ok());
}

#[test]
fn should_return_400_if_invalid_input() {
    let mut app = test_state();
    let request = Verify2FARequest {
        email: "password123".to_string(),
        login_attempt_id: "123".to_string(),
        two_fa_code: "false".to_string(),
    };
    let err = app.verify_2fa(request, NOW).unwrap_err();
    assert_eq!(err.status_code(), 400, "Failed for input: password123/123/false");
}

#[test]
fn should_return_401_if_incorrect_credentials() {
    let mut app = test_state();
    let random_email = get_random_email();

    let response = app.signup(signup_body(&random_email, true));
    assert!(response.is_ok());

    let attempt = LoginAttemptId::default();
    let request = Verify2FARequest {
        email: random_email,
        login_attempt_id: attempt.as_str().to_string(),
        two_fa_code: "123456".to_string(),
    };
    let err = app.verify_2fa(request, NOW).unwrap_err();
    assert_eq!(err.status_code(), 401);
}

#[test]
fn should_return_401_if_old_code() {
    // Log in twice; the challenge of the first login must be superseded.
    let mut app = test_state();
    let random_email = get_random_email();

    app.signup(signup_body(&random_email, true)).unwrap();

    let (attempt_1, code_1) = match app.login(login_body(&random_email), NOW).unwrap() {
        LoginSuccess::TwoFactorAuth { attempt_id, code } => (attempt_id, code),
        LoginSuccess::RegularAuth { .. } => panic!("a second factor was configured"),
    };

    // login again
    app.login(login_body(&random_email), NOW).unwrap();

    let request = Verify2FARequest {
        email: random_email,
        login_attempt_id: attempt_1.as_str().to_string(),
        two_fa_code: code_1.as_str().to_string(),
    };
    let err = app.verify_2fa(request, NOW).unwrap_err();
    assert_eq!(err.status_code(), 401);
}

#[test]
fn should_return_200_if_correct_code() {
    let mut app = test_state();
    let random_email = get_random_email();

    app.signup(signup_body(&random_email, true)).unwrap();

    let (attempt_id, code) = match app.login(login_body(&random_email), NOW).unwrap() {
        LoginSuccess::TwoFactorAuth { attempt_id, code } => (attempt_id, code),
        LoginSuccess::RegularAuth { .. } => panic!("a second factor was configured"),
    };

    let request = Verify2FARequest {
        email: random_email,
        login_attempt_id: attempt_id.as_str().to_string(),
        two_fa_code: code.as_str().to_string(),
    };
    let token = app.verify_2fa(request, NOW).unwrap();
    assert!(!token.is_empty());
}

#[test]
fn should_return_401_if_same_code_twice() {
    let mut app = test_state();
    let random_email = get_random_email();

    app.signup(signup_body(&random_email, true)).unwrap();

    let (attempt_id, code) = match app.login(login_body(&random_email), NOW).unwrap() {
        LoginSuccess::TwoFactorAuth { attempt_id, code } => (attempt_id, code),
        LoginSuccess::RegularAuth { .. } => panic!("a second factor was configured"),
    };

    let request = Verify2FARequest {
        email: random_email.clone(),
        login_attempt_id: attempt_id.as_str().to_string(),
        two_fa_code: code.as_str().to_string(),
    };
    let token = app.verify_2fa(request, NOW).unwrap();
    assert!(!token.is_empty());

    let replay = Verify2FARequest {
        email: random_email,
        login_attempt_id: attempt_id.as_str().to_string(),
        two_fa_code: code.as_str().to_string(),
    };
    let err = app.verify_2fa(replay, NOW).unwrap_err();
    assert_eq!(err.status_code(), 401);
}

#[test]
fn expired_challenge_is_rejected_even_with_correct_code() {
    let mut app = test_state();
    let random_email = get_random_email();

    app.signup(signup_body(&random_email, true)).unwrap();

    let (attempt_id, code) = match app.login(login_body(&random_email), NOW).unwrap() {
        LoginSuccess::TwoFactorAuth { attempt_id, code } => (attempt_id, code),
        LoginSuccess::RegularAuth { .. } => panic!("a second factor was configured"),
    };

    let request = Verify2FARequest {
        email: random_email,
        login_attempt_id: attempt_id.as_str().to_string(),
        two_fa_code: code.as_str().to_string(),
    };
    // ten minutes later the challenge has expired
    let err = app.verify_2fa(request, NOW + 600).unwrap_err();
    assert_eq!(err, AuthAPIError::IncorrectCredentials);
}

#[test]
fn should_return_200_valid_token() {
    let mut app = test_state();
    let random_email = get_random_email();

    app.signup(signup_body(&random_email, false)).unwrap();

    let token = match app.login(login_body(&random_email), NOW).unwrap() {
        LoginSuccess::RegularAuth { token } => token,
        LoginSuccess::TwoFactorAuth { .. } => panic!("no second factor was configured"),
    };
    assert!(!token.is_empty());

    assert!(app.verify_token(&VerifyTokenRequest { token }, NOW).is_ok());
}

#[test]
fn should_return_401_if_invalid_token() {
    let app = test_state();
    let err = app
        .verify_token(
            &VerifyTokenRequest { token: "invalid".to_string() },
            NOW,
        )
        .unwrap_err();
    assert_eq!(err.status_code(), 401);
}

#[test]
fn should_return_401_if_banned_token() {
    let mut app = test_state();
    let random_email = get_random_email();

    app.signup(signup_body(&random_email, false)).unwrap();

    let token = match app.login(login_body(&random_email), NOW).unwrap() {
        LoginSuccess::RegularAuth { token } => token,
        LoginSuccess::TwoFactorAuth { .. } => panic!("no second factor was configured"),
    };
    assert!(!token.is_empty());

    app.logout(Some(token.as_str()), NOW).unwrap();

    let err = app
        .verify_token(&VerifyTokenRequest { token }, NOW)
        .unwrap_err();
    assert_eq!(err.status_code(), 401);
}

#[test]
fn logout_then_logout_again_fails() {
    let mut app = test_state();
    let random_email = get_random_email();

    app.signup(signup_body(&random_email, false)).unwrap();
    let token = match app.login(login_body(&random_email), NOW).unwrap() {
        LoginSuccess::RegularAuth { token } => token,
        LoginSuccess::TwoFactorAuth { .. } => panic!("no second factor was configured"),
    };

    assert!(app.logout(Some(token.as_str()), NOW).is_ok());
    assert_eq!(
        app.verify_token(&VerifyTokenRequest { token: token.clone() }, NOW),
        Err(AuthAPIError::InvalidToken)
    );
    // the token is already on the revocation list
    assert_eq!(
        app.logout(Some(token.as_str()), NOW),
        Err(AuthAPIError::UnexpectedError)
    );
    assert_eq!(app.logout(None, NOW), Err(AuthAPIError::MissingToken));
}

#[test]
fn signup_errors_are_mapped() {
    let mut app = test_state();
    let email = get_random_email();

    // malformed email and short password are invalid credentials
    let bad_email = SignupRequest {
        email: "not-an-email".to_string(),
        password: "password123".to_string(),
        requires_2fa: false,
    };
    assert_eq!(app.signup(bad_email), Err(AuthAPIError::InvalidCredentials));
    let short_password = SignupRequest {
        email: email.clone(),
        password: "1234567".to_string(),
        requires_2fa: false,
    };
    assert_eq!(
        app.signup(short_password),
        Err(AuthAPIError::InvalidCredentials)
    );

    // a taken email is a conflict
    app.signup(signup_body(&email, false)).unwrap();
    let err = app.signup(signup_body(&email, false)).unwrap_err();
    assert_eq!(err, AuthAPIError::UserAlreadyExists);
    assert_eq!(err.status_code(), 409);
}

#[test]
fn login_errors_are_mapped() {
    let mut app = test_state();
    let email = get_random_email();
    app.signup(signup_body(&email, false)).unwrap();

    // malformed input is 400
    let bad = LoginRequest {
        email: "not-an-email".to_string(),
        password: "password123".to_string(),
    };
    assert_eq!(app.login(bad, NOW), Err(AuthAPIError::InvalidCredentials));

    // unknown user and wrong password are both 401, indistinguishably
    let unknown = LoginRequest {
        email: get_random_email(),
        password: "password123".to_string(),
    };
    assert_eq!(
        app.login(unknown, NOW),
        Err(AuthAPIError::IncorrectCredentials)
    );
    let wrong_password = LoginRequest {
        email: email.clone(),
        password: "wrong_password".to_string(),
    };
    assert_eq!(
        app.login(wrong_password, NOW),
        Err(AuthAPIError::IncorrectCredentials)
    );
}

#[test]
fn expired_token_is_rejected() {
    let mut app = test_state();
    let random_email = get_random_email();

    app.signup(signup_body(&random_email, false)).unwrap();
    let token = match app.login(login_body(&random_email), NOW).unwrap() {
        LoginSuccess::RegularAuth { token } => token,
        LoginSuccess::TwoFactorAuth { .. } => panic!("no second factor was configured"),
    };

    let request = VerifyTokenRequest { token };
    assert!(app.verify_token(&request, NOW + 599).is_ok());
    assert!(app.verify_token(&request, NOW + 600).is_err());
}

#[test]
fn tampered_token_is_rejected() {
    let mut app = test_state();
    let random_email = get_random_email();

    app.signup(signup_body(&random_email, false)).unwrap();
    let token = match app.login(login_body(&random_email), NOW).unwrap() {
        LoginSuccess::RegularAuth { token } => token,
        LoginSuccess::TwoFactorAuth { .. } => panic!("no second factor was configured"),
    };

    // altering the subject invalidates the signature
    let mut tampered = token.clone();
    tampered.push('x');
    assert!(app
        .verify_token(&VerifyTokenRequest { token: tampered }, NOW)
        .is_err());

    // a token signed with another key is rejected here
    let mut other = test_state();
    other.token_key = b"another-key".to_vec();
    other.signup(signup_body(&random_email, false)).unwrap();
    let foreign = match other.login(login_body(&random_email), NOW).unwrap() {
        LoginSuccess::RegularAuth { token } => token,
        LoginSuccess::TwoFactorAuth { .. } => panic!("no second factor was configured"),
    };
    assert!(app
        .verify_token(&VerifyTokenRequest { token: foreign }, NOW)
        .is_err());
}
