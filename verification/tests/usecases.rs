use auth_api::errors::AppError;
use auth_api::requests::{LoginReq, RegisterReq};
use auth_api::usecases::{
    check_login, hash_registration, login_verdict, registration_outcome, sign_claims, token_outcome, ERR_BCRYPT, ERR_JWT,
    HASH_COST,
};
use auth_api::session::Claims;
use auth_api::users::{new_user, UserRecord};

fn user_with_hash(hash: String) -> UserRecord {
    UserRecord {
        id: 0x0123456789ABCDEF0123456789ABCDEF,
        email: "a@b.co".to_string(),
        user_name: "somchai".to_string(),
        password: hash,
        avatar: None,
        role: "admin".to_string(),
    }
}

fn login(password: &str) -> LoginReq {
    LoginReq { email: "a@b.co".to_string(), username: "somchai".to_string(), password: password.to_string() }
}

#[test]
fn hash_cost_is_bcrypt_default() {
    assert_eq!(HASH_COST, bcrypt::DEFAULT_COST);
}

#[test]
fn matching_password_issues_token_request() {
    let user = user_with_hash(bcrypt::hash("secret1", 4).unwrap());
    let t = check_login(&login("secret1"), &user).ok().unwrap();
    assert_eq!(t.user_id, "01234567-89ab-cdef-0123-456789abcdef");
    assert_eq!(t.email, "a@b.co");
    assert_eq!(t.role, "admin");
    assert_eq!(t.days, 7);
}

#[test]
fn wrong_password_is_unauthorized() {
    let user = user_with_hash(bcrypt::hash("secret1", 4).unwrap());
    assert!(matches!(check_login(&login("secret2"), &user), Err(AppError::Unauthorized)));
}

#[test]
fn malformed_hash_is_bcrypt_failure() {
    let user = user_with_hash("plain-text".to_string());
    match check_login(&login("secret1"), &user) {
        Err(AppError::Custom { msg, debug }) => {
            assert_eq!(msg, ERR_BCRYPT);
            assert!(debug.is_some());
        },
        other => panic!("{:?}", other.err()),
    }
}

#[test]
fn registered_password_logs_in() {
    let req = RegisterReq { email: "a@b.co".to_string(), username: "somchai".to_string(), password: "secret1".to_string() };
    let registered = hash_registration(req).ok().unwrap();
    assert_eq!(registered.email, "a@b.co");
    assert_eq!(registered.username, "somchai");
    assert_ne!(registered.password, "secret1");
    assert!(registered.password.starts_with("$2b$12$"));
    assert_eq!(registered.password.chars().count(), 60);
    let user = new_user(registered);
    let t = check_login(&login("secret1"), &user).ok().unwrap();
    assert_eq!(t.role, "user");
    assert!(matches!(check_login(&login("secret2"), &user), Err(AppError::Unauthorized)));
}

#[test]
fn token_outcome_passes_token() {
    assert_eq!(token_outcome(Ok("abc".to_string())).ok().unwrap(), "abc");
}

#[test]
fn token_outcome_reports_jwt_error() {
    match token_outcome(Err("InvalidKeyFormat".to_string())) {
        Err(AppError::Custom { msg, debug }) => {
            assert_eq!(msg, ERR_JWT);
            assert_eq!(debug, Some("InvalidKeyFormat".to_string()));
        },
        other => panic!("{:?}", other.err()),
    }
}

#[test]
fn login_verdict_cases() {
    let user = user_with_hash(String::new());
    let t = login_verdict(Ok(true), &user).ok().unwrap();
    assert_eq!(t.user_id, "01234567-89ab-cdef-0123-456789abcdef");
    assert!(matches!(login_verdict(Ok(false), &user), Err(AppError::Unauthorized)));
    match login_verdict(Err("invalid hash".to_string()), &user) {
        Err(AppError::Custom { msg, debug }) => {
            assert_eq!(msg, ERR_BCRYPT);
            assert_eq!(debug, Some("invalid hash".to_string()));
        },
        other => panic!("{:?}", other.err()),
    }
}

#[test]
fn malformed_hash_diagnostic_is_bcrypt_text() {
    let user = user_with_hash("plain-text".to_string());
    let expected = bcrypt::verify("secret1", "plain-text").unwrap_err().to_string();
    match check_login(&login("secret1"), &user) {
        Err(AppError::Custom { debug, .. }) => assert_eq!(debug, Some(expected)),
        other => panic!("{:?}", other.err()),
    }
}

#[test]
fn registration_outcome_cases() {
    let req = || RegisterReq { email: "a@b.co".to_string(), username: "u".to_string(), password: "p".to_string() };
    let out = registration_outcome(req(), Ok("HASH".to_string())).ok().unwrap();
    assert_eq!(out.email, "a@b.co");
    assert_eq!(out.username, "u");
    assert_eq!(out.password, "HASH");
    match registration_outcome(req(), Err("no randomness".to_string())) {
        Err(AppError::Custom { msg, debug }) => {
            assert_eq!(msg, ERR_BCRYPT);
            assert_eq!(debug, Some("no randomness".to_string()));
        },
        other => panic!("{:?}", other.err()),
    }
}

#[test]
fn signed_token_carries_the_claims_in_order() {
    let claims = Claims { user_id: "id-1".to_string(), email: "a@b.co".to_string(), role: "user".to_string(), exp: 1_725_634_669 };
    let token = sign_claims(&claims, b"secret").ok().unwrap();
    let mut validation = jsonwebtoken::Validation::new(jsonwebtoken::Algorithm::HS256);
    validation.validate_exp = false;
    let decoded = jsonwebtoken::decode::<serde_json::Value>(
        &token,
        &jsonwebtoken::DecodingKey::from_secret(b"secret"),
        &validation,
    )
    .unwrap();
    assert_eq!(
        serde_json::to_string(&decoded.claims).unwrap(),
        r#"{"user_id":"id-1","email":"a@b.co","role":"user","exp":1725634669}"#
    );
    assert_eq!(decoded.header.alg, jsonwebtoken::Algorithm::HS256);
    assert!(jsonwebtoken::decode::<serde_json::Value>(
        &token,
        &jsonwebtoken::DecodingKey::from_secret(b"other"),
        &validation,
    )
    .is_err());
}

#[test]
fn signing_is_deterministic() {
    let claims = Claims { user_id: "u".to_string(), email: "e".to_string(), role: "r".to_string(), exp: 7 };
    assert_eq!(sign_claims(&claims, b"k").ok().unwrap(), sign_claims(&claims, b"k").ok().unwrap());
    assert_ne!(sign_claims(&claims, b"k").ok().unwrap(), sign_claims(&claims, b"j").ok().unwrap());
}
