use auth_api::errors::{AppError, ERR_INVALID};
use auth_api::requests::{
    accept_body, accept_login_body, LoginReq, Submitted, ValidatedJson, BODY_EMPTY, ERR_BAD_FORMAT, ERR_EMAIL,
    ERR_PASSWORD_SHORT,
};
use auth_api::validation::{format_validation_error, shown_message, FieldIssue, ERR_DATA_INVALID};
use std::borrow::Cow;
use validator::{ValidationError, ValidationErrors};

fn login(email: &str, password: &str) -> LoginReq {
    LoginReq { email: email.to_string(), username: "somchai".to_string(), password: password.to_string() }
}

fn custom(e: &AppError) -> (String, Option<String>) {
    match e {
        AppError::Custom { msg, debug } => (msg.clone(), debug.clone()),
        other => panic!("expected a custom error, got {:?}", other),
    }
}

fn email_ok(email: &str) -> bool {
    login(email, "secret1").validate().is_ok()
}

fn password_ok(password: &str) -> bool {
    login("user@example.com", password).validate().is_ok()
}

#[test]
fn email_check_examples() {
    assert!(email_ok("user@example.com"));
    assert!(!email_ok("user.example.com"));
    assert!(!email_ok(""));
    assert!(!email_ok("user@"));
}

#[test]
fn password_length_counts_characters() {
    assert!(!password_ok("abcde"));
    assert!(password_ok("abcdef"));
    // six Thai characters, eighteen bytes
    assert!(password_ok("รหัสผา"));
    // four Thai characters, twelve bytes
    assert!(!password_ok("รหัส"));
}

#[test]
fn valid_login_passes() {
    assert!(login("a@b.co", "secret").validate().is_ok());
}

#[test]
fn bad_email_is_reported_under_email() {
    let errs = login("not-an-email", "secret1").validate().unwrap_err();
    let fields = errs.field_errors();
    assert_eq!(fields.len(), 1);
    let list = fields.get("email").unwrap();
    assert_eq!(list.len(), 1);
    assert_eq!(list[0].code, "email");
    assert_eq!(list[0].message.as_deref(), Some(ERR_EMAIL));
    assert_eq!(format_validation_error(&errs), ERR_EMAIL);
}

#[test]
fn short_password_is_reported_under_password() {
    let errs = login("a@b.co", "12345").validate().unwrap_err();
    let fields = errs.field_errors();
    assert_eq!(fields.len(), 1);
    assert_eq!(fields.get("password").unwrap()[0].code, "length");
    assert_eq!(format_validation_error(&errs), ERR_PASSWORD_SHORT);
    assert_eq!(errs.to_string(), format!("password: {}", ERR_PASSWORD_SHORT));
}

#[test]
fn both_failures_are_reported() {
    let errs = login("nope", "123").validate().unwrap_err();
    assert_eq!(errs.field_errors().len(), 2);
    let shown = format_validation_error(&errs);
    assert!(shown == ERR_EMAIL || shown == ERR_PASSWORD_SHORT);
}

#[test]
fn no_field_problems_shows_general_message() {
    assert_eq!(format_validation_error(&ValidationErrors::new()), ERR_DATA_INVALID);
}

#[test]
fn problem_without_message_shows_code() {
    let mut errs = ValidationErrors::new();
    errs.add("name", ValidationError::new("required"));
    assert_eq!(format_validation_error(&errs), "required");
}

#[test]
fn problem_with_message_shows_message() {
    let mut errs = ValidationErrors::new();
    errs.add("name", ValidationError::new("required").with_message(Cow::Borrowed("name is needed")));
    errs.add("name", ValidationError::new("length"));
    assert_eq!(format_validation_error(&errs), "name is needed");
}

#[test]
fn body_absent_is_invalid() {
    let r: Result<u8, AppError> = accept_body(Submitted::Absent);
    let (msg, debug) = custom(&r.unwrap_err());
    assert_eq!(msg, ERR_INVALID);
    assert_eq!(debug, Some(BODY_EMPTY.to_string()));
}

#[test]
fn body_unreadable_is_invalid_with_parser_text() {
    let r: Result<u8, AppError> = accept_body(Submitted::Unreadable("EOF at line 1".to_string()));
    let (msg, debug) = custom(&r.unwrap_err());
    assert_eq!(msg, ERR_INVALID);
    assert_eq!(debug, Some("EOF at line 1".to_string()));
}

#[test]
fn body_read_and_valid_is_returned() {
    let r = accept_body(Submitted::Accepted(42u8));
    assert_eq!(r.unwrap(), 42);
}

#[test]
fn body_failing_checks_shows_first_message() {
    let mut errs = ValidationErrors::new();
    errs.add("email", ValidationError::new("email").with_message(Cow::Borrowed(ERR_EMAIL)));
    let r: Result<u8, AppError> = accept_body(Submitted::Refused(errs));
    let (msg, debug) = custom(&r.unwrap_err());
    assert_eq!(msg, ERR_EMAIL);
    assert_eq!(debug, Some(format!("email: {}", ERR_EMAIL)));
}

#[test]
fn login_body_missing() {
    let (msg, debug) = custom(&accept_login_body(None).unwrap_err());
    assert_eq!(msg, ERR_INVALID);
    assert_eq!(debug, Some("body empty".to_string()));
}

#[test]
fn login_body_accepted_unchanged() {
    let req = accept_login_body(Some(Ok(login("a@b.co", "secret1")))).unwrap();
    assert_eq!(req.email, "a@b.co");
    assert_eq!(req.username, "somchai");
    assert_eq!(req.password, "secret1");
}

#[test]
fn login_body_short_password_refused() {
    let (msg, debug) = custom(&accept_login_body(Some(Ok(login("a@b.co", "abc")))).unwrap_err());
    assert_eq!(msg, ERR_PASSWORD_SHORT);
    assert_eq!(debug, Some(format!("password: {}", ERR_PASSWORD_SHORT)));
}

#[test]
fn login_body_bad_email_refused() {
    let (msg, debug) = custom(&accept_login_body(Some(Ok(login("a.b.co", "abcdef")))).unwrap_err());
    assert_eq!(msg, ERR_EMAIL);
    assert_eq!(debug, Some(format!("email: {}", ERR_EMAIL)));
}

#[test]
fn validated_json_accepts_valid() {
    let r = ValidatedJson::from_submitted(Submitted::Accepted("x".to_string()));
    assert!(matches!(r, Ok(ValidatedJson(s)) if s == "x"));
}

#[test]
fn validated_json_refuses_unreadable() {
    let r: Result<ValidatedJson<u8>, _> = ValidatedJson::from_submitted(Submitted::Unreadable("x".to_string()));
    let rej = r.err().unwrap();
    assert_eq!(rej.status, 400);
    assert!(!rej.success);
    assert_eq!(rej.message, ERR_BAD_FORMAT);
}

#[test]
fn validated_json_refuses_invalid_with_message() {
    let errs = login("a@b.co", "1").validate().unwrap_err();
    let rej: auth_api::requests::JsonRejection =
        ValidatedJson::<u8>::from_submitted(Submitted::Refused(errs)).err().unwrap();
    assert_eq!(rej.status, 400);
    assert!(!rej.success);
    assert_eq!(rej.message, ERR_PASSWORD_SHORT);
}

#[test]
fn login_body_both_failing_shows_one_message() {
    let (msg, debug) = custom(&accept_login_body(Some(Ok(login("nope", "1")))).unwrap_err());
    assert!(msg == ERR_EMAIL || msg == ERR_PASSWORD_SHORT);
    let text = debug.unwrap();
    let email_line = format!("email: {}", ERR_EMAIL);
    let password_line = format!("password: {}", ERR_PASSWORD_SHORT);
    assert!(
        text == format!("{}\n{}", email_line, password_line) || text == format!("{}\n{}", password_line, email_line)
    );
}

#[test]
fn login_body_same_answer_twice() {
    let first = custom(&accept_login_body(Some(Ok(login("a@b.co", "1")))).unwrap_err());
    let second = custom(&accept_login_body(Some(Ok(login("a@b.co", "1")))).unwrap_err());
    assert_eq!(first, second);
}

#[test]
fn login_errors_carry_the_derive_parameters() {
    let errs = login("nope", "123").validate().unwrap_err();
    let fields = errs.field_errors();
    let email = &fields.get("email").unwrap()[0];
    assert_eq!(email.params.get("value"), Some(&serde_json::Value::from("nope")));
    let password = &fields.get("password").unwrap()[0];
    assert_eq!(password.params.get("min"), Some(&serde_json::Value::from(6u64)));
    assert_eq!(password.params.get("value"), Some(&serde_json::Value::from("123")));
    assert_eq!(password.params.len(), 2);
    assert_eq!(email.params.len(), 1);
}

#[test]
fn issues_for_given_verdicts() {
    let req = login("whatever", "x");
    assert!(req.issues_for(true, true).is_ok());
    let only_length = req.issues_for(true, false).unwrap_err();
    assert_eq!(only_length.field_errors().len(), 1);
    assert_eq!(format_validation_error(&only_length), ERR_PASSWORD_SHORT);
    let only_email = req.issues_for(false, true).unwrap_err();
    assert_eq!(format_validation_error(&only_email), ERR_EMAIL);
    assert_eq!(req.issues_for(false, false).unwrap_err().field_errors().len(), 2);
}

#[test]
fn shown_message_cases() {
    assert_eq!(shown_message(None), ERR_DATA_INVALID);
    assert_eq!(shown_message(Some(vec![])), ERR_DATA_INVALID);
    let coded = FieldIssue { code: "required".to_string(), message: None };
    assert_eq!(shown_message(Some(vec![coded])), "required");
    let first = FieldIssue { code: "a".to_string(), message: Some("first".to_string()) };
    let second = FieldIssue { code: "b".to_string(), message: Some("second".to_string()) };
    assert_eq!(shown_message(Some(vec![first, second])), "first");
}

#[test]
fn address_without_at_is_refused() {
    assert!(login("not-an-email", "secret1").validate().is_err());
    assert!(accept_login_body(Some(Ok(login("not-an-email", "secret1")))).is_err());
}
