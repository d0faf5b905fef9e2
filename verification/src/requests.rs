use vstd::prelude::*;
use vstd::string::StringExecFns;
use validator::ValidationErrors;
use crate::errors::{AppError, ErrorView, ERR_INVALID, STATUS_BAD_REQUEST};
use crate::validation::{
    add_count_param, add_issue, add_text_param, all_have_messages, email_accepted, email_is_valid, entry_line,
    field_issues, format_validation_error, is_shown_message, issues_text, joined_messages, length_at_least,
    is_issues_text, nested_fields, new_issue, new_issue_set, no_issues,
};

verus! {

/// Message for an e-mail address that is not valid.
pub const ERR_EMAIL: &'static str = "อีเมลไม่ถูกต้อง";
/// Message for a password that is too short.
pub const ERR_PASSWORD_SHORT: &'static str = "รหัสผ่านต้องมีอย่างน้อย 6 ตัว";
/// Message for a body that is not readable JSON of the expected shape.
pub const ERR_BAD_FORMAT: &'static str = "รูปแบบข้อมูลไม่ถูกต้อง";
/// Diagnostic for a request without a body.
pub const BODY_EMPTY: &'static str = "body empty";
/// The least number of characters of a password.
pub const PASSWORD_MIN_CHARS: u64 = 6;

/// A login request.
#[derive(Debug)]
pub struct LoginReq {
    pub email: String,
    pub username: String,
    pub password: String,
}

/// A registration request.
#[derive(Debug)]
pub struct RegisterReq {
    pub email: String,
    pub username: String,
    pub password: String,
}

/// Whether a login request passes its field checks.
pub open spec fn login_valid(email: Seq<char>, password: Seq<char>) -> bool {
    email_accepted(email) && password.len() >= PASSWORD_MIN_CHARS
}

/// The field-level problems of a login request, given whether the e-mail
/// check and the length check passed: `email` with code `email`, `password`
/// with code `length`, each with its message.
pub open spec fn login_issues_from(email_ok: bool, length_ok: bool) -> Map<Seq<char>, Seq<(Seq<char>, Option<Seq<char>>)>> {
    let m = if email_ok {
        no_issues()
    } else {
        no_issues().insert("email"@, seq![("email"@, Some(ERR_EMAIL@))])
    };
    if length_ok {
        m
    } else {
        m.insert("password"@, seq![("length"@, Some(ERR_PASSWORD_SHORT@))])
    }
}

/// The field-level problems of a login request: `email` fails the e-mail
/// check, `password` has fewer than six characters.
pub open spec fn login_issues(email: Seq<char>, password: Seq<char>) -> Map<Seq<char>, Seq<(Seq<char>, Option<Seq<char>>)>> {
    login_issues_from(email_accepted(email), password.len() >= PASSWORD_MIN_CHARS)
}

impl LoginReq {
    /// Records the failed checks of the request, given the verdicts of the
    /// e-mail check and the length check: under `email` an error with code
    /// `email`, its message and the parameter `value`; under `password` an
    /// error with code `length`, its message and the parameters `min` and
    /// `value`.
    pub fn issues_for(&self, email_ok: bool, length_ok: bool) -> (r: Result<(), ValidationErrors>)
        ensures
            r is Ok <==> email_ok && length_ok,
            r matches Err(e) ==> field_issues(e) == login_issues_from(email_ok, length_ok),
            r matches Err(e) ==> nested_fields(e) == Set::<Seq<char>>::empty(),
    {
        proof {
            reveal_strlit("email");
            reveal_strlit("password");
        }
        let mut errors = new_issue_set();
        if !email_ok {
            let mut err = new_issue("email", ERR_EMAIL);
            add_text_param(&mut err, "value", &self.email);
            add_issue(&mut errors, "email", err);
        }
        assert(field_issues(errors) =~= (if email_ok { no_issues() } else {
            no_issues().insert("email"@, seq![("email"@, Some(ERR_EMAIL@))])
        }));
        assert("password"@ != "email"@) by {
            assert("password"@.len() != "email"@.len());
        }
        assert(!field_issues(errors).contains_key("password"@));
        if !length_ok {
            let mut err = new_issue("length", ERR_PASSWORD_SHORT);
            add_count_param(&mut err, "min", PASSWORD_MIN_CHARS);
            add_text_param(&mut err, "value", &self.password);
            add_issue(&mut errors, "password", err);
        }
        assert(field_issues(errors) =~= login_issues_from(email_ok, length_ok));
        if email_ok && length_ok {
            Ok(())
        } else {
            Err(errors)
        }
    }

    /// Checks the fields: `email` must be an e-mail address, `password` must
    /// have at least six characters; the failed checks are recorded by
    /// [`LoginReq::issues_for`].
    pub fn validate(&self) -> (r: Result<(), ValidationErrors>)
        ensures
            r is Ok <==> login_valid(self.email@, self.password@),
            r matches Err(e) ==> field_issues(e) == login_issues(self.email@, self.password@),
            r matches Err(e) ==> nested_fields(e) == Set::<Seq<char>>::empty(),
            !self.email@.contains('@') ==> r is Err,
            r is Ok <==> (email_accepted(self.email@) && self.password@.len() >= 6),
            self.password@.len() < 6 ==> r is Err,
    {
        let email_ok = email_is_valid(&self.email);
        let length_ok = length_at_least(&self.password, PASSWORD_MIN_CHARS);
        self.issues_for(email_ok, length_ok)
    }
}

/// A request body as the server read it: missing, not readable as the
/// expected JSON (with the parser's message), read and passing its field
/// checks, or read and failing them (with the problems found).
pub enum Submitted<T> {
    Absent,
    Unreadable(String),
    Accepted(T),
    Refused(ValidationErrors),
}

/// Accepts a request body: a missing or unreadable body is `ERR_INVALID`;
/// a body that fails its checks is answered with the message shown for its
/// problems and, as diagnostic, their text (`Display`); a body that passes is
/// returned.
pub fn accept_body<T>(body: Submitted<T>) -> (r: Result<T, AppError>)
    ensures
        match body {
            Submitted::Absent => r matches Err(e)
                && e@ == (ErrorView::Custom { msg: ERR_INVALID@, debug: Some(BODY_EMPTY@) }),
            Submitted::Unreadable(why) => r matches Err(e)
                && e@ == (ErrorView::Custom { msg: ERR_INVALID@, debug: Some(why@) }),
            Submitted::Accepted(v) => r == Ok::<T, AppError>(v),
            Submitted::Refused(errs) => r matches Err(e)
                && e@ matches ErrorView::Custom { msg, debug }
                && is_shown_message(field_issues(errs), msg)
                && debug is Some
                && is_issues_text(field_issues(errs), nested_fields(errs), debug.unwrap()),
        },
{
    match body {
        Submitted::Absent => Err(AppError::wrap(ERR_INVALID, BODY_EMPTY)),
        Submitted::Unreadable(why) => Err(AppError::wrap(ERR_INVALID, why.as_str())),
        Submitted::Accepted(v) => Ok(v),
        Submitted::Refused(errs) => {
            let text = issues_text(&errs);
            let msg = format_validation_error(&errs);
            Err(AppError::wrap(msg.as_str(), text.as_str()))
        },
    }
}

/// The answer to a login request that fails its checks: the e-mail or the
/// password problem alone is answered with its message and the text
/// `field: message`; when both fail, one of the two messages is shown, with
/// both lines in either order.
pub open spec fn login_refusal(email: Seq<char>, password: Seq<char>, e: ErrorView) -> bool {
    if !email_accepted(email) && password.len() >= PASSWORD_MIN_CHARS {
        e == (ErrorView::Custom { msg: ERR_EMAIL@, debug: Some("email: "@ + ERR_EMAIL@) })
    } else if email_accepted(email) && password.len() < PASSWORD_MIN_CHARS {
        e == (ErrorView::Custom { msg: ERR_PASSWORD_SHORT@, debug: Some("password: "@ + ERR_PASSWORD_SHORT@) })
    } else {
        let email_line = "email: "@ + ERR_EMAIL@;
        let password_line = "password: "@ + ERR_PASSWORD_SHORT@;
        e matches ErrorView::Custom { msg, debug }
            && (msg == ERR_EMAIL@ || msg == ERR_PASSWORD_SHORT@)
            && (debug == Some(email_line + "\n"@ + password_line) || debug == Some(password_line + "\n"@ + email_line))
    }
}

/// Accepts a login body (`None` when the request has none, else what the
/// JSON parser gave): it is returned when present, readable and valid.
pub fn accept_login_body(body: Option<Result<LoginReq, String>>) -> (r: Result<LoginReq, AppError>)
    ensures
        match body {
            None => r matches Err(e)
                && e@ == (ErrorView::Custom { msg: ERR_INVALID@, debug: Some(BODY_EMPTY@) }),
            Some(Err(why)) => r matches Err(e)
                && e@ == (ErrorView::Custom { msg: ERR_INVALID@, debug: Some(why@) }),
            Some(Ok(req)) => if login_valid(req.email@, req.password@) {
                r == Ok::<LoginReq, AppError>(req)
            } else {
                r matches Err(e) && login_refusal(req.email@, req.password@, e@)
            },
        },
        body matches Some(Ok(req)) && !req.email@.contains('@') ==> r is Err,
        body matches Some(Ok(req)) && req.password@.len() < 6 ==> r is Err,
        r is Ok ==> (body matches Some(Ok(req)) && email_accepted(req.email@) && req.password@.len() >= 6),
{
    let ghost given = body;
    let submitted = match body {
        None => Submitted::Absent,
        Some(Err(why)) => Submitted::Unreadable(why),
        Some(Ok(req)) => {
            match req.validate() {
                Ok(()) => Submitted::Accepted(req),
                Err(errs) => {
                    let ghost email = req.email@;
                    let ghost password = req.password@;
                    proof {
                        reveal_strlit("email");
                        reveal_strlit("password");
                        reveal_strlit(": ");
                        reveal_strlit("email: ");
                        reveal_strlit("password: ");
                        assert("email"@ + ": "@ =~= "email: "@);
                        assert("password"@ + ": "@ =~= "password: "@);
                        let m = field_issues(errs);
                        assert("password"@ != "email"@) by {
                            assert("password"@.len() != "email"@.len());
                        }
                        if !email_accepted(email) && password.len() >= PASSWORD_MIN_CHARS {
                            assert(m =~= no_issues().insert("email"@, m["email"@]));
                            assert(all_have_messages(m["email"@]));
                            assert(joined_messages(m["email"@]) == ERR_EMAIL@);
                        } else if email_accepted(email) && password.len() < PASSWORD_MIN_CHARS {
                            assert(m =~= no_issues().insert("password"@, m["password"@]));
                            assert(all_have_messages(m["password"@]));
                            assert(joined_messages(m["password"@]) == ERR_PASSWORD_SHORT@);
                        } else {
                            assert(m =~= no_issues().insert("email"@, m["email"@]).insert("password"@, m["password"@]));
                            assert(all_have_messages(m["email"@]));
                            assert(all_have_messages(m["password"@]));
                            assert(joined_messages(m["email"@]) == ERR_EMAIL@);
                            assert(joined_messages(m["password"@]) == ERR_PASSWORD_SHORT@);
                            assert(entry_line("email"@, m["email"@]) == "email: "@ + ERR_EMAIL@);
                            assert(entry_line("password"@, m["password"@]) == "password: "@ + ERR_PASSWORD_SHORT@);
                        }
                    }
                    Submitted::Refused(errs)
                },
            }
        },
    };
    let r = accept_body(submitted);
    let ghost answer = r;
    proof {
        if let Some(Ok(req)) = given {
            if !login_valid(req.email@, req.password@) {
                if let Err(e) = answer {
                    if let ErrorView::Custom { msg, debug } = e@ {
                        crate::laws::lemma_login_refusal_message(req.email@, req.password@, msg);
                    }
                }
            }
        }
    }
    r
}

/// A request body that was read as JSON and passed its field checks.
#[derive(Debug)]
pub struct ValidatedJson<T>(pub T);

/// The answer to a body that [`ValidatedJson`] refuses:
/// status 400 and `{"success": false, "message": ..}`.
#[derive(Debug)]
pub struct JsonRejection {
    pub status: u16,
    pub success: bool,
    pub message: String,
}

impl<T> ValidatedJson<T> {
    /// Accepts a request body: a missing or unreadable body is refused with
    /// `ERR_BAD_FORMAT`, one that fails its checks with the message shown for
    /// its problems.
    pub fn from_submitted(body: Submitted<T>) -> (r: Result<ValidatedJson<T>, JsonRejection>)
        ensures
            match body {
                Submitted::Accepted(v) => r matches Ok(j) && j.0 == v,
                Submitted::Refused(errs) => r matches Err(rej) && rej.status == STATUS_BAD_REQUEST
                    && !rej.success && is_shown_message(field_issues(errs), rej.message@),
                _ => r matches Err(rej) && rej.status == STATUS_BAD_REQUEST && !rej.success
                    && rej.message@ == ERR_BAD_FORMAT@,
            },
    {
        match body {
            Submitted::Accepted(v) => Ok(ValidatedJson(v)),
            Submitted::Refused(errs) => Err(JsonRejection {
                status: STATUS_BAD_REQUEST,
                success: false,
                message: format_validation_error(&errs),
            }),
            _ => Err(JsonRejection {
                status: STATUS_BAD_REQUEST,
                success: false,
                message: String::from_str(ERR_BAD_FORMAT),
            }),
        }
    }
}

} // verus!
