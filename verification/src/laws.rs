use vstd::prelude::*;
use crate::errors::{
    db_failure_error, debug_of, status_of, AppError, DbFailureView, ErrorView, SqlErrKind, STATUS_BAD_REQUEST,
    STATUS_CONFLICT, STATUS_INTERNAL_SERVER_ERROR,
};
use crate::requests::{login_issues, login_valid, LoginReq, RegisterReq, ERR_EMAIL, ERR_PASSWORD_SHORT};
use crate::usecases::{
    bcrypt_verdict, login_answer, registered, registration_answer, token_request_for, TokenRequest,
    ERR_BCRYPT,
};
use crate::users::{hex_digits, stored_record, uuid_text, UserRecord};
use crate::validation::{email_accepted, first_shown, is_shown_message, no_issues};

verus! {

/// A password stored by registration is accepted at login: when
/// `hash_registration` registered `req` as `out`, `new_user` stored `out` as
/// `user`, and `check_login` answered `r` to a login with `req`'s password,
/// then `r` is a token request for `user`.
pub proof fn lemma_registered_password_accepted(
    req: RegisterReq,
    out: RegisterReq,
    user: UserRecord,
    login: LoginReq,
    r: Result<TokenRequest, AppError>,
)
    requires
        registered(req, out),
        stored_record(out, user),
        login_answer(login, user, r),
        login.password@ == req.password@,
    ensures
        r matches Ok(t) && token_request_for(t, user),
        r is Ok && r->Ok_0.email == req.email && r->Ok_0.user_id@ == uuid_text(user.id),
{
}

/// The token request issued for a user carries that user's id as UUID text,
/// the user's e-mail and role, and seven days of validity, whoever the user is.
pub proof fn lemma_token_request_fields(t: TokenRequest, user: UserRecord)
    requires
        token_request_for(t, user),
    ensures
        t.user_id@ == uuid_text(user.id),
        t.email == user.email,
        t.role == user.role,
        t.days == 7,
{
}

/// A login answers with the user's token request exactly when `bcrypt::verify`
/// accepts the password against the stored hash, `Unauthorized` exactly when
/// it refuses it, and the library's failure with its text when it fails;
/// role, id, name and avatar of the user play no part.
pub proof fn lemma_login_answer_cases(req: LoginReq, user: UserRecord, r: Result<TokenRequest, AppError>)
    requires
        login_answer(req, user, r),
    ensures
        (bcrypt_verdict(req.password@, user.password@) matches Ok(true)) ==> (r is Ok
            && r->Ok_0.user_id@ == uuid_text(user.id) && r->Ok_0.email == user.email
            && r->Ok_0.role == user.role && r->Ok_0.days == 7),
        r is Ok <==> (bcrypt_verdict(req.password@, user.password@) matches Ok(true)),
        (r is Err && r->Err_0@ == ErrorView::Unauthorized) <==> (bcrypt_verdict(req.password@, user.password@) matches Ok(false)),
        bcrypt_verdict(req.password@, user.password@) is Err ==> (r is Err
            && r->Err_0@ == (ErrorView::Custom {
                msg: ERR_BCRYPT@,
                debug: Some(bcrypt_verdict(req.password@, user.password@)->Err_0),
            })),
{
}

/// Two logins with the same password against users that store the same hash
/// succeed or fail alike, whatever else the two users hold.
pub proof fn lemma_login_depends_on_hash_only(
    req: LoginReq,
    u1: UserRecord,
    u2: UserRecord,
    r1: Result<TokenRequest, AppError>,
    r2: Result<TokenRequest, AppError>,
)
    requires
        login_answer(req, u1, r1),
        login_answer(req, u2, r2),
        u1.password@ == u2.password@,
    ensures
        r1 is Ok <==> r2 is Ok,
        (r1 is Err && r1->Err_0@ == ErrorView::Unauthorized) <==> (r2 is Err && r2->Err_0@ == ErrorView::Unauthorized),
{
}

/// A registration answered `Ok` keeps the e-mail and user name and stores a
/// 60-character `$2b$12$` hash that `bcrypt::verify` accepts for the
/// password; a refused one reports the hashing library's failure to read
/// random bytes, with its text. No password is refused for its content.
pub proof fn lemma_registration_answer_cases(req: RegisterReq, r: Result<RegisterReq, AppError>)
    requires
        registration_answer(req, r),
    ensures
        r is Ok ==> r->Ok_0.email == req.email && r->Ok_0.username == req.username
            && r->Ok_0.password@.len() == 60 && r->Ok_0.password@.subrange(0, 7) == "$2b$12$"@
            && (bcrypt_verdict(req.password@, r->Ok_0.password@) matches Ok(true)),
        r is Err ==> (r->Err_0@ matches ErrorView::Custom { msg, debug } && msg == ERR_BCRYPT@
            && debug is Some && debug.unwrap().len() >= 12 && debug.unwrap().subrange(0, 12) == "Rand error: "@),
{
}

/// The record stored for a registration holds the request's e-mail, user
/// name and password, no avatar, the role `user` and a version-4 id.
pub proof fn lemma_stored_record_fields(dto: RegisterReq, r: UserRecord)
    requires
        stored_record(dto, r),
    ensures
        r.email == dto.email,
        r.user_name == dto.username,
        r.password == dto.password,
        r.avatar is None,
        r.role@ == "user"@,
        r.id & 0xF0000000000000000000u128 == 0x40000000000000000000u128,
{
    reveal_strlit("user");
}

/// A login request passes its checks exactly when validator accepts the
/// e-mail and the password has at least six characters; a shorter password
/// is recorded under `password` with code `length` and its message.
pub proof fn lemma_login_checks(email: Seq<char>, password: Seq<char>)
    ensures
        login_valid(email, password) <==> (email_accepted(email) && password.len() >= 6),
        password.len() < 6 ==> login_issues(email, password).contains_key("password"@)
            && login_issues(email, password)["password"@] == seq![("length"@, Some(ERR_PASSWORD_SHORT@))],
        !email_accepted(email) ==> login_issues(email, password).contains_key("email"@)
            && login_issues(email, password)["email"@] == seq![("email"@, Some(ERR_EMAIL@))],
{
    reveal_strlit("email");
    reveal_strlit("password");
    assert("password"@ != "email"@) by {
        assert("password"@.len() != "email"@.len());
    }
}

/// A violated unique constraint is answered as a duplicate (409), whatever
/// the variant and the text of the database error.
pub proof fn lemma_unique_violation_is_duplicate(f: DbFailureView)
    requires
        f.sql == Some(SqlErrKind::UniqueConstraintViolation),
    ensures
        db_failure_error(f) == ErrorView::Duplicate,
        status_of(db_failure_error(f)) == STATUS_CONFLICT,
{
}

/// Every other database failure carries the database error's text as its
/// diagnostic, and is answered with 400 or 500.
pub proof fn lemma_db_failure_keeps_text(f: DbFailureView)
    requires
        f.sql != Some(SqlErrKind::UniqueConstraintViolation),
    ensures
        debug_of(db_failure_error(f)) == Some(f.text),
        status_of(db_failure_error(f)) == STATUS_BAD_REQUEST
            || status_of(db_failure_error(f)) == STATUS_INTERNAL_SERVER_ERROR,
{
}

/// An error is answered with a server status (500) exactly when it is internal.
pub proof fn lemma_server_status_iff_internal(e: ErrorView)
    ensures
        (status_of(e) == STATUS_INTERNAL_SERVER_ERROR) <==> (e is Internal),
{
}

/// A refused login body is answered with the message of a check that failed:
/// the e-mail message when only the e-mail fails, the password message when
/// only the password fails, one of the two when both fail.
pub proof fn lemma_login_refusal_message(email: Seq<char>, password: Seq<char>, msg: Seq<char>)
    requires
        !login_valid(email, password),
        is_shown_message(login_issues(email, password), msg),
    ensures
        msg == ERR_EMAIL@ || msg == ERR_PASSWORD_SHORT@,
        email_accepted(email) ==> msg == ERR_PASSWORD_SHORT@,
        password.len() >= 6 ==> msg == ERR_EMAIL@,
{
    reveal_strlit("email");
    reveal_strlit("password");
    let m = login_issues(email, password);
    assert("password"@ != "email"@) by {
        assert("password"@.len() != "email"@.len());
    }
    if m == no_issues() {
        if !email_accepted(email) {
            assert(m.contains_key("email"@));
        } else {
            assert(m.contains_key("password"@));
        }
        assert(false);
    }
    let k = choose|k: Seq<char>| m.contains_key(k) && msg == first_shown(#[trigger] m[k]);
    if k == "email"@ {
        assert(!email_accepted(email));
        assert(m[k] == seq![("email"@, Some(ERR_EMAIL@))]);
    } else {
        assert(k == "password"@);
        assert(m[k] == seq![("length"@, Some(ERR_PASSWORD_SHORT@))]);
    }
}

proof fn lemma_hex_digits_len(v: nat, n: nat)
    ensures
        hex_digits(v, n).len() == n,
    decreases n,
{
    if n > 0 {
        lemma_hex_digits_len(v / 16, (n - 1) as nat);
    }
}

/// The text of a user id has 36 characters, with hyphens at positions
/// 8, 13, 18 and 23.
pub proof fn lemma_uuid_text_shape(id: u128)
    ensures
        uuid_text(id).len() == 36,
        uuid_text(id)[8] == '-',
        uuid_text(id)[13] == '-',
        uuid_text(id)[18] == '-',
        uuid_text(id)[23] == '-',
{
    lemma_hex_digits_len(id as nat, 32);
}

} // verus!
