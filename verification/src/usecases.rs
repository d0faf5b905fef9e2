use vstd::prelude::*;
use crate::errors::{digit_char, AppError, ErrorView};
use crate::requests::{LoginReq, RegisterReq};
use crate::session::{Claims, TOKEN_DAYS};
use crate::users::{uuid_string, uuid_text, UserRecord};

verus! {

/// Diagnostic message of a failure of the password hashing library.
pub const ERR_BCRYPT: &'static str = "bcrypt error";
/// Diagnostic message of a failure to sign a token.
pub const ERR_JWT: &'static str = "jwt error";
/// The bcrypt work factor used for new passwords (`bcrypt::DEFAULT_COST`).
pub const HASH_COST: u32 = 12;

/// What `bcrypt::verify` answers for a password and a stored hash:
/// `Ok(matches)`, or the text of its error where it fails (a malformed hash).
pub uninterp spec fn bcrypt_verdict(password: Seq<char>, hash: Seq<char>) -> Result<bool, Seq<char>>;

/// `bcrypt::verify(password, hash)`, its error read as its text (`to_string`);
/// its answer is named.
#[verifier::external_body]
fn bcrypt_verify(password: &str, hash: &str) -> (r: Result<bool, String>)
    ensures
        match r {
            Ok(b) => bcrypt_verdict(password@, hash@) == Ok::<bool, Seq<char>>(b),
            Err(t) => bcrypt_verdict(password@, hash@) == Err::<bool, Seq<char>>(t@),
        },
{
    bcrypt::verify(password, hash).map_err(|e| e.to_string())
}

/// Whether an error text of the hashing library reports a failure to read
/// random bytes (`BcryptError::Rand`, written `Rand error: ...`).
pub open spec fn is_randomness_failure(t: Seq<char>) -> bool {
    t.len() >= 12 && t.subrange(0, 12) == "Rand error: "@
}

/// The cost field of a bcrypt hash: two decimal digits.
pub open spec fn cost_digits(cost: u32) -> Seq<char> {
    seq![digit_char((cost / 10) as int), digit_char((cost % 10) as int)]
}

/// The first seven characters of a bcrypt hash of the given cost:
/// `$2b$`, the cost in two digits, `$`.
pub open spec fn hash_prefix(cost: u32) -> Seq<char> {
    "$2b$"@ + cost_digits(cost) + "$"@
}

/// `bcrypt::hash(password, cost)`, its error read as its text (`to_string`).
/// The salt is random (and reading it can fail), so neither hash nor error is
/// named; what its source shows of every hash it returns is claimed: the cost
/// was one it allows (4 to 31); the text is 60 characters, `$2b$`, the cost in
/// two digits, `$`, then salt and digest (`format_for_version`); and
/// `bcrypt::verify` accepts the same password against it. For a cost it
/// allows, the one error it can return is a failure to read random bytes for
/// the salt (`hash_with_result`), whose text begins `Rand error: `.
#[verifier::external_body]
fn bcrypt_hash(password: &str, cost: u32) -> (r: Result<String, String>)
    ensures
        r matches Ok(h) ==> 4 <= cost <= 31,
        r matches Err(t) ==> (4 <= cost <= 31 ==> is_randomness_failure(t@)),
        r matches Ok(h) ==> h@.len() == 60 && h@.subrange(0, 7) == hash_prefix(cost),
        r matches Ok(h) ==> (bcrypt_verdict(password@, h@) matches Ok(true)),
{
    bcrypt::hash(password, cost).map_err(|e| e.to_string())
}

/// What a login token is issued for: the user's id as text, e-mail and role,
/// and the number of days it stays valid.
#[derive(Debug)]
pub struct TokenRequest {
    pub user_id: String,
    pub email: String,
    pub role: String,
    pub days: i64,
}

/// Whether a token request is the one issued for `user`.
pub open spec fn token_request_for(t: TokenRequest, user: UserRecord) -> bool {
    &&& t.user_id@ == uuid_text(user.id)
    &&& t.email == user.email
    &&& t.role == user.role
    &&& t.days == TOKEN_DAYS
}

/// Whether an error is the one reported for a failure of the hashing library.
pub open spec fn is_bcrypt_failure(e: ErrorView) -> bool {
    e matches ErrorView::Custom { msg, debug } && msg == ERR_BCRYPT@ && debug is Some
}

/// The token request issued for a user: its id as text, its e-mail and role,
/// valid for `TOKEN_DAYS` days.
pub fn token_request(user: &UserRecord) -> (r: TokenRequest)
    ensures
        token_request_for(r, *user),
        r.user_id@ == uuid_text(user.id),
        r.email == user.email,
        r.role == user.role,
        r.days == 7,
{
    TokenRequest { user_id: uuid_string(user.id), email: user.email.clone(), role: user.role.clone(), days: TOKEN_DAYS }
}

/// Whether an error is the one reported for a failure of the hashing
/// library, with the library's text as its diagnostic.
pub open spec fn is_bcrypt_failure_with(e: ErrorView, text: Seq<char>) -> bool {
    e == (ErrorView::Custom { msg: ERR_BCRYPT@, debug: Some(text) })
}

/// Decides a login from what the password check answered (`Ok(matches)`,
/// or the hashing library's error text).
pub fn login_verdict(checked: Result<bool, String>, user: &UserRecord) -> (r: Result<TokenRequest, AppError>)
    ensures
        match checked {
            Ok(true) => r matches Ok(t) && token_request_for(t, *user),
            Ok(false) => r matches Err(e) && e@ == ErrorView::Unauthorized,
            Err(text) => r matches Err(e) && is_bcrypt_failure_with(e@, text@),
        },
{
    match checked {
        Err(text) => Err(AppError::wrap(ERR_BCRYPT, text.as_str())),
        Ok(false) => Err(AppError::Unauthorized),
        Ok(true) => Ok(token_request(user)),
    }
}

/// The answer to a login against a stored user: a token request for the user
/// where the password matches the stored hash, `Unauthorized` where it does
/// not, the hashing library's failure (with its text) where it fails.
pub open spec fn login_answer(req: LoginReq, user: UserRecord, r: Result<TokenRequest, AppError>) -> bool {
    match bcrypt_verdict(req.password@, user.password@) {
        Ok(true) => r matches Ok(t) && token_request_for(t, user),
        Ok(false) => r matches Err(e) && e@ == ErrorView::Unauthorized,
        Err(text) => r matches Err(e) && is_bcrypt_failure_with(e@, text),
    }
}

/// Checks a login against the stored user: the password must match the
/// stored hash (`bcrypt::verify`), then [`login_verdict`] decides. A failure
/// of the hashing library is reported as such, a mismatch as `Unauthorized`.
pub fn check_login(req: &LoginReq, user: &UserRecord) -> (r: Result<TokenRequest, AppError>)
    ensures
        login_answer(*req, *user, r),
        (bcrypt_verdict(req.password@, user.password@) matches Ok(true)) ==> (r is Ok
            && r->Ok_0.user_id@ == uuid_text(user.id) && r->Ok_0.email == user.email
            && r->Ok_0.role == user.role && r->Ok_0.days == 7),
        (r is Err && r->Err_0@ == ErrorView::Unauthorized) <==> (bcrypt_verdict(req.password@, user.password@) matches Ok(false)),
        bcrypt_verdict(req.password@, user.password@) is Err ==> (r is Err
            && r->Err_0@ == (ErrorView::Custom {
                msg: ERR_BCRYPT@,
                debug: Some(bcrypt_verdict(req.password@, user.password@)->Err_0),
            })),
{
    let checked = bcrypt_verify(req.password.as_str(), user.password.as_str());
    login_verdict(checked, user)
}

/// Decides a registration from what hashing its password gave (the hash, or
/// the hashing library's error text): the request with its password replaced
/// by the hash, or the failure reported as such.
pub fn registration_outcome(req: RegisterReq, hashed: Result<String, String>) -> (r: Result<RegisterReq, AppError>)
    ensures
        match hashed {
            Ok(h) => r matches Ok(out) && out.email == req.email && out.username == req.username
                && out.password == h,
            Err(text) => r matches Err(e) && is_bcrypt_failure_with(e@, text@),
        },
{
    match hashed {
        Err(text) => Err(AppError::wrap(ERR_BCRYPT, text.as_str())),
        Ok(h) => {
            let RegisterReq { email, username, password: _ } = req;
            Ok(RegisterReq { email, username, password: h })
        },
    }
}

/// Whether `out` is `req` registered: same e-mail and user name, and as
/// password a 60-character bcrypt hash of cost 12 (`$2b$12$...`) that
/// `bcrypt::verify` accepts for `req`'s password.
pub open spec fn registered(req: RegisterReq, out: RegisterReq) -> bool {
    &&& out.email == req.email
    &&& out.username == req.username
    &&& out.password@.len() == 60
    &&& out.password@.subrange(0, 7) == "$2b$12$"@
    &&& bcrypt_verdict(req.password@, out.password@) matches Ok(true)
}

/// The answer to a registration: `Ok` with the request registered, or the
/// hashing library's failure to read random bytes, reported with its text.
pub open spec fn registration_answer(req: RegisterReq, r: Result<RegisterReq, AppError>) -> bool {
    match r {
        Ok(out) => registered(req, out),
        Err(e) => e@ matches ErrorView::Custom { msg, debug } && msg == ERR_BCRYPT@ && debug is Some
            && is_randomness_failure(debug.unwrap()),
    }
}

/// Replaces the password of a registration by its bcrypt hash of cost
/// `HASH_COST` (`bcrypt::hash`), then [`registration_outcome`] decides.
pub fn hash_registration(req: RegisterReq) -> (r: Result<RegisterReq, AppError>)
    ensures
        registration_answer(req, r),
        r is Ok ==> r->Ok_0.email == req.email && r->Ok_0.username == req.username
            && r->Ok_0.password@.len() == 60 && r->Ok_0.password@.subrange(0, 7) == "$2b$12$"@
            && (bcrypt_verdict(req.password@, r->Ok_0.password@) matches Ok(true)),
        r is Err ==> (r->Err_0@ matches ErrorView::Custom { msg, debug } && msg == ERR_BCRYPT@
            && debug is Some && is_randomness_failure(debug.unwrap())),
{
    let hashed = bcrypt_hash(req.password.as_str(), HASH_COST);
    proof {
        reveal_strlit("$2b$");
        reveal_strlit("$");
        reveal_strlit("$2b$12$");
        assert(hash_prefix(HASH_COST) =~= "$2b$12$"@);
    }
    registration_outcome(req, hashed)
}

/// The outcome of signing a token: the token, or the signer's error text
/// reported as a token failure.
pub fn token_outcome(signed: Result<String, String>) -> (r: Result<String, AppError>)
    ensures
        match signed {
            Ok(t) => r == Ok::<String, AppError>(t),
            Err(why) => r matches Err(e) && e@ == (ErrorView::Custom { msg: ERR_JWT@, debug: Some(why@) }),
        },
{
    match signed {
        Ok(t) => Ok(t),
        Err(why) => Err(AppError::wrap(ERR_JWT, why.as_str())),
    }
}

/// The token that `jsonwebtoken::encode` makes (HS256, the default header)
/// for the claims `user_id`, `email`, `role` and `exp` in that order, signed
/// with `secret`: `Ok(token)`, or the text of its error.
pub uninterp spec fn jwt_hs256(
    user_id: Seq<char>,
    email: Seq<char>,
    role: Seq<char>,
    exp: usize,
    secret: Seq<u8>,
) -> Result<Seq<char>, Seq<char>>;

/// `jsonwebtoken::encode` with the default header and
/// `EncodingKey::from_secret(secret)` of the claims as a JSON object whose
/// fields keep their order (serde_json's `preserve_order`), its error read as
/// its text. Its answer is named.
#[verifier::external_body]
fn jwt_encode(user_id: &str, email: &str, role: &str, exp: usize, secret: &[u8]) -> (r: Result<String, String>)
    ensures
        match r {
            Ok(t) => jwt_hs256(user_id@, email@, role@, exp, secret@) == Ok::<Seq<char>, Seq<char>>(t@),
            Err(e) => jwt_hs256(user_id@, email@, role@, exp, secret@) == Err::<Seq<char>, Seq<char>>(e@),
        },
{
    let mut claims = serde_json::Map::new();
    claims.insert("user_id".to_string(), user_id.into());
    claims.insert("email".to_string(), email.into());
    claims.insert("role".to_string(), role.into());
    claims.insert("exp".to_string(), exp.into());
    let key = jsonwebtoken::EncodingKey::from_secret(secret);
    jsonwebtoken::encode(&jsonwebtoken::Header::default(), &claims, &key).map_err(|e| e.to_string())
}

/// Signs a token for the claims with the secret (HS256); a failure of the
/// signer is reported as a token failure with its text.
pub fn sign_claims(c: &Claims, secret: &[u8]) -> (r: Result<String, AppError>)
    ensures
        match jwt_hs256(c.user_id@, c.email@, c.role@, c.exp, secret@) {
            Ok(t) => r matches Ok(s) && s@ == t,
            Err(e) => r matches Err(x) && x@ == (ErrorView::Custom { msg: ERR_JWT@, debug: Some(e) }),
        },
{
    let signed = jwt_encode(c.user_id.as_str(), c.email.as_str(), c.role.as_str(), c.exp, secret);
    token_outcome(signed)
}

} // verus!
