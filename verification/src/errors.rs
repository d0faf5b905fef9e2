use vstd::prelude::*;
use vstd::string::StringExecFns;

verus! {

/// Message shown when a requested record does not exist.
pub const ERR_NOT_FOUND: &'static str = "ไม่พบข้อมูลที่ต้องการ";
/// Message shown when the caller lacks the right to the resource.
pub const ERR_UNAUTHORIZED: &'static str = "คุณไม่มีสิทธิ์เข้าถึง";
/// Message shown for a failure inside the service.
pub const ERR_INTERNAL: &'static str = "เกิดข้อผิดพลาดภายในระบบ";
/// Message shown when the record already exists.
pub const ERR_DUPLICATE: &'static str = "ข้อมูลนี้มีอยู่ในระบบแล้ว";
/// Message shown when the submitted data is not acceptable.
pub const ERR_INVALID: &'static str = "ข้อมูลที่ส่งมาไม่ถูกต้อง";

/// HTTP status of a request that the service refuses as malformed.
pub const STATUS_BAD_REQUEST: u16 = 400;
/// HTTP status of a request without valid credentials.
pub const STATUS_UNAUTHORIZED: u16 = 401;
/// HTTP status of a request for a missing record.
pub const STATUS_NOT_FOUND: u16 = 404;
/// HTTP status of a request that conflicts with a stored record.
pub const STATUS_CONFLICT: u16 = 409;
/// HTTP status of a failure inside the service.
pub const STATUS_INTERNAL_SERVER_ERROR: u16 = 500;

/// An error of the service, as shown to its clients.
#[derive(Debug)]
pub enum AppError {
    NotFound,
    Duplicate,
    Unauthorized,
    Internal { debug: String },
    Custom { msg: String, debug: Option<String> },
}

/// The mathematical value of an [`AppError`]: its texts as character sequences.
pub enum ErrorView {
    NotFound,
    Duplicate,
    Unauthorized,
    Internal { debug: Seq<char> },
    Custom { msg: Seq<char>, debug: Option<Seq<char>> },
}

/// The view of an optional text.
pub open spec fn text_opt(o: Option<String>) -> Option<Seq<char>> {
    match o {
        Some(s) => Some(s@),
        None => None,
    }
}

impl View for AppError {
    type V = ErrorView;

    open spec fn view(&self) -> ErrorView {
        match self {
            AppError::NotFound => ErrorView::NotFound,
            AppError::Duplicate => ErrorView::Duplicate,
            AppError::Unauthorized => ErrorView::Unauthorized,
            AppError::Internal { debug } => ErrorView::Internal { debug: debug@ },
            AppError::Custom { msg, debug } => ErrorView::Custom { msg: msg@, debug: text_opt(*debug) },
        }
    }
}

/// The message that a client reads for an error.
pub open spec fn message_of(e: ErrorView) -> Seq<char> {
    match e {
        ErrorView::NotFound => ERR_NOT_FOUND@,
        ErrorView::Duplicate => ERR_DUPLICATE@,
        ErrorView::Unauthorized => ERR_UNAUTHORIZED@,
        ErrorView::Internal { .. } => ERR_INTERNAL@,
        ErrorView::Custom { msg, .. } => msg,
    }
}

/// The HTTP status that answers an error.
pub open spec fn status_of(e: ErrorView) -> u16 {
    match e {
        ErrorView::NotFound => STATUS_NOT_FOUND,
        ErrorView::Duplicate => STATUS_CONFLICT,
        ErrorView::Unauthorized => STATUS_UNAUTHORIZED,
        ErrorView::Internal { .. } => STATUS_INTERNAL_SERVER_ERROR,
        ErrorView::Custom { .. } => STATUS_BAD_REQUEST,
    }
}

/// The diagnostic text sent along with an error, if any.
pub open spec fn debug_of(e: ErrorView) -> Option<Seq<char>> {
    match e {
        ErrorView::Internal { debug } => Some(debug),
        ErrorView::Custom { debug, .. } => debug,
        _ => None,
    }
}

/// The body and status of the HTTP answer to an error.
#[derive(Debug)]
pub struct ErrorReply {
    pub status: u16,
    pub success: bool,
    pub message: String,
    pub debug: Option<String>,
}

fn clone_opt(o: &Option<String>) -> (r: Option<String>)
    ensures
        text_opt(r) == text_opt(*o),
{
    match o {
        Some(s) => Some(s.clone()),
        None => None,
    }
}

/// Splits an error into its HTTP status, its message and its diagnostic text.
pub fn parse_error(err: &AppError) -> (r: (u16, String, Option<String>))
    ensures
        r.0 == status_of(err@),
        r.1@ == message_of(err@),
        text_opt(r.2) == debug_of(err@),
{
    match err {
        AppError::NotFound => (STATUS_NOT_FOUND, String::from_str(ERR_NOT_FOUND), None),
        AppError::Duplicate => (STATUS_CONFLICT, String::from_str(ERR_DUPLICATE), None),
        AppError::Unauthorized => (STATUS_UNAUTHORIZED, String::from_str(ERR_UNAUTHORIZED), None),
        AppError::Internal { debug } => (
            STATUS_INTERNAL_SERVER_ERROR,
            String::from_str(ERR_INTERNAL),
            Some(debug.clone()),
        ),
        AppError::Custom { msg, debug } => (STATUS_BAD_REQUEST, msg.clone(), clone_opt(debug)),
    }
}


/// Message shown when a referenced record is not valid.
pub const ERR_BAD_REFERENCE: &'static str = "ข้อมูลอ้างอิงไม่ถูกต้อง";
/// Message shown when no database connection could be acquired.
pub const ERR_DB_ACQUIRE: &'static str = "ไม่สามารถเชื่อมต่อฐานข้อมูลได้";
/// Message shown when the database connection failed.
pub const ERR_DB_CONNECTION: &'static str = "การเชื่อมต่อฐานข้อมูลมีปัญหา";
/// Message shown when a statement could not be executed.
pub const ERR_DB_EXEC: &'static str = "ไม่สามารถดำเนินการกับฐานข้อมูลได้";
/// Message shown when a query failed.
pub const ERR_DB_QUERY: &'static str = "เกิดข้อผิดพลาดในการค้นหาข้อมูล";
/// Message shown when nothing was inserted.
pub const ERR_DB_NOT_INSERTED: &'static str = "ไม่สามารถบันทึกข้อมูลได้";
/// Message shown when nothing was updated.
pub const ERR_DB_NOT_UPDATED: &'static str = "ไม่สามารถอัปเดตข้อมูลได้";
/// Message shown when stored data has the wrong shape.
pub const ERR_DB_FORMAT: &'static str = "ข้อมูลไม่ถูกต้องตามรูปแบบที่กำหนด";

/// The variant of a database error, as far as the error model tells them apart.
#[derive(Clone, Copy, PartialEq, Eq, Structural, Debug)]
pub enum DbErrKind {
    ConnectionAcquire,
    Conn,
    Exec,
    Query,
    RecordNotFound,
    RecordNotInserted,
    RecordNotUpdated,
    Type,
    Json,
    TryInto,
    Other,
}

/// The class of constraint that a failed SQL statement violated.
#[derive(Clone, Copy, PartialEq, Eq, Structural, Debug)]
pub enum SqlErrKind {
    UniqueConstraintViolation,
    ForeignKeyConstraintViolation,
    Other,
}

/// What the error model reads of a database error: its variant, the
/// constraint it violated (if the driver reported one, as
/// `sea_orm::DbErr::sql_err` does) and its text. The server reads it off
/// the error that its database call returned.
#[derive(Debug)]
pub struct DbFailure {
    pub kind: DbErrKind,
    pub sql: Option<SqlErrKind>,
    pub text: String,
}

/// The mathematical value of a [`DbFailure`].
pub struct DbFailureView {
    pub kind: DbErrKind,
    pub sql: Option<SqlErrKind>,
    pub text: Seq<char>,
}

impl View for DbFailure {
    type V = DbFailureView;

    open spec fn view(&self) -> DbFailureView {
        DbFailureView { kind: self.kind, sql: self.sql, text: self.text@ }
    }
}

/// The error that answers a database failure.
pub open spec fn db_failure_error(f: DbFailureView) -> ErrorView {
    let custom = |m: Seq<char>| ErrorView::Custom { msg: m, debug: Some(f.text) };
    match f.sql {
        Some(SqlErrKind::UniqueConstraintViolation) => ErrorView::Duplicate,
        Some(SqlErrKind::ForeignKeyConstraintViolation) => custom(ERR_BAD_REFERENCE@),
        Some(SqlErrKind::Other) => ErrorView::Internal { debug: f.text },
        None => match f.kind {
            DbErrKind::RecordNotFound => custom(ERR_NOT_FOUND@),
            DbErrKind::ConnectionAcquire => custom(ERR_DB_ACQUIRE@),
            DbErrKind::Conn => custom(ERR_DB_CONNECTION@),
            DbErrKind::Exec => custom(ERR_DB_EXEC@),
            DbErrKind::Query => custom(ERR_DB_QUERY@),
            DbErrKind::RecordNotInserted => custom(ERR_DB_NOT_INSERTED@),
            DbErrKind::RecordNotUpdated => custom(ERR_DB_NOT_UPDATED@),
            DbErrKind::Type | DbErrKind::Json | DbErrKind::TryInto => custom(ERR_DB_FORMAT@),
            DbErrKind::Other => ErrorView::Internal { debug: f.text },
        },
    }
}

/// The character of a decimal digit.
pub open spec fn digit_char(d: int) -> char {
    if d == 0 { '0' } else if d == 1 { '1' } else if d == 2 { '2' } else if d == 3 { '3' }
    else if d == 4 { '4' } else if d == 5 { '5' } else if d == 6 { '6' } else if d == 7 { '7' }
    else if d == 8 { '8' } else { '9' }
}

/// The decimal notation of a natural number, without leading zeros.
pub open spec fn decimal(n: nat) -> Seq<char>
    decreases n,
{
    if n < 10 {
        seq![digit_char(n as int)]
    } else {
        decimal(n / 10).push(digit_char((n % 10) as int))
    }
}

fn digit_text(d: u16) -> (r: &'static str)
    requires
        d < 10,
    ensures
        r@ == seq![digit_char(d as int)],
{
    proof {
        reveal_strlit("0");
        reveal_strlit("1");
        reveal_strlit("2");
        reveal_strlit("3");
        reveal_strlit("4");
        reveal_strlit("5");
        reveal_strlit("6");
        reveal_strlit("7");
        reveal_strlit("8");
        reveal_strlit("9");
    }
    if d == 0 { "0" } else if d == 1 { "1" } else if d == 2 { "2" } else if d == 3 { "3" }
    else if d == 4 { "4" } else if d == 5 { "5" } else if d == 6 { "6" } else if d == 7 { "7" }
    else if d == 8 { "8" } else { "9" }
}

/// Appends the decimal notation of `n`, as `{:?}` writes an integer.
fn append_decimal(out: &mut String, n: u16)
    ensures
        final(out)@ == old(out)@ + decimal(n as nat),
    decreases n,
{
    if n >= 10 {
        append_decimal(out, n / 10);
    }
    out.append(digit_text(n % 10));
    proof {
        assert(old(out)@ + decimal(n as nat) =~= old(out)@ + (if n >= 10 { decimal((n / 10) as nat) } else { Seq::empty() }) + seq![digit_char((n % 10) as int)]);
    }
}

impl AppError {
    /// The text of the error, as `Display` shows it.
    pub fn message(&self) -> (r: String)
        ensures
            r@ == message_of(self@),
    {
        match self {
            AppError::NotFound => String::from_str(ERR_NOT_FOUND),
            AppError::Duplicate => String::from_str(ERR_DUPLICATE),
            AppError::Unauthorized => String::from_str(ERR_UNAUTHORIZED),
            AppError::Internal { .. } => String::from_str(ERR_INTERNAL),
            AppError::Custom { msg, .. } => msg.clone(),
        }
    }

    /// The HTTP answer to the error: its status and the body
    /// `{"success": false, "message": .., "debug": ..}`.
    pub fn into_reply(&self) -> (r: ErrorReply)
        ensures
            r.status == status_of(self@),
            !r.success,
            r.message@ == message_of(self@),
            text_opt(r.debug) == debug_of(self@),
    {
        let (status, message, debug) = parse_error(self);
        ErrorReply { status, success: false, message, debug }
    }

    /// The error that answers a database failure, as read from it.
    pub fn from_db_failure(f: DbFailure) -> (r: AppError)
        ensures
            r@ == db_failure_error(f@),
    {
        match f.sql {
            Some(SqlErrKind::UniqueConstraintViolation) => {
                return AppError::Duplicate;
            },
            Some(SqlErrKind::ForeignKeyConstraintViolation) => {
                return AppError::Custom { msg: String::from_str(ERR_BAD_REFERENCE), debug: Some(f.text) };
            },
            Some(SqlErrKind::Other) => {
                return AppError::Internal { debug: f.text };
            },
            None => {},
        }
        let msg = match f.kind {
            DbErrKind::RecordNotFound => ERR_NOT_FOUND,
            DbErrKind::ConnectionAcquire => ERR_DB_ACQUIRE,
            DbErrKind::Conn => ERR_DB_CONNECTION,
            DbErrKind::Exec => ERR_DB_EXEC,
            DbErrKind::Query => ERR_DB_QUERY,
            DbErrKind::RecordNotInserted => ERR_DB_NOT_INSERTED,
            DbErrKind::RecordNotUpdated => ERR_DB_NOT_UPDATED,
            DbErrKind::Type | DbErrKind::Json | DbErrKind::TryInto => ERR_DB_FORMAT,
            DbErrKind::Other => {
                return AppError::Internal { debug: f.text };
            },
        };
        AppError::Custom { msg: String::from_str(msg), debug: Some(f.text) }
    }

    /// A client error with the given message, whose diagnostic names the status code.
    pub fn new(status: u16, msg: &str) -> (r: AppError)
        ensures
            r@ == (ErrorView::Custom { msg: msg@, debug: Some("status: "@ + decimal(status as nat)) }),
    {
        let mut debug = String::from_str("status: ");
        append_decimal(&mut debug, status);
        AppError::Custom { msg: String::from_str(msg), debug: Some(debug) }
    }

    /// A client error with the given message, whose diagnostic is the text of its cause.
    pub fn wrap(msg: &str, source: &str) -> (r: AppError)
        ensures
            r@ == (ErrorView::Custom { msg: msg@, debug: Some(source@) }),
    {
        AppError::Custom { msg: String::from_str(msg), debug: Some(String::from_str(source)) }
    }

    /// Like [`AppError::wrap`]; the status code it is given is not used.
    pub fn wrap_msg(msg: &str, code: u16, source: &str) -> (r: AppError)
        ensures
            r@ == (ErrorView::Custom { msg: msg@, debug: Some(source@) }),
    {
        AppError::Custom { msg: String::from_str(msg), debug: Some(String::from_str(source)) }
    }
}

/// Turns the result of a lookup of one record into the service's result.
pub trait IntoAppResult<T> {
    fn into_app_result(self) -> Result<T, AppError>;
}

impl<T> IntoAppResult<T> for Result<Option<T>, DbFailure> {
    /// A found record is the answer; a missing one is `NotFound`; a database
    /// failure is answered as [`AppError::from_db_failure`].
    fn into_app_result(self) -> (r: Result<T, AppError>)
        ensures
            match self {
                Ok(Some(v)) => r == Ok::<T, AppError>(v),
                Ok(None) => r matches Err(e) && e@ == ErrorView::NotFound,
                Err(f) => r matches Err(e) && e@ == db_failure_error(f@),
            },
    {
        match self {
            Ok(Some(v)) => Ok(v),
            Ok(None) => Err(AppError::NotFound),
            Err(f) => Err(AppError::from_db_failure(f)),
        }
    }
}

} // verus!
