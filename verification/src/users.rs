use vstd::prelude::*;
use vstd::string::StringExecFns;
use crate::requests::RegisterReq;

verus! {

/// The role of a newly registered user.
pub const DEFAULT_ROLE: &'static str = "user";

/// A stored user; `id` holds the 128 bits of its UUID.
#[derive(Debug)]
pub struct UserRecord {
    pub id: u128,
    pub email: String,
    pub user_name: String,
    pub password: String,
    pub avatar: Option<String>,
    pub role: String,
}

/// The lower-case hexadecimal digit of a value below 16.
pub open spec fn hex_digit(d: int) -> char {
    if d < 10 {
        crate::errors::digit_char(d)
    } else if d == 10 { 'a' } else if d == 11 { 'b' } else if d == 12 { 'c' }
    else if d == 13 { 'd' } else if d == 14 { 'e' } else { 'f' }
}

/// The last `n` hexadecimal digits of `v`, most significant first.
pub open spec fn hex_digits(v: nat, n: nat) -> Seq<char>
    decreases n,
{
    if n == 0 {
        Seq::empty()
    } else {
        hex_digits(v / 16, (n - 1) as nat).push(hex_digit((v % 16) as int))
    }
}

/// The hyphenated text of a UUID: its 32 hexadecimal digits in lower case,
/// in groups of 8, 4, 4, 4 and 12.
pub open spec fn uuid_text(id: u128) -> Seq<char> {
    let h = hex_digits(id as nat, 32);
    h.subrange(0, 8) + seq!['-'] + h.subrange(8, 12) + seq!['-'] + h.subrange(12, 16) + seq!['-']
        + h.subrange(16, 20) + seq!['-'] + h.subrange(20, 32)
}

/// Whether a UUID is of version 4 with the RFC 4122 variant.
pub open spec fn is_random_uuid(id: u128) -> bool {
    &&& id & 0xF0000000000000000000u128 == 0x40000000000000000000u128
    &&& id & 0xC000000000000000u128 == 0x8000000000000000u128
}

/// `uuid::Uuid::to_string` of the UUID with the given bits: its hyphenated,
/// lower-case text, as the crate documents it.
#[verifier::external_body]
pub(crate) fn uuid_string(id: u128) -> (r: String)
    ensures
        r@ == uuid_text(id),
{
    uuid::Uuid::from_u128(id).to_string()
}

/// `uuid::Uuid::new_v4`: random bits, but for the version and variant fields,
/// which it sets (version 4, RFC 4122 variant).
#[verifier::external_body]
fn new_uuid_v4() -> (r: u128)
    ensures
        is_random_uuid(r),
{
    uuid::Uuid::new_v4().as_u128()
}

/// Whether `r` is a record stored for the registration `dto`: a random
/// (version 4) id, the e-mail, user name and password of `dto`, no avatar,
/// role `user`.
pub open spec fn stored_record(dto: RegisterReq, r: UserRecord) -> bool {
    &&& is_random_uuid(r.id)
    &&& r.email == dto.email
    &&& r.user_name == dto.username
    &&& r.password == dto.password
    &&& r.avatar is None
    &&& r.role@ == DEFAULT_ROLE@
}

/// The record stored for a registration: a fresh random id, the request's
/// e-mail, user name and (already hashed) password, no avatar, role `user`.
pub fn new_user(dto: RegisterReq) -> (r: UserRecord)
    ensures
        stored_record(dto, r),
        is_random_uuid(r.id),
        r.email == dto.email,
        r.user_name == dto.username,
        r.password == dto.password,
        r.avatar is None,
        r.role@ == "user"@,
{
    proof {
        reveal_strlit("user");
    }
    UserRecord {
        id: new_uuid_v4(),
        email: dto.email,
        user_name: dto.username,
        password: dto.password,
        avatar: None,
        role: String::from_str(DEFAULT_ROLE),
    }
}

} // verus!
