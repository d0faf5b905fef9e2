use auth_api::requests::RegisterReq;
use auth_api::usecases::token_request;
use auth_api::users::{new_user, UserRecord, DEFAULT_ROLE};

fn id_text(id: u128) -> String {
    let user = UserRecord {
        id,
        email: String::new(),
        user_name: String::new(),
        password: String::new(),
        avatar: None,
        role: String::new(),
    };
    token_request(&user).user_id
}

#[test]
fn uuid_text_is_hyphenated_lower_hex() {
    assert_eq!(id_text(0x0123456789ABCDEF0123456789ABCDEF), "01234567-89ab-cdef-0123-456789abcdef");
    assert_eq!(id_text(0), "00000000-0000-0000-0000-000000000000");
    assert_eq!(id_text(u128::MAX), "ffffffff-ffff-ffff-ffff-ffffffffffff");
}

#[test]
fn new_user_keeps_request_fields() {
    let dto = RegisterReq { email: "a@b.co".to_string(), username: "somchai".to_string(), password: "h".to_string() };
    let u = new_user(dto);
    assert_eq!(u.email, "a@b.co");
    assert_eq!(u.user_name, "somchai");
    assert_eq!(u.password, "h");
    assert_eq!(u.avatar, None);
    assert_eq!(u.role, DEFAULT_ROLE);
    assert_eq!(u.role, "user");
    let id = uuid::Uuid::from_u128(u.id);
    assert_eq!(id.get_version_num(), 4);
    assert_eq!(id.get_variant(), uuid::Variant::RFC4122);
}

#[test]
fn new_users_get_distinct_ids() {
    let mk = || RegisterReq { email: String::new(), username: String::new(), password: String::new() };
    assert_ne!(new_user(mk()).id, new_user(mk()).id);
}
