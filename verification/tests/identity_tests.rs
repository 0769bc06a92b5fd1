use booking::errors::AppError;
use booking::ids::{parse_uuid, resolve_user_id, uuid_to_string};
use booking::roles::UserRole;

const ID: u128 = 0x67e55044_10b1_426f_9247_bb680e5fe0c8;

#[test]
fn uuid_text_is_hyphenated_lowercase() {
    assert_eq!(uuid_to_string(ID), "67e55044-10b1-426f-9247-bb680e5fe0c8");
    assert_eq!(uuid_to_string(0), "00000000-0000-0000-0000-000000000000");
}

#[test]
fn uuid_text_reads_back() {
    for u in [0u128, 1, ID, u128::MAX] {
        assert_eq!(parse_uuid(&uuid_to_string(u)), Some(u));
    }
    assert_eq!(parse_uuid("67E55044-10B1-426F-9247-BB680E5FE0C8"), Some(ID));
    assert_eq!(parse_uuid("67e5504410b1426f9247bb680e5fe0c8"), Some(ID));
    assert_eq!(parse_uuid("not-a-uuid"), None);
    assert_eq!(parse_uuid(""), None);
}

#[test]
fn user_id_from_query_or_header() {
    assert_eq!(resolve_user_id(Some(5), Some("garbage".to_string())).unwrap(), 5);
    assert_eq!(resolve_user_id(None, Some(uuid_to_string(ID))).unwrap(), ID);
    match resolve_user_id(None, Some("garbage".to_string())) {
        Err(AppError::BadRequest(m)) => assert_eq!(m, "Missing user_id"),
        other => panic!("{:?}", other),
    }
    assert!(matches!(resolve_user_id(None, None), Err(AppError::BadRequest(_))));
}

#[test]
fn role_names_read_back() {
    for r in [UserRole::User, UserRole::Provider, UserRole::Admin] {
        assert_eq!(UserRole::from_str(&r.as_string()), Some(r));
    }
    assert_eq!(UserRole::Provider.as_string(), "provider");
    assert_eq!(UserRole::from_str("Provider"), None);
    assert_eq!(UserRole::from_str("users"), None);
    assert_eq!(UserRole::from_str(""), None);
}

#[test]
fn error_status_codes() {
    assert_eq!(AppError::BadRequest("x".into()).status_code(), 400);
    assert_eq!(AppError::Unauthorized("x".into()).status_code(), 401);
    assert_eq!(AppError::NotFound("x".into()).status_code(), 404);
    assert_eq!(AppError::Conflict("x".into()).status_code(), 409);
    assert_eq!(AppError::Forbidden("x".into()).status_code(), 403);
    assert_eq!(AppError::Forbidden("f".into()).message(), "f");
    assert_eq!(AppError::Internal("m".into()).status_code(), 500);
    assert_eq!(AppError::Internal("m".into()).message(), "m");
}

#[test]
fn token_expiry_is_hours_later() {
    let exp = booking::time::token_expiry;
    assert_eq!(exp(1_700_000_000, 24), 1_700_086_400);
    assert_eq!(exp(100, 0), 100);
    assert_eq!(exp(0, -1), -3600);
    assert_eq!(exp(i64::MAX - 10, 1), i64::MAX);
    assert_eq!(exp(i64::MIN + 10, -1), i64::MIN);
    assert_eq!(exp(-5, i64::MAX), i64::MAX);
}
