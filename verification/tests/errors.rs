use memory_map::errors::{AppError, ErrorCode};
use memory_map::graphql::{
    AbortedObjectUpload, CompletedObjectUploadPartInput, PresignedRequestHeader, PublicityDefault,
    PublicityOverride, UserRole,
};
use memory_map::storage::PresignedHeader;
use memory_map::CallerIdentity;
use memory_map::CasbinUser;

#[test]
fn error_codes_round_trip() {
    for code in [
        ErrorCode::Internal,
        ErrorCode::Unauthorized,
        ErrorCode::Forbidden,
        ErrorCode::NotFound,
        ErrorCode::Validation,
    ] {
        assert_eq!(ErrorCode::parse(code.as_str()), Some(code));
    }
    assert_eq!(ErrorCode::NotFound.as_str(), "NOT_FOUND");
    assert_eq!(ErrorCode::parse("not_found"), None);
}

#[test]
fn app_errors_map_to_codes_statuses_and_messages() {
    let internal = AppError::Internal("db exploded".to_string());
    assert_eq!(internal.code(), ErrorCode::Internal);
    assert_eq!(internal.status_code(), 500);
    assert_eq!(internal.client_message(), "Internal server error");
    assert_eq!(internal.message(), "Internal server error: db exploded");
    assert_eq!(AppError::Unauthorized.status_code(), 401);
    assert_eq!(AppError::Forbidden.status_code(), 403);
    let nf = AppError::NotFound("User not found".to_string());
    assert_eq!(nf.status_code(), 404);
    assert_eq!(nf.client_message(), "User not found");
    assert_eq!(nf.message(), "Not found: User not found");
    let v = AppError::Validation("bad".to_string());
    assert_eq!(v.status_code(), 400);
    assert_eq!(v.message(), "Validation error: bad");
}

#[test]
fn client_parts_rebuild_the_error() {
    let e = AppError::from_client_parts(Some("VALIDATION"), "bad input".to_string());
    assert!(matches!(e, AppError::Validation(ref m) if m == "bad input"));
    assert!(matches!(AppError::from_client_parts(Some("FORBIDDEN"), "x".to_string()), AppError::Forbidden));
    assert!(matches!(AppError::from_client_parts(None, "x".to_string()), AppError::Internal(_)));
    assert!(matches!(AppError::from_client_parts(Some("WHAT"), "x".to_string()), AppError::Internal(_)));
}

#[test]
fn graphql_enums_round_trip() {
    for v in [
        PublicityOverride::Default,
        PublicityOverride::Public,
        PublicityOverride::Private,
        PublicityOverride::SelectedUsers,
    ] {
        assert_eq!(PublicityOverride::parse(v.as_str()), Some(v));
        assert_eq!(v.as_str().parse::<PublicityOverride>().ok(), Some(v));
    }
    assert_eq!(PublicityOverride::SelectedUsers.as_str(), "selected_users");
    for v in [UserRole::User, UserRole::Admin] {
        assert_eq!(UserRole::parse(v.as_str()), Some(v));
    }
    for v in [PublicityDefault::Public, PublicityDefault::Private] {
        assert_eq!(PublicityDefault::parse(v.as_str()), Some(v));
    }
    assert_eq!(UserRole::parse("Admin"), None);
}

#[test]
fn graphql_objects() {
    assert_eq!(AbortedObjectUpload::new(9).object_id(), 9);
    let h = PresignedRequestHeader(PresignedHeader {
        name: "x-amz-date".to_string(),
        value: "20240101T000000Z".to_string(),
    });
    assert_eq!(h.name(), "x-amz-date");
    assert_eq!(h.value(), "20240101T000000Z");
    let part = CompletedObjectUploadPartInput { part_number: 2, e_tag: "e".to_string() }
        .into_completed_part();
    assert_eq!(part.part_number, 2);
    assert_eq!(part.e_tag, "e");
}

#[test]
fn caller_identity() {
    let caller = CallerIdentity {
        user_id: 5,
        casbin_user: CasbinUser { id: 5, role: "user".to_string() },
    };
    assert_eq!(CallerIdentity::user_id_of(Some(&caller)).ok(), Some(5));
    assert!(matches!(CallerIdentity::user_id_of(None), Err(AppError::Unauthorized)));
    assert_eq!(CallerIdentity::user_id_opt(Some(&caller)), Some(5));
    assert_eq!(CallerIdentity::user_id_opt(None), None);
}
