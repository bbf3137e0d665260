use memory_map::errors::AppError;
use memory_map::object_lifecycle::upload::{
    abort_cleanup, completed_upload_metadata_error, coordinates_given, completion_step, generate_storage_key,
    made_on_from_parsed, object_insert_error, parse_made_on, upload_session_part_size, upload_session_total_parts,
    validate_completed_parts, validate_part_numbers, validate_upload_content_type,
    validate_upload_name, AbortCleanup, CompletionStep, ObjectUploadSession,
};
use memory_map::object_lifecycle::ObjectLifecycleConfig;
use memory_map::storage::{
    CompletedUploadPart, MultipartUploadAbortOutcome, MultipartUploadCompleteOutcome,
    StoredObjectMetadata,
};

fn completed_part(part_number: i32, e_tag: &str) -> CompletedUploadPart {
    CompletedUploadPart { part_number, e_tag: e_tag.to_string() }
}

fn upload_session_for_test(file_size_bytes: i64, part_size_bytes: i64) -> ObjectUploadSession {
    ObjectUploadSession {
        object_id: 1,
        storage_key: "objects/test".to_string(),
        upload_id: "upload-id".to_string(),
        content_type: "image/png".to_string(),
        file_size_bytes,
        part_size_bytes,
        expires_at: jiff::Timestamp::now(),
    }
}

fn validation_message(e: &AppError) -> Option<&str> {
    match e {
        AppError::Validation(m) => Some(m.as_str()),
        _ => None,
    }
}

#[test]
fn completed_parts_validation_requires_exact_sequential_parts() {
    let session = upload_session_for_test(
        (ObjectLifecycleConfig::S3_MIN_MULTIPART_PART_SIZE_BYTES * 2) - 1,
        ObjectLifecycleConfig::S3_MIN_MULTIPART_PART_SIZE_BYTES,
    );

    let sorted = validate_completed_parts(
        &session,
        vec![completed_part(2, "etag-2"), completed_part(1, "etag-1")],
    )
    .ok()
    .unwrap_or_default();

    assert_eq!(sorted.iter().map(|part| part.part_number).collect::<Vec<_>>(), vec![1, 2]);
    assert!(validate_completed_parts(&session, vec![completed_part(1, "etag-1")]).is_err());
    assert!(validate_completed_parts(
        &session,
        vec![completed_part(1, "etag-1"), completed_part(1, "etag-duplicate")]
    )
    .is_err());
    assert!(validate_completed_parts(
        &session,
        vec![completed_part(1, "etag-1"), completed_part(2, " ")]
    )
    .is_err());
}

#[test]
fn completed_parts_errors_name_the_problem() {
    let session = upload_session_for_test(25, 10);
    let e = validate_completed_parts(&session, vec![completed_part(1, "a")]).err();
    assert_eq!(
        e.as_ref().and_then(validation_message),
        Some("completed parts must contain exactly 3 entries")
    );
    let e = validate_completed_parts(
        &session,
        vec![completed_part(3, "c"), completed_part(1, "a"), completed_part(2, "  ")],
    )
    .err();
    assert_eq!(
        e.as_ref().and_then(validation_message),
        Some("completed part 2 must include a non-empty ETag")
    );
    let e = validate_completed_parts(
        &session,
        vec![completed_part(1, "a"), completed_part(1, "b"), completed_part(3, "c")],
    )
    .err();
    assert_eq!(
        e.as_ref().and_then(validation_message),
        Some("completed parts must include every part number from 1 to 3 exactly once")
    );
    let ok = validate_completed_parts(
        &session,
        vec![completed_part(3, "c"), completed_part(1, "a"), completed_part(2, "b")],
    )
    .ok()
    .unwrap_or_default();
    let tags = ok.iter().map(|p| p.e_tag.clone()).collect::<Vec<_>>();
    assert_eq!(tags, vec!["a", "b", "c"]);
}

#[test]
fn completed_upload_metadata_must_match_session_policy() {
    let session =
        upload_session_for_test(10, ObjectLifecycleConfig::S3_MIN_MULTIPART_PART_SIZE_BYTES);

    assert_eq!(
        completed_upload_metadata_error(
            &session,
            &StoredObjectMetadata { content_length: 10, content_type: "image/png".to_string() }
        ),
        None
    );
    assert!(completed_upload_metadata_error(
        &session,
        &StoredObjectMetadata { content_length: 11, content_type: "image/png".to_string() }
    )
    .is_some());
    assert!(completed_upload_metadata_error(
        &session,
        &StoredObjectMetadata { content_length: 10, content_type: "image/jpeg".to_string() }
    )
    .is_some());
}

#[test]
fn session_part_arithmetic() {
    let session = upload_session_for_test(25, 10);
    assert_eq!(upload_session_total_parts(&session).ok(), Some(3));
    assert_eq!(upload_session_part_size(&session, 1).ok(), Some(10));
    assert_eq!(upload_session_part_size(&session, 3).ok(), Some(5));
    let e = upload_session_part_size(&session, 4).err();
    assert_eq!(e.as_ref().and_then(validation_message), Some("part_number must be between 1 and 3"));
    let huge = upload_session_for_test(10_001, 1);
    let e = upload_session_total_parts(&huge).err();
    assert_eq!(
        e.as_ref().and_then(validation_message),
        Some("upload session requires 10001 parts, exceeding S3 multipart limit 10000")
    );
}

#[test]
fn part_numbers_are_checked() {
    let session = upload_session_for_test(25, 10);
    assert!(validate_part_numbers(&session, &[1, 3], 5).is_ok());
    let e = validate_part_numbers(&session, &[], 5).err();
    assert_eq!(e.as_ref().and_then(validation_message), Some("part_numbers must not be empty"));
    let e = validate_part_numbers(&session, &[1, 2, 3], 2).err();
    assert_eq!(
        e.as_ref().and_then(validation_message),
        Some("part_numbers may contain at most 2 entries")
    );
    let e = validate_part_numbers(&session, &[1, 4], 5).err();
    assert_eq!(e.as_ref().and_then(validation_message), Some("part_number must be between 1 and 3"));
    let e = validate_part_numbers(&session, &[2, 1, 2], 5).err();
    assert_eq!(
        e.as_ref().and_then(validation_message),
        Some("part_number 2 was requested more than once")
    );
}

#[test]
fn names_and_content_types_are_checked() {
    assert!(validate_upload_name("photo.png").is_ok());
    let e = validate_upload_name(" \t").err();
    assert_eq!(e.as_ref().and_then(validation_message), Some("Object name must not be empty"));
    let allowed = ["image/png", "image/jpeg"];
    assert!(validate_upload_content_type("image/jpeg", &allowed).is_ok());
    let e = validate_upload_content_type("text/html", &allowed).err();
    assert_eq!(e.as_ref().and_then(validation_message), Some("Unsupported file type: text/html"));
}

#[test]
fn storage_keys_are_random_alphanumeric() {
    let a = generate_storage_key();
    let b = generate_storage_key();
    assert_eq!(a.len(), 48);
    assert!(a.starts_with("objects/"));
    assert!(a["objects/".len()..].chars().all(|c| c.is_ascii_alphanumeric()));
    assert_ne!(a, b);
}

#[test]
fn duplicate_name_becomes_validation_error() {
    let e = object_insert_error(Some("23505"), Some("objects_active_name_key"), "cat.png", "db");
    assert_eq!(validation_message(&e), Some("Object named 'cat.png' already exists"));
    let e = object_insert_error(Some("23505"), Some("objects_name_key"), "x", "db");
    assert!(matches!(e, AppError::Validation(_)));
    let e = object_insert_error(Some("23505"), Some("other_key"), "x", "db says no");
    assert!(matches!(e, AppError::Internal(ref m) if m == "db says no"));
    let e = object_insert_error(None, None, "x", "connection reset");
    assert!(matches!(e, AppError::Internal(_)));
}

#[test]
fn made_on_is_parsed_as_a_timestamp() {
    assert!(matches!(parse_made_on(None), Ok(None)));
    let parsed = parse_made_on(Some("2024-05-01T12:00:00Z".to_string()));
    assert!(matches!(parsed, Ok(Some((1_714_564_800, 0)))));
    let fractional = parse_made_on(Some("2024-05-01T12:00:00.25+02:00".to_string()));
    assert!(matches!(fractional, Ok(Some((1_714_557_600, 250_000_000)))));
    let e = parse_made_on(Some("not-a-timestamp".to_string())).err();
    assert!(e
        .as_ref()
        .and_then(validation_message)
        .is_some_and(|m| m.starts_with("Invalid timestamp format: ")));
}

#[test]
fn abort_cleanup_depends_on_what_storage_still_has() {
    assert_eq!(
        abort_cleanup(MultipartUploadAbortOutcome::Aborted, true),
        AbortCleanup::DeletePendingMetadata
    );
    assert_eq!(
        abort_cleanup(MultipartUploadAbortOutcome::UploadNotFound, true),
        AbortCleanup::EnqueueStorageCleanup
    );
    assert_eq!(
        abort_cleanup(MultipartUploadAbortOutcome::UploadNotFound, false),
        AbortCleanup::DeletePendingMetadata
    );
}

#[test]
fn completion_step_checks_the_stored_object() {
    let session = upload_session_for_test(10, 10);
    let good = StoredObjectMetadata { content_length: 10, content_type: "image/png".to_string() };
    let bad = StoredObjectMetadata { content_length: 9, content_type: "image/png".to_string() };
    assert!(matches!(
        completion_step(&session, MultipartUploadCompleteOutcome::Completed, Some(good.clone())),
        Ok(CompletionStep::Finalize)
    ));
    assert!(matches!(
        completion_step(&session, MultipartUploadCompleteOutcome::UploadNotFound, Some(good)),
        Ok(CompletionStep::Finalize)
    ));
    assert!(matches!(
        completion_step(&session, MultipartUploadCompleteOutcome::Completed, Some(bad)),
        Ok(CompletionStep::Reject(ref m)) if m == "Completed upload size did not match declared file size"
    ));
    assert!(matches!(
        completion_step(&session, MultipartUploadCompleteOutcome::UploadNotFound, None),
        Err(AppError::NotFound(ref m)) if m == "Multipart upload not found"
    ));
    assert!(matches!(
        completion_step(&session, MultipartUploadCompleteOutcome::Completed, None),
        Err(AppError::Internal(_))
    ));
}

#[test]
fn parsed_capture_time_is_kept_or_refused() {
    assert!(matches!(made_on_from_parsed(Ok((42, 7))), Ok(Some((42, 7)))));
    let e = made_on_from_parsed(Err("bad offset".to_string())).err();
    assert_eq!(
        e.as_ref().and_then(validation_message),
        Some("Invalid timestamp format: bad offset")
    );
}

#[test]
fn coordinates_come_in_pairs() {
    assert!(matches!(coordinates_given(true, true), Ok(true)));
    assert!(matches!(coordinates_given(false, false), Ok(false)));
    for (latitude, longitude) in [(true, false), (false, true)] {
        let e = coordinates_given(latitude, longitude).err();
        assert_eq!(
            e.as_ref().and_then(validation_message),
            Some("latitude and longitude must both be provided or both omitted")
        );
    }
}
