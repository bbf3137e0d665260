use memory_map::storage::{
    browser_can_set_header, delete_failures_summary, storage_key_delete_batches,
    DeleteObjectFailure, ReadinessStep, ReadinessWait, MAX_DELETE_OBJECTS_PER_REQUEST,
};

#[test]
fn presigned_upload_headers_skip_browser_forbidden_headers() {
    assert!(browser_can_set_header("x-amz-checksum-crc32"));
    assert!(!browser_can_set_header("host"));
    assert!(!browser_can_set_header("content-length"));
    assert!(!browser_can_set_header("proxy-authorization"));
    assert!(!browser_can_set_header("sec-fetch-mode"));
}

#[test]
fn forbidden_header_check_ignores_ascii_case() {
    assert!(!browser_can_set_header("Host"));
    assert!(!browser_can_set_header("Sec-Fetch-Site"));
    assert!(!browser_can_set_header("PROXY-Connection"));
    assert!(browser_can_set_header("Content-Type"));
    assert!(browser_can_set_header("x-amz-date"));
}

#[test]
fn delete_object_batches_respect_s3_multi_delete_limit() {
    let storage_keys = (0..MAX_DELETE_OBJECTS_PER_REQUEST + 1)
        .map(|index| format!("object-{index}"))
        .collect::<Vec<_>>();
    let batch_lengths =
        storage_key_delete_batches(&storage_keys).iter().map(Vec::len).collect::<Vec<_>>();

    assert_eq!(batch_lengths, vec![MAX_DELETE_OBJECTS_PER_REQUEST, 1]);
}

#[test]
fn delete_batches_keep_every_key_in_order() {
    for n in [0usize, 1, 999, 1000, 1001, 2500] {
        let keys = (0..n).map(|i| format!("k{i}")).collect::<Vec<_>>();
        let batches = storage_key_delete_batches(&keys);
        assert!(batches.iter().all(|b| !b.is_empty() && b.len() <= MAX_DELETE_OBJECTS_PER_REQUEST));
        let flat = batches.concat();
        assert_eq!(flat, keys);
    }
}

fn failure(key: Option<&str>, code: Option<&str>, message: Option<&str>) -> DeleteObjectFailure {
    DeleteObjectFailure {
        key: key.map(str::to_string),
        code: code.map(str::to_string),
        message: message.map(str::to_string),
    }
}

#[test]
fn delete_failures_summary_details_first_three() {
    assert_eq!(delete_failures_summary(&Vec::new()), None);
    let failures = vec![
        failure(Some("a"), Some("AccessDenied"), Some("no")),
        failure(None, None, None),
        failure(Some("c"), Some("InternalError"), None),
        failure(Some("d"), Some("Ignored"), Some("not shown")),
    ];
    assert_eq!(
        delete_failures_summary(&failures),
        Some(
            "S3 reported 4 failed object delete(s): a: AccessDenied (no); \
             <unknown key>: unknown error; c: InternalError"
                .to_string()
        )
    );
    assert_eq!(
        delete_failures_summary(&vec![failure(Some("x"), Some("E"), None)]),
        Some("S3 reported 1 failed object delete(s): x: E".to_string())
    );
}

#[test]
fn readiness_wait_doubles_delay_up_to_five_seconds() {
    let ms = 1_000_000u64;
    let mut wait = ReadinessWait::new(60_000 * ms);
    let mut sleeps = Vec::new();
    for _ in 0..7 {
        match wait.after_failure(0) {
            ReadinessStep::Sleep(d) => sleeps.push(d / ms),
            ReadinessStep::GiveUp => panic!("gave up before the timeout"),
        }
    }
    assert_eq!(sleeps, vec![250, 500, 1000, 2000, 4000, 5000, 5000]);
}

#[test]
fn readiness_wait_never_sleeps_past_timeout() {
    let ms = 1_000_000u64;
    let mut wait = ReadinessWait::new(1000 * ms);
    assert_eq!(wait.after_failure(900 * ms), ReadinessStep::Sleep(100 * ms));
    assert_eq!(wait.after_failure(1000 * ms), ReadinessStep::GiveUp);
    assert_eq!(wait.after_failure(5000 * ms), ReadinessStep::GiveUp);
}
