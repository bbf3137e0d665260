use memory_map::email_worker::EmailOutboxConfig;
use memory_map::object_lifecycle::ObjectLifecycleConfig;
use memory_map::outbox::OutboxRetryConfig;
use memory_map::storage::StorageConfig;
use memory_map::{AuthConfig, Config, CorsConfig, FrontendConfig, ServerConfig, SmtpConfig};

fn storage_config_with_ttl(presigned_url_ttl_seconds: u64) -> StorageConfig {
    StorageConfig {
        endpoint_url: "http://127.0.0.1:9000/".to_string(),
        public_endpoint_url: None,
        access_key: "memorymapdev".to_string(),
        secret_key: "memorymapdevsecret".to_string(),
        bucket_name: "memory-map".to_string(),
        region: "us-east-1".to_string(),
        force_path_style: true,
        presigned_url_ttl_seconds,
    }
}

fn test_config_with_frontend_url(frontend_url: &str) -> Config {
    Config {
        server: ServerConfig { host: "127.0.0.1".to_string(), port: 8000 },
        smtp: SmtpConfig {
            host: "smtp.example.test".to_string(),
            user: "smtp-user".to_string(),
            pass: "smtp-pass".to_string(),
            from: "noreply@example.test".to_string(),
        },
        auth: AuthConfig {
            cookie_secret: "a".repeat(64),
            enable_registration: true,
            cookie_secure: None,
        },
        frontend: FrontendConfig { url: frontend_url.to_string() },
        cors: CorsConfig { allowed_origins: frontend_url.to_string() },
        storage: storage_config_with_ttl(60),
        object_lifecycle: ObjectLifecycleConfig::default(),
        email_outbox: EmailOutboxConfig::default(),
    }
}

#[test]
fn auth_config_validate_accepts_cookie_secret_boundary_length() {
    let config = AuthConfig {
        cookie_secret: "a".repeat(64),
        enable_registration: true,
        cookie_secure: None,
    };

    assert!(config.validate().is_ok());
}

#[test]
fn auth_config_validate_rejects_short_cookie_secret() {
    let config = AuthConfig {
        cookie_secret: "a".repeat(63),
        enable_registration: true,
        cookie_secure: None,
    };

    let error = config.validate().err();
    assert!(error.as_ref().is_some_and(|error| error.message().contains("at least 64 bytes")));
}

#[test]
fn auth_config_counts_bytes_not_characters() {
    // 32 two-byte characters are 64 bytes.
    let config = AuthConfig {
        cookie_secret: "é".repeat(32),
        enable_registration: false,
        cookie_secure: None,
    };
    assert!(config.validate().is_ok());
    let short = AuthConfig { cookie_secret: "é".repeat(31), ..config };
    assert_eq!(
        short.validate().err().map(|e| e.message()),
        Some("auth.cookie_secret must be at least 64 bytes".to_string())
    );
}

#[test]
fn storage_config_accepts_presigned_url_ttl_boundaries() {
    assert!(storage_config_with_ttl(1).validate().is_ok());
    assert!(storage_config_with_ttl(StorageConfig::MAX_PRESIGNED_URL_TTL_SECONDS).validate().is_ok());
}

#[test]
fn storage_config_rejects_presigned_url_ttl_outside_allowed_range() {
    assert!(storage_config_with_ttl(0).validate().is_err());
    assert!(
        storage_config_with_ttl(StorageConfig::MAX_PRESIGNED_URL_TTL_SECONDS + 1)
            .validate()
            .is_err()
    );
}

#[test]
fn storage_config_ttl_error_names_the_range() {
    assert_eq!(
        storage_config_with_ttl(0).validate().err().map(|e| e.message()),
        Some("s3_presigned_url_ttl_seconds must be between 1 and 604800".to_string())
    );
}

#[test]
fn storage_config_debug_redacts_credentials() {
    let mut config = storage_config_with_ttl(60);
    config.public_endpoint_url = Some("https://public-s3.example.test".to_string());
    config.access_key = "debug-access-key-secret".to_string();
    config.secret_key = "debug-secret-key-secret".to_string();

    let debug = config.debug_string();

    assert!(debug.contains("StorageConfig"));
    assert!(debug.contains("http://127.0.0.1:9000/"));
    assert!(debug.contains("https://public-s3.example.test"));
    assert!(debug.contains("<redacted>"));
    assert!(!debug.contains("debug-access-key-secret"));
    assert!(!debug.contains("debug-secret-key-secret"));
}

#[test]
fn storage_config_debug_has_the_derived_shape() {
    let config = storage_config_with_ttl(60);
    assert_eq!(
        config.debug_string(),
        "StorageConfig { endpoint_url: \"http://127.0.0.1:9000/\", public_endpoint_url: None, \
         access_key: \"<redacted>\", secret_key: \"<redacted>\", bucket_name: \"memory-map\", \
         region: \"us-east-1\", force_path_style: true, presigned_url_ttl_seconds: 60 }"
    );
}

#[test]
fn storage_config_debug_ignores_credentials() {
    let a = storage_config_with_ttl(60);
    let b = StorageConfig {
        access_key: "other-access".to_string(),
        secret_key: "other-secret".to_string(),
        ..a.clone()
    };
    assert_eq!(a.debug_string(), b.debug_string());
}

#[test]
fn storage_config_rejects_empty_public_endpoint_url() {
    let mut config = storage_config_with_ttl(60);
    config.public_endpoint_url = Some(" ".to_string());

    let error = config.validate().err();
    assert!(error.as_ref().is_some_and(|error| error.message().contains("public_endpoint_url")));
}

#[test]
fn storage_config_defaults() {
    assert_eq!(StorageConfig::default_region(), "us-east-1");
    assert!(StorageConfig::default_force_path_style());
    assert_eq!(StorageConfig::default_presigned_url_ttl_seconds(), 604_800);
}

#[test]
fn app_config_debug_redacts_secrets() {
    let config = Config {
        server: ServerConfig { host: "127.0.0.1".to_string(), port: 8000 },
        smtp: SmtpConfig {
            host: "smtp.example.test".to_string(),
            user: "debug-smtp-user".to_string(),
            pass: "debug-smtp-pass-secret".to_string(),
            from: "noreply@example.test".to_string(),
        },
        auth: AuthConfig {
            cookie_secret: "debug-cookie-secret".to_string(),
            enable_registration: true,
            cookie_secure: None,
        },
        frontend: FrontendConfig { url: "https://memory-map.example.test".to_string() },
        cors: CorsConfig { allowed_origins: "https://memory-map.example.test".to_string() },
        storage: StorageConfig {
            endpoint_url: "https://s3.example.test".to_string(),
            public_endpoint_url: Some("https://public-s3.example.test".to_string()),
            access_key: "debug-storage-access-secret".to_string(),
            secret_key: "debug-storage-secret-secret".to_string(),
            bucket_name: "memory-map".to_string(),
            region: "us-east-1".to_string(),
            force_path_style: false,
            presigned_url_ttl_seconds: 60,
        },
        object_lifecycle: ObjectLifecycleConfig::default(),
        email_outbox: EmailOutboxConfig::default(),
    };

    let debug = config.debug_string();

    assert!(debug.contains("Config"));
    assert!(debug.contains("smtp.example.test"));
    assert!(debug.contains("https://s3.example.test"));
    assert!(debug.contains("https://public-s3.example.test"));
    assert!(debug.contains("<redacted>"));
    assert!(!debug.contains("debug-smtp-pass-secret"));
    assert!(!debug.contains("debug-cookie-secret"));
    assert!(!debug.contains("debug-storage-access-secret"));
    assert!(!debug.contains("debug-storage-secret-secret"));
}

#[test]
fn config_debug_embeds_derived_debug_of_plain_sections() {
    let config = test_config_with_frontend_url("https://memory-map.example.test");
    assert_eq!(config.server.debug_string(), format!("{:?}", config.server));
    assert_eq!(config.frontend.debug_string(), format!("{:?}", config.frontend));
    assert_eq!(config.cors.debug_string(), format!("{:?}", config.cors));
    assert_eq!(config.object_lifecycle.debug_string(), format!("{:?}", config.object_lifecycle));
    assert_eq!(config.email_outbox.debug_string(), format!("{:?}", config.email_outbox));
    let negative = EmailOutboxConfig { retry_seconds: -5, ..EmailOutboxConfig::default() };
    assert_eq!(negative.debug_string(), format!("{:?}", negative));
    assert_eq!(
        config.auth.debug_string(),
        "AuthConfig { cookie_secret: \"<redacted>\", enable_registration: true, cookie_secure: None }"
    );
    assert_eq!(
        config.smtp.debug_string(),
        "SmtpConfig { host: \"smtp.example.test\", user: \"smtp-user\", pass: \"<redacted>\", \
         from: \"noreply@example.test\" }"
    );
    assert!(config.debug_string().starts_with("Config { pg: \"<redacted>\", server: ServerConfig {"));
}

#[test]
fn config_debug_escapes_quotes_like_std() {
    let config = FrontendConfig { url: "say \"hi\"\n".to_string() };
    assert_eq!(config.debug_string(), format!("{:?}", config));
}

#[test]
fn config_cookie_secure_defaults_from_frontend_url() {
    let mut config = test_config_with_frontend_url("https://memory-map.example.test");
    assert!(config.cookie_secure());

    config.frontend.url = "http://memory-map.example.test".to_string();
    assert!(!config.cookie_secure());
}

#[test]
fn config_cookie_secure_uses_explicit_auth_override() {
    let mut config = test_config_with_frontend_url("http://memory-map.example.test");
    config.auth.cookie_secure = Some(true);
    assert!(config.cookie_secure());

    config.frontend.url = "https://memory-map.example.test".to_string();
    config.auth.cookie_secure = Some(false);
    assert!(!config.cookie_secure());
}

#[test]
fn config_validated_reports_first_refused_section() {
    let ok = test_config_with_frontend_url("https://memory-map.example.test");
    assert!(ok.clone().validated().is_ok());

    let mut bad = ok.clone();
    bad.auth.cookie_secret = "short".to_string();
    bad.storage.presigned_url_ttl_seconds = 0;
    assert_eq!(
        bad.validated().err().map(|e| e.message()),
        Some("auth.cookie_secret must be at least 64 bytes".to_string())
    );

    let mut bad = ok;
    bad.email_outbox.batch_size = 0;
    assert_eq!(
        bad.validated().err().map(|e| e.message()),
        Some("email_outbox.batch_size must be greater than 0".to_string())
    );
}

#[test]
fn object_lifecycle_config_rejects_invalid_values() {
    let valid = ObjectLifecycleConfig::default();
    assert!(valid.clone().validated().is_ok());

    for invalid in [
        ObjectLifecycleConfig { pending_upload_timeout_seconds: 0, ..valid.clone() },
        ObjectLifecycleConfig { upload_max_file_size_bytes: 0, ..valid.clone() },
        ObjectLifecycleConfig {
            upload_max_file_size_bytes: ObjectLifecycleConfig::S3_MAX_OBJECT_SIZE_BYTES + 1,
            ..valid.clone()
        },
        ObjectLifecycleConfig {
            upload_part_size_bytes: ObjectLifecycleConfig::S3_MIN_MULTIPART_PART_SIZE_BYTES - 1,
            ..valid.clone()
        },
        ObjectLifecycleConfig {
            upload_max_part_count: ObjectLifecycleConfig::S3_MAX_MULTIPART_PART_COUNT + 1,
            ..valid.clone()
        },
        ObjectLifecycleConfig { upload_session_ttl_seconds: 0, ..valid.clone() },
        ObjectLifecycleConfig { upload_session_cleanup_retry_seconds: -1, ..valid.clone() },
        ObjectLifecycleConfig { upload_session_cleanup_lease_seconds: 0, ..valid.clone() },
        ObjectLifecycleConfig { upload_session_cleanup_max_attempts: 0, ..valid.clone() },
        ObjectLifecycleConfig { upload_session_cleanup_batch_size: 0, ..valid.clone() },
        ObjectLifecycleConfig {
            upload_max_file_size_bytes: (i64::from(valid.upload_max_part_count)
                * valid.upload_part_size_bytes)
                + 1,
            ..valid.clone()
        },
        ObjectLifecycleConfig { storage_deletion_retry_seconds: -1, ..valid.clone() },
        ObjectLifecycleConfig { storage_deletion_lease_seconds: 0, ..valid.clone() },
        ObjectLifecycleConfig { maintenance_interval_seconds: -5, ..valid.clone() },
        ObjectLifecycleConfig { storage_deletion_batch_size: 0, ..valid.clone() },
        ObjectLifecycleConfig { storage_deletion_max_attempts: 0, ..valid.clone() },
    ] {
        assert!(invalid.validate().is_err());
    }

    let extreme = ObjectLifecycleConfig { pending_upload_timeout_seconds: i64::MAX, ..valid };
    assert!(extreme.validate().is_ok());
}

#[test]
fn object_lifecycle_defaults() {
    let c = ObjectLifecycleConfig::default();
    assert_eq!(c.pending_upload_timeout_seconds, 3600);
    assert_eq!(c.upload_max_file_size_bytes, 1024 * 1024 * 1024);
    assert_eq!(c.upload_part_size_bytes, 8 * 1024 * 1024);
    assert_eq!(c.upload_max_part_count, 10_000);
    assert_eq!(c.upload_session_ttl_seconds, 3600);
    assert_eq!(c.upload_session_cleanup_retry_seconds, 60);
    assert_eq!(c.upload_session_cleanup_lease_seconds, 300);
    assert_eq!(c.upload_session_cleanup_max_attempts, 10);
    assert_eq!(c.storage_deletion_batch_size, 1000);
    assert_eq!(c.storage_deletion().batch_size, 1000);
    assert_eq!(c.upload_session_cleanup().lease_seconds, 300);
    assert_eq!(c.worker_interval_seconds(), c.maintenance_interval_seconds as u64);
}

#[test]
fn upload_session_policy_calculates_part_counts_and_lengths() {
    let part_size = ObjectLifecycleConfig::S3_MIN_MULTIPART_PART_SIZE_BYTES;
    let config = ObjectLifecycleConfig {
        upload_max_file_size_bytes: part_size * 4,
        upload_part_size_bytes: part_size,
        upload_max_part_count: 4,
        ..ObjectLifecycleConfig::default()
    };
    let file_size = (part_size * 2) + 7;

    assert_eq!(config.upload_session_total_parts(1).ok(), Some(1));
    assert_eq!(config.upload_session_total_parts(part_size).ok(), Some(1));
    assert_eq!(config.upload_session_total_parts(file_size).ok(), Some(3));
    assert_eq!(config.upload_session_expected_part_size_bytes(file_size, 1).ok(), Some(part_size));
    assert_eq!(config.upload_session_expected_part_size_bytes(file_size, 2).ok(), Some(part_size));
    assert_eq!(config.upload_session_expected_part_size_bytes(file_size, 3).ok(), Some(7));
    assert!(config.upload_session_total_parts(0).is_err());
    assert!(config.upload_session_expected_part_size_bytes(file_size, 4).is_err());
}

#[test]
fn upload_parts_cover_the_file_exactly() {
    let part_size = ObjectLifecycleConfig::S3_MIN_MULTIPART_PART_SIZE_BYTES;
    let config = ObjectLifecycleConfig {
        upload_max_file_size_bytes: part_size * 10,
        upload_part_size_bytes: part_size,
        upload_max_part_count: 10,
        ..ObjectLifecycleConfig::default()
    };
    for file_size in [1, part_size - 1, part_size, part_size + 1, part_size * 3, part_size * 10] {
        let total = config.upload_session_total_parts(file_size).ok().unwrap_or(0);
        assert!(total >= 1);
        let mut covered = 0;
        for part in 1..=total {
            let len = config.upload_session_expected_part_size_bytes(file_size, part).ok().unwrap_or(0);
            assert!(len > 0 && len <= part_size);
            if part < total {
                assert_eq!(len, part_size);
            }
            covered += len;
        }
        assert_eq!(covered, file_size);
    }
}

#[test]
fn upload_session_total_parts_errors() {
    let config = ObjectLifecycleConfig {
        upload_max_file_size_bytes: 100,
        upload_part_size_bytes: 10,
        upload_max_part_count: 3,
        ..ObjectLifecycleConfig::default()
    };
    assert_eq!(
        config.upload_session_total_parts(0).err().map(|e| e.message()),
        Some("file_size_bytes must be greater than 0".to_string())
    );
    assert_eq!(
        config.upload_session_total_parts(101).err().map(|e| e.message()),
        Some("file_size_bytes must be at most 100".to_string())
    );
    assert_eq!(
        config.upload_session_total_parts(31).err().map(|e| e.message()),
        Some("file_size_bytes requires 4 parts, exceeding upload_max_part_count 3".to_string())
    );
    assert_eq!(
        config.upload_session_expected_part_size_bytes(25, 0).err().map(|e| e.message()),
        Some("part_number must be between 1 and 3".to_string())
    );
}

#[test]
fn email_outbox_config_defaults_and_validation() {
    let c = EmailOutboxConfig::default();
    assert_eq!(c.retry_seconds, 60);
    assert_eq!(c.batch_size, EmailOutboxConfig::default_batch_size());
    assert!(c.validate().is_ok());
    let bad = EmailOutboxConfig { lease_seconds: 0, ..c.clone() };
    assert_eq!(
        bad.validate().err().map(|e| e.message()),
        Some("email_outbox.lease_seconds must be greater than 0".to_string())
    );
}

#[test]
fn outbox_retry_config_names_the_group() {
    let retry = OutboxRetryConfig { retry_seconds: 1, lease_seconds: 1, batch_size: 0, max_attempts: 1 };
    assert_eq!(
        retry.validate("storage_deletion").err().map(|e| e.message()),
        Some("storage_deletion.batch_size must be greater than 0".to_string())
    );
    let ok = OutboxRetryConfig { batch_size: 5, ..retry };
    assert!(ok.validate("storage_deletion").is_ok());
}
