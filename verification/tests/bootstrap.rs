use memory_map::bootstrap::{insert_origin, StorageBootstrapConfig};
use memory_map::storage::StorageConfig;
use memory_map::{CorsConfig, FrontendConfig};

fn storage() -> StorageConfig {
    StorageConfig {
        endpoint_url: "http://127.0.0.1:9000".to_string(),
        public_endpoint_url: None,
        access_key: "access".to_string(),
        secret_key: "secret".to_string(),
        bucket_name: "memory-map".to_string(),
        region: "us-east-1".to_string(),
        force_path_style: true,
        presigned_url_ttl_seconds: 60,
    }
}

#[test]
fn upload_cors_allowed_origins_combines_frontend_and_cors_config() {
    let config = StorageBootstrapConfig {
        storage: storage(),
        frontend: Some(FrontendConfig { url: "http://127.0.0.1:3000".to_string() }),
        cors: Some(CorsConfig {
            allowed_origins: "http://127.0.0.1:3000, http://localhost:3000".to_string(),
        }),
    };

    assert_eq!(
        config.upload_cors_allowed_origins(),
        vec!["http://127.0.0.1:3000".to_string(), "http://localhost:3000".to_string(),]
    );
}

#[test]
fn upload_cors_allowed_origins_sorts_dedups_and_drops_blanks() {
    let config = StorageBootstrapConfig {
        storage: storage(),
        frontend: None,
        cors: Some(CorsConfig { allowed_origins: " b , a,, a ,  ".to_string() }),
    };
    assert_eq!(config.upload_cors_allowed_origins(), vec!["a".to_string(), "b".to_string()]);

    let empty = StorageBootstrapConfig { storage: storage(), frontend: None, cors: None };
    assert!(empty.upload_cors_allowed_origins().is_empty());
}

#[test]
fn insert_origin_keeps_a_sorted_set() {
    let mut origins = Vec::new();
    insert_origin(&mut origins, " https://b.test ");
    insert_origin(&mut origins, "https://a.test");
    insert_origin(&mut origins, "https://b.test");
    insert_origin(&mut origins, "   ");
    assert_eq!(origins, vec!["https://a.test".to_string(), "https://b.test".to_string()]);
}
