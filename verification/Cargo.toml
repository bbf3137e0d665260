[package]
name = "memory_map"
version = "0.1.0"
edition = "2021"
publish = false

[dependencies]
anyhow = "=1.0.104"
argon2 = "=0.5.3"
async-graphql = { version = "=7.2.1", default-features = false, features = ["graphiql"] }
async-graphql-axum = "=7.2.1"
aws-credential-types = "=1.3.1"
aws-sdk-s3 = { version = "=1.157.0", default-features = false, features = ["rt-tokio", "default-https-client"] }
axum = { version = "=0.8.9", features = ["multipart"] }
axum-extra = { version = "=0.10.3", features = ["cookie-private"] }
blake3 = "=1.8.7"
config = { version = "=0.15.27", default-features = false, features = ["toml"] }
deadpool = "=0.12.3"
deadpool-postgres = { version = "=0.14.2", features = ["serde"] }
dotenvy = "=0.15.7"
email_address = "=0.2.9"
jiff = "=0.2.39"
lettre = { version = "=0.11.23", default-features = false, features = ["builder", "smtp-transport", "tokio1", "tokio1-rustls-tls"] }
moka = { version = "=0.12.16", features = ["future"] }
parking_lot = "=0.12.5"
postgres-types = { version = "=0.2.14", features = ["derive"] }
rand = "=0.10.3"
serde = { version = "=1.0.229", features = ["derive"] }
serde_json = "=1.0.154"
time = "=0.3.55"
tokio = { version = "=1.54.1", features = ["macros", "rt-multi-thread", "net", "time", "sync"] }
tokio-postgres = { version = "=0.7.18", features = ["with-jiff-0_2"] }
tower-http = { version = "=0.6.11", features = ["cors", "limit"] }
tracing = "=0.1.44"
tracing-subscriber = { version = "=0.3.23", features = ["env-filter"] }
