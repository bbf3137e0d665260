//! Debug renderings of the settings, in the shape of `{:?}` output, with every
//! secret (passwords, cookie secret, storage credentials, database settings)
//! replaced by `"<redacted>"`.

use vstd::prelude::*;
use vstd::string::*;
use crate::email_worker::EmailOutboxConfig;
use crate::object_lifecycle::ObjectLifecycleConfig;
use crate::storage::StorageConfig;
use crate::text::{append_signed, append_unsigned, debug_str, decimal, signed_decimal, str_debug};
use crate::{AuthConfig, Config, CorsConfig, FrontendConfig, ServerConfig, SmtpConfig};

verus! {

/// What a redacted field shows.
pub open spec fn redacted() -> Seq<char> {
    "\"<redacted>\""@
}

pub open spec fn bool_debug(b: bool) -> Seq<char> {
    if b {
        "true"@
    } else {
        "false"@
    }
}

pub open spec fn option_str_debug(o: Option<String>) -> Seq<char> {
    match o {
        Some(s) => "Some("@ + str_debug(s@) + ")"@,
        None => "None"@,
    }
}

pub open spec fn option_bool_debug(o: Option<bool>) -> Seq<char> {
    match o {
        Some(b) => "Some("@ + bool_debug(b) + ")"@,
        None => "None"@,
    }
}

pub open spec fn server_debug(c: ServerConfig) -> Seq<char> {
    "ServerConfig { host: "@ + str_debug(c.host@) + ", port: "@ + decimal(c.port as nat) + " }"@
}

pub open spec fn smtp_debug(c: SmtpConfig) -> Seq<char> {
    "SmtpConfig { host: "@ + str_debug(c.host@) + ", user: "@ + str_debug(c.user@)
        + ", pass: "@ + redacted() + ", from: "@ + str_debug(c.from@) + " }"@
}

pub open spec fn auth_debug(c: AuthConfig) -> Seq<char> {
    "AuthConfig { cookie_secret: "@ + redacted() + ", enable_registration: "@ + bool_debug(
        c.enable_registration,
    ) + ", cookie_secure: "@ + option_bool_debug(c.cookie_secure) + " }"@
}

pub open spec fn frontend_debug(c: FrontendConfig) -> Seq<char> {
    "FrontendConfig { url: "@ + str_debug(c.url@) + " }"@
}

pub open spec fn cors_debug(c: CorsConfig) -> Seq<char> {
    "CorsConfig { allowed_origins: "@ + str_debug(c.allowed_origins@) + " }"@
}

pub open spec fn storage_debug(c: StorageConfig) -> Seq<char> {
    "StorageConfig { endpoint_url: "@ + str_debug(c.endpoint_url@) + ", public_endpoint_url: "@
        + option_str_debug(c.public_endpoint_url) + ", access_key: "@ + redacted()
        + ", secret_key: "@ + redacted() + ", bucket_name: "@ + str_debug(c.bucket_name@)
        + ", region: "@ + str_debug(c.region@) + ", force_path_style: "@ + bool_debug(
        c.force_path_style,
    ) + ", presigned_url_ttl_seconds: "@ + decimal(c.presigned_url_ttl_seconds as nat) + " }"@
}

pub open spec fn object_lifecycle_debug(c: ObjectLifecycleConfig) -> Seq<char> {
    "ObjectLifecycleConfig { pending_upload_timeout_seconds: "@ + signed_decimal(
        c.pending_upload_timeout_seconds as int,
    ) + ", upload_max_file_size_bytes: "@ + signed_decimal(c.upload_max_file_size_bytes as int)
        + ", upload_part_size_bytes: "@ + signed_decimal(c.upload_part_size_bytes as int)
        + ", upload_max_part_count: "@ + signed_decimal(c.upload_max_part_count as int)
        + ", upload_session_ttl_seconds: "@ + signed_decimal(c.upload_session_ttl_seconds as int)
        + ", upload_session_cleanup_retry_seconds: "@ + signed_decimal(
        c.upload_session_cleanup_retry_seconds as int,
    ) + ", upload_session_cleanup_lease_seconds: "@ + signed_decimal(
        c.upload_session_cleanup_lease_seconds as int,
    ) + ", upload_session_cleanup_max_attempts: "@ + signed_decimal(
        c.upload_session_cleanup_max_attempts as int,
    ) + ", upload_session_cleanup_batch_size: "@ + signed_decimal(
        c.upload_session_cleanup_batch_size as int,
    ) + ", storage_deletion_retry_seconds: "@ + signed_decimal(
        c.storage_deletion_retry_seconds as int,
    ) + ", storage_deletion_lease_seconds: "@ + signed_decimal(
        c.storage_deletion_lease_seconds as int,
    ) + ", maintenance_interval_seconds: "@ + signed_decimal(c.maintenance_interval_seconds as int)
        + ", storage_deletion_batch_size: "@ + signed_decimal(c.storage_deletion_batch_size as int)
        + ", storage_deletion_max_attempts: "@ + signed_decimal(
        c.storage_deletion_max_attempts as int,
    ) + " }"@
}

pub open spec fn email_outbox_debug(c: EmailOutboxConfig) -> Seq<char> {
    "EmailOutboxConfig { retry_seconds: "@ + signed_decimal(c.retry_seconds as int)
        + ", lease_seconds: "@ + signed_decimal(c.lease_seconds as int)
        + ", worker_interval_seconds: "@ + signed_decimal(c.worker_interval_seconds as int)
        + ", batch_size: "@ + signed_decimal(c.batch_size as int) + ", max_attempts: "@
        + signed_decimal(c.max_attempts as int) + " }"@
}

/// The whole configuration; the database settings show as redacted whatever
/// they hold.
pub open spec fn config_debug(c: Config) -> Seq<char> {
    "Config { pg: "@ + redacted() + ", server: "@ + server_debug(c.server) + ", smtp: "@
        + smtp_debug(c.smtp) + ", auth: "@ + auth_debug(c.auth) + ", frontend: "@
        + frontend_debug(c.frontend) + ", cors: "@ + cors_debug(c.cors) + ", storage: "@
        + storage_debug(c.storage) + ", object_lifecycle: "@ + object_lifecycle_debug(
        c.object_lifecycle,
    ) + ", email_outbox: "@ + email_outbox_debug(c.email_outbox) + " }"@
}

fn append_quoted(s: &mut String, text: &str)
    ensures
        final(s)@ == old(s)@ + str_debug(text@),
{
    let quoted = debug_str(text);
    s.append(quoted.as_str());
}

fn append_bool(s: &mut String, b: bool)
    ensures
        final(s)@ == old(s)@ + bool_debug(b),
{
    if b {
        s.append("true");
    } else {
        s.append("false");
    }
}

fn append_option_str(s: &mut String, o: &Option<String>)
    ensures
        final(s)@ == old(s)@ + option_str_debug(*o),
{
    match o {
        Some(t) => {
            let ghost start = s@;
            s.append("Some(");
            append_quoted(s, t.as_str());
            s.append(")");
            assert(s@ =~= start + ("Some("@ + str_debug(t@) + ")"@));
        },
        None => {
            s.append("None");
        },
    }
}

fn append_option_bool(s: &mut String, o: Option<bool>)
    ensures
        final(s)@ == old(s)@ + option_bool_debug(o),
{
    match o {
        Some(b) => {
            let ghost start = s@;
            s.append("Some(");
            append_bool(s, b);
            s.append(")");
            assert(s@ =~= start + ("Some("@ + bool_debug(b) + ")"@));
        },
        None => {
            s.append("None");
        },
    }
}

impl ServerConfig {
    /// The `{:?}` rendering of the server settings.
    pub fn debug_string(&self) -> (r: String)
        ensures
            r@ == server_debug(*self),
    {
        let mut s = String::from_str("ServerConfig { host: ");
        append_quoted(&mut s, self.host.as_str());
        s.append(", port: ");
        append_unsigned(&mut s, self.port as u64);
        s.append(" }");
        s
    }
}

impl SmtpConfig {
    /// The `{:?}` rendering of the mail settings, with the password redacted.
    pub fn debug_string(&self) -> (r: String)
        ensures
            r@ == smtp_debug(*self),
    {
        let mut s = String::from_str("SmtpConfig { host: ");
        append_quoted(&mut s, self.host.as_str());
        s.append(", user: ");
        append_quoted(&mut s, self.user.as_str());
        s.append(", pass: ");
        s.append("\"<redacted>\"");
        s.append(", from: ");
        append_quoted(&mut s, self.from.as_str());
        s.append(" }");
        s
    }
}

impl AuthConfig {
    /// The `{:?}` rendering of the auth settings, with the cookie secret
    /// redacted.
    pub fn debug_string(&self) -> (r: String)
        ensures
            r@ == auth_debug(*self),
    {
        let mut s = String::from_str("AuthConfig { cookie_secret: ");
        s.append("\"<redacted>\"");
        s.append(", enable_registration: ");
        append_bool(&mut s, self.enable_registration);
        s.append(", cookie_secure: ");
        append_option_bool(&mut s, self.cookie_secure);
        s.append(" }");
        s
    }
}

impl FrontendConfig {
    /// The `{:?}` rendering of the frontend settings.
    pub fn debug_string(&self) -> (r: String)
        ensures
            r@ == frontend_debug(*self),
    {
        let mut s = String::from_str("FrontendConfig { url: ");
        append_quoted(&mut s, self.url.as_str());
        s.append(" }");
        s
    }
}

impl CorsConfig {
    /// The `{:?}` rendering of the CORS settings.
    pub fn debug_string(&self) -> (r: String)
        ensures
            r@ == cors_debug(*self),
    {
        let mut s = String::from_str("CorsConfig { allowed_origins: ");
        append_quoted(&mut s, self.allowed_origins.as_str());
        s.append(" }");
        s
    }
}

impl StorageConfig {
    /// The `{:?}` rendering of the storage settings, with the access key and
    /// secret key redacted.
    pub fn debug_string(&self) -> (r: String)
        ensures
            r@ == storage_debug(*self),
    {
        let mut s = String::from_str("StorageConfig { endpoint_url: ");
        append_quoted(&mut s, self.endpoint_url.as_str());
        s.append(", public_endpoint_url: ");
        append_option_str(&mut s, &self.public_endpoint_url);
        s.append(", access_key: ");
        s.append("\"<redacted>\"");
        s.append(", secret_key: ");
        s.append("\"<redacted>\"");
        s.append(", bucket_name: ");
        append_quoted(&mut s, self.bucket_name.as_str());
        s.append(", region: ");
        append_quoted(&mut s, self.region.as_str());
        s.append(", force_path_style: ");
        append_bool(&mut s, self.force_path_style);
        s.append(", presigned_url_ttl_seconds: ");
        append_unsigned(&mut s, self.presigned_url_ttl_seconds);
        s.append(" }");
        s
    }
}

impl ObjectLifecycleConfig {
    /// The `{:?}` rendering of the lifecycle settings.
    pub fn debug_string(&self) -> (r: String)
        ensures
            r@ == object_lifecycle_debug(*self),
    {
        let mut s = String::from_str("ObjectLifecycleConfig { pending_upload_timeout_seconds: ");
        append_signed(&mut s, self.pending_upload_timeout_seconds);
        s.append(", upload_max_file_size_bytes: ");
        append_signed(&mut s, self.upload_max_file_size_bytes);
        s.append(", upload_part_size_bytes: ");
        append_signed(&mut s, self.upload_part_size_bytes);
        s.append(", upload_max_part_count: ");
        append_signed(&mut s, self.upload_max_part_count as i64);
        s.append(", upload_session_ttl_seconds: ");
        append_signed(&mut s, self.upload_session_ttl_seconds);
        s.append(", upload_session_cleanup_retry_seconds: ");
        append_signed(&mut s, self.upload_session_cleanup_retry_seconds);
        s.append(", upload_session_cleanup_lease_seconds: ");
        append_signed(&mut s, self.upload_session_cleanup_lease_seconds);
        s.append(", upload_session_cleanup_max_attempts: ");
        append_signed(&mut s, self.upload_session_cleanup_max_attempts as i64);
        s.append(", upload_session_cleanup_batch_size: ");
        append_signed(&mut s, self.upload_session_cleanup_batch_size);
        s.append(", storage_deletion_retry_seconds: ");
        append_signed(&mut s, self.storage_deletion_retry_seconds);
        s.append(", storage_deletion_lease_seconds: ");
        append_signed(&mut s, self.storage_deletion_lease_seconds);
        s.append(", maintenance_interval_seconds: ");
        append_signed(&mut s, self.maintenance_interval_seconds);
        s.append(", storage_deletion_batch_size: ");
        append_signed(&mut s, self.storage_deletion_batch_size);
        s.append(", storage_deletion_max_attempts: ");
        append_signed(&mut s, self.storage_deletion_max_attempts as i64);
        s.append(" }");
        s
    }
}

impl EmailOutboxConfig {
    /// The `{:?}` rendering of the email-outbox settings.
    pub fn debug_string(&self) -> (r: String)
        ensures
            r@ == email_outbox_debug(*self),
    {
        let mut s = String::from_str("EmailOutboxConfig { retry_seconds: ");
        append_signed(&mut s, self.retry_seconds);
        s.append(", lease_seconds: ");
        append_signed(&mut s, self.lease_seconds);
        s.append(", worker_interval_seconds: ");
        append_signed(&mut s, self.worker_interval_seconds);
        s.append(", batch_size: ");
        append_signed(&mut s, self.batch_size);
        s.append(", max_attempts: ");
        append_signed(&mut s, self.max_attempts as i64);
        s.append(" }");
        s
    }
}

impl Config {
    /// The `{:?}` rendering of the whole configuration, with every secret
    /// redacted.
    pub fn debug_string(&self) -> (r: String)
        ensures
            r@ == config_debug(*self),
    {
        let mut s = String::from_str("Config { pg: ");
        s.append("\"<redacted>\"");
        s.append(", server: ");
        s.append(self.server.debug_string().as_str());
        s.append(", smtp: ");
        s.append(self.smtp.debug_string().as_str());
        s.append(", auth: ");
        s.append(self.auth.debug_string().as_str());
        s.append(", frontend: ");
        s.append(self.frontend.debug_string().as_str());
        s.append(", cors: ");
        s.append(self.cors.debug_string().as_str());
        s.append(", storage: ");
        s.append(self.storage.debug_string().as_str());
        s.append(", object_lifecycle: ");
        s.append(self.object_lifecycle.debug_string().as_str());
        s.append(", email_outbox: ");
        s.append(self.email_outbox.debug_string().as_str());
        s.append(" }");
        s
    }
}

/// Replacing the storage credentials leaves the storage rendering unchanged:
/// neither key ever reaches it.
pub proof fn law_storage_debug_hides_credentials(
    c: StorageConfig,
    access_key: String,
    secret_key: String,
)
    ensures
        storage_debug((StorageConfig { access_key, secret_key, ..c })) == storage_debug(c),
{
}

/// Replacing any secret of the configuration (the mail password, the cookie
/// secret, the storage access and secret keys) leaves its rendering unchanged.
pub proof fn law_config_debug_hides_secrets(
    c: Config,
    smtp_pass: String,
    cookie_secret: String,
    access_key: String,
    secret_key: String,
)
    ensures
        config_debug(
            (Config {
                smtp: SmtpConfig { pass: smtp_pass, ..c.smtp },
                auth: AuthConfig { cookie_secret, ..c.auth },
                storage: StorageConfig { access_key, secret_key, ..c.storage },
                ..c
            }),
        ) == config_debug(c),
{
}

} // verus!
