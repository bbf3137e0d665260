//! Verified core of the memory-map backend: configuration validation, upload
//! part arithmetic, outbox draining decisions, and request-cache keys.

pub mod text;
pub mod errors;
pub mod config_error;
pub mod outbox;
pub mod object_lifecycle;
pub mod storage;
pub mod email_worker;
pub mod graphql;
pub mod cache;
pub mod operation;
pub mod bootstrap;
pub mod config_debug;
pub mod accounts;

use vstd::prelude::*;
use vstd::string::*;
use crate::config_error::{ConfigError, ConfigErrorView};
use crate::errors::{AppError, AppErrorView};
use crate::email_worker::EmailOutboxConfig;
use crate::object_lifecycle::ObjectLifecycleConfig;
use crate::storage::StorageConfig;
use crate::text::{chars_have_prefix, chars_of, has_prefix};

verus! {

#[derive(Clone, Debug)]
pub struct ServerConfig {
    pub host: String,
    pub port: u16,
}

#[derive(Clone)]
pub struct SmtpConfig {
    pub host: String,
    pub user: String,
    pub pass: String,
    pub from: String,
}

#[derive(Clone)]
pub struct AuthConfig {
    pub cookie_secret: String,
    pub enable_registration: bool,
    pub cookie_secure: Option<bool>,
}

impl AuthConfig {
    pub const MIN_COOKIE_SECRET_BYTES: usize = 64;

    /// Why the settings are refused: a cookie secret shorter than 64 bytes
    /// (in its UTF-8 encoding).
    pub open spec fn rejection(self) -> Option<ConfigErrorView> {
        if (vstd::utf8::encode_utf8(self.cookie_secret@).len() as usize) < Self::MIN_COOKIE_SECRET_BYTES {
            Some(
                ConfigErrorView::TooShort {
                    field: "auth.cookie_secret"@,
                    min_bytes: Self::MIN_COOKIE_SECRET_BYTES as nat,
                },
            )
        } else {
            None
        }
    }

    pub fn validate(&self) -> (r: Result<(), ConfigError>)
        ensures
            r is Ok <==> self.rejection() is None,
            r matches Err(e) ==> Some(e@) == self.rejection(),
    {
        let secret: &str = self.cookie_secret.as_str();
        if secret.len() < Self::MIN_COOKIE_SECRET_BYTES {
            return Err(
                ConfigError::TooShort {
                    field: String::from_str("auth.cookie_secret"),
                    min_bytes: Self::MIN_COOKIE_SECRET_BYTES as u64,
                },
            );
        }
        Ok(())
    }
}

#[derive(Clone, Debug)]
pub struct FrontendConfig {
    pub url: String,
}

#[derive(Clone, Debug)]
pub struct CorsConfig {
    pub allowed_origins: String,
}

/// The settings the backend's logic reads. The database pool settings are
/// handed straight to the pool and are not part of it.
#[derive(Clone)]
pub struct Config {
    pub server: ServerConfig,
    pub smtp: SmtpConfig,
    pub auth: AuthConfig,
    pub frontend: FrontendConfig,
    pub cors: CorsConfig,
    pub storage: StorageConfig,
    pub object_lifecycle: ObjectLifecycleConfig,
    pub email_outbox: EmailOutboxConfig,
}

impl Config {
    /// Whether auth cookies carry the `Secure` attribute: the explicit setting
    /// when there is one, otherwise whether the frontend URL starts with
    /// `https`, so that login and logout agree on the cookie's shape.
    pub open spec fn secure_cookies(self) -> bool {
        match self.auth.cookie_secure {
            Some(b) => b,
            None => has_prefix(self.frontend.url@, "https"@),
        }
    }

    pub fn cookie_secure(&self) -> (b: bool)
        ensures
            b == self.secure_cookies(),
    {
        match self.auth.cookie_secure {
            Some(b) => b,
            None => {
                let url = chars_of(self.frontend.url.as_str());
                chars_have_prefix(&url, "https")
            },
        }
    }

    /// The first sub-configuration that is refused, checked in the order
    /// auth, storage, object lifecycle, email outbox.
    pub open spec fn rejection(self) -> Option<ConfigErrorView> {
        if self.auth.rejection() is Some {
            self.auth.rejection()
        } else if self.storage.rejection() is Some {
            self.storage.rejection()
        } else if self.object_lifecycle.rejection() is Some {
            self.object_lifecycle.rejection()
        } else {
            self.email_outbox.rejection()
        }
    }

    /// Runs every sub-configuration's validation and returns the
    /// configuration when all accept it.
    pub fn validated(self) -> (r: Result<Self, ConfigError>)
        ensures
            r is Ok <==> self.rejection() is None,
            r matches Ok(c) ==> c == self,
            r matches Err(e) ==> Some(e@) == self.rejection(),
    {
        self.auth.validate()?;
        self.storage.validate()?;
        self.object_lifecycle.validate()?;
        self.email_outbox.validate()?;
        Ok(self)
    }
}

/// The user a policy check is made for: their id and role.
#[derive(Clone, Debug)]
pub struct CasbinUser {
    pub id: i64,
    pub role: String,
}

/// What a policy check is made on: something owned by `user_id`.
#[derive(Clone, Copy, Debug, PartialEq, Eq, Structural)]
pub struct CasbinObject {
    pub user_id: i64,
}

/// Who is calling: the authenticated user and their policy subject.
#[derive(Clone, Debug)]
pub struct CallerIdentity {
    pub user_id: i64,
    pub casbin_user: CasbinUser,
}

impl CallerIdentity {
    /// The calling user's id; a request without an identity is refused as
    /// unauthorized.
    pub fn user_id_of(identity: Option<&CallerIdentity>) -> (r: Result<i64, AppError>)
        ensures
            match identity {
                Some(c) => r == Ok::<i64, AppError>(c.user_id),
                None => r matches Err(e) && e@ == AppErrorView::Unauthorized,
            },
    {
        match identity {
            Some(c) => Ok(c.user_id),
            None => Err(AppError::Unauthorized),
        }
    }

    /// The calling user's id, if there is a caller.
    pub fn user_id_opt(identity: Option<&CallerIdentity>) -> (r: Option<i64>)
        ensures
            r == (match identity {
                Some(c) => Some(c.user_id),
                None => None::<i64>,
            }),
    {
        match identity {
            Some(c) => Some(c.user_id),
            None => None,
        }
    }
}

/// What a policy check answers for one target, given the policy engine's
/// decision. An allowed target passes, a denied one is `Forbidden`, and an
/// engine failure is internal, carrying its message.
pub fn permission_verdict(verdict: Result<bool, String>) -> (r: Result<(), AppError>)
    ensures
        match verdict {
            Ok(true) => r is Ok,
            Ok(false) => r matches Err(e) && e@ == AppErrorView::Forbidden,
            Err(m) => r matches Err(e) && e@ == AppErrorView::Internal(m@),
        },
{
    match verdict {
        Ok(true) => Ok(()),
        Ok(false) => Err(AppError::Forbidden),
        Err(m) => Err(AppError::Internal(m)),
    }
}

/// The body of a request to delete several stored objects: their ids.
#[derive(Clone, Debug)]
pub struct DeleteS3ObjectsRequest {
    pub s3_objects: Vec<i64>,
}

} // verus!
