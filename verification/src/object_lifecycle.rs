//! Object storage lifecycle: upload-session policy and part arithmetic, and the
//! checks applied to upload requests and completed uploads.

pub mod config;
pub mod upload;
pub mod maintenance;

pub use config::ObjectLifecycleConfig;
