//! Layered configuration model for a registry server: a root directory plus
//! sub-configurations for git-backed stores, crate file layout, database
//! backends, the listener, and an identity provider. A structured text
//! document is parsed into a value tree and resolved field by field, with
//! per-field defaults and load-time errors for missing mandatory fields.

pub mod config;
pub mod crate_files;
pub mod db;
pub mod error;
pub mod git;
pub mod openid;
pub mod parse;
pub mod server;
pub mod value;

pub use config::Config;
pub use crate_files::CrateFilesConfig;
pub use db::DbConfig;
pub use error::{ConfigError, ConfigField};
pub use git::GitConfig;
pub use openid::OpenIdConfig;
pub use server::ServerConfig;
pub use value::DocValue;
