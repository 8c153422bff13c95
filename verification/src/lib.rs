//! Startup configuration of a continuous-integration agent for patch-based
//! workflows: the agent's identity, the SSH credentials it pushes with, and
//! the connection to the patch-tracking server.
//!
//! The crate holds the configuration's data model and every decision taken
//! while a configuration is loaded. It touches neither files nor the console:
//! the caller reads the document, probes the credential files, and hands in
//! what it found.

pub mod config;
pub mod diagnostic;
pub mod error;
pub mod load;
pub mod url_check;
pub mod validate;

pub use config::{Config, Git, Patchwork, DEFAULT_PORT};
pub use error::{ConfigError, InvalidConfig};
pub use load::{parse_config, Source};
pub use url_check::url_names_a_server;
pub use validate::{validate_config, validation_verdict, KeyAccess};
