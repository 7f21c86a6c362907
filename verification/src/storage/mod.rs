//! Storage helpers for the administrative configuration and the storage
//! key layout.
//!
//! # Sub-modules
//! - [`keys`] — compact enum of all storage keys
//! - [`config`] — [`config::Config`] getter / setter / validator

pub mod config;
pub mod keys;

pub use config::{get_config, set_config, validate_config};
pub use keys::StorageKey;
