//! A local backup engine for directory trees ("saves"): it tracks each save's
//! files with content digests, detects drift between the tracked manifest and
//! the live filesystem, and plans the ordered copy/commit/delete steps that
//! keep the on-disk backup and the manifest mutually consistent.

pub mod archive;
pub mod change;
pub mod config;
pub mod models;
pub mod paths;
pub mod query;
pub mod sync;

pub use archive::Archive;
pub use config::ConfigManager;
