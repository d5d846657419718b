//! Verified core of a key-value capability provider backed by a document
//! database: per-client connection registry, link configuration merging, and
//! the mapping of backing-store outcomes into key-value replies.
pub mod config;
pub mod error;
pub mod provider;
pub mod registry;
