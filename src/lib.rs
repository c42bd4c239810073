//! Startup configuration for a lazily woken game server proxy: typed
//! resolution of every setting from a configuration document or from
//! namespaced environment variables.

pub mod text;
pub mod scalar;
pub mod address;
pub mod env;
pub mod sections;
pub mod join;
pub mod version;
pub mod doc;
pub mod file_source;
pub mod config;
pub mod laws;
