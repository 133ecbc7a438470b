//! Server configuration.

pub mod config;

pub use config::ServerConfig;
