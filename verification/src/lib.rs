//! Core of a Java runtime version manager: version identities, provider
//! clients, alias planning and archive ingestion rules.

pub mod archive;
pub mod client;
pub mod commands;
pub mod config;
pub mod error;
pub mod loglevel;
pub mod path;
pub mod provider;
pub mod shell;
pub mod text;
pub mod version;
