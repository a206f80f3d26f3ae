//! Links chat-platform users to game accounts: a staleness-aware cache, the
//! decisions of the link / unlink / lookup protocol across cache, durable
//! store and remote verifier, and the small parsers around them.

pub mod cache;
pub mod shared_map;
pub mod models;
pub mod user_cache;
pub mod text;
pub mod riot;
pub mod sync;
pub mod store;
pub mod utils;
pub mod config;
pub mod commands;
