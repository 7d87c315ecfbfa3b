//! Lookup of creature reference data, with an expiring in-memory cache.
//!
//! The heart of the crate is [`cache`]: a store of text payloads under
//! string keys, each with a time to live, whose behaviour is stated over a
//! mathematical map and proved.

pub mod api;
pub mod cache;
pub mod cli;
pub mod config;
pub mod error;
pub mod output;
pub mod utils;

pub use error::PokeCliError;
