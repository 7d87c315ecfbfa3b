//! The remote data service: where its resources live and what they look
//! like.

pub mod client;
pub mod endpoints;
pub mod models;
