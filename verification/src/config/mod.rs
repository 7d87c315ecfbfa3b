//! The settings of the program.

pub mod settings;

pub use settings::{ApiSettings, CacheSettings, OutputSettings, Settings};
