//! How answers are rendered.

pub mod formatters;
pub(crate) mod paint;
pub mod table;
pub mod text;
pub mod themes;

pub use formatters::{JsonFormatter, TableFormatter, YamlFormatter};
