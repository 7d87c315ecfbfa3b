//! What a user can ask for on the command line.

pub mod args;

pub use args::{Cli, Commands, OutputFormat};
