//! The command line, once parsed.

use vstd::prelude::*;

verus! {

/// One invocation.
pub struct Cli {
    /// What is asked for.
    pub command: Commands,
    /// The format of the answer; the default where none is given.
    pub output: Option<OutputFormat>,
    /// Whether the cache is to be left out.
    pub no_cache: bool,
    /// Whether progress is reported.
    pub verbose: bool,
}

/// What a user can ask for.
pub enum Commands {
    /// Information about a creature.
    Pokemon { name_or_id: String, detailed: bool },
    /// Information about a move.
    Move { name_or_id: String },
    /// Information about an item.
    Item { name_or_id: String },
    /// Emptying the local cache.
    ClearCache,
}

/// The formats in which an answer can be rendered.
#[derive(Clone, Copy, Debug, PartialEq, Eq, Structural)]
pub enum OutputFormat {
    Table,
    Json,
    Yaml,
}

impl Default for OutputFormat {
    /// A table, where nothing else is asked for.
    fn default() -> (format: Self)
        ensures
            format == OutputFormat::Table,
    {
        OutputFormat::Table
    }
}

impl Cli {
    /// The format in which this invocation is answered: the one that was
    /// asked for, or the default.
    pub fn output_format(&self) -> (format: OutputFormat)
        ensures
            format == match self.output {
                Some(chosen) => chosen,
                None => OutputFormat::Table,
            },
    {
        match self.output {
            Some(chosen) => chosen,
            None => OutputFormat::default(),
        }
    }
}

} // verus!
