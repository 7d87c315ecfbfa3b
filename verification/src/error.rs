//! The one error type of the crate.
//!
//! Failures of the transport, of configuration, of the file system and of
//! serialisation arise outside this crate; they are carried here by the
//! text that describes them.

use vstd::prelude::*;
use vstd::string::StringExecFns;

verus! {

/// What can go wrong while a request is served.
#[derive(Debug)]
pub enum PokeCliError {
    /// The HTTP request failed; the text describes the failure.
    Http(String),
    /// The remote side knows no creature of that name.
    PokemonNotFound { name: String },
    /// The name or number that was asked for is not usable.
    InvalidInput { input: String },
    /// The cache could not do its work.
    Cache(String),
    /// The configuration could not be read.
    Config(String),
    /// Reading or writing failed.
    Io(String),
    /// A value could not be turned into text, or text into a value.
    Serialization(String),
}

impl PokeCliError {
    /// The line that describes the error to a reader.
    pub open spec fn description(self) -> Seq<char> {
        match self {
            PokeCliError::Http(cause) => "HTTP request failed: "@ + cause@,
            PokeCliError::PokemonNotFound { name } => "Pokemon '"@ + name@ + "' not found"@,
            PokeCliError::InvalidInput { input } => "Invalid Pokemon name or ID: "@ + input@,
            PokeCliError::Cache(cause) => "Cache error: "@ + cause@,
            PokeCliError::Config(cause) => "Configuration error: "@ + cause@,
            PokeCliError::Io(cause) => "IO error: "@ + cause@,
            PokeCliError::Serialization(cause) => "Serialization error: "@ + cause@,
        }
    }

    /// This is a cache error whose cause reads `cause`.
    pub open spec fn is_cache_failure(self, cause: Seq<char>) -> bool {
        self matches PokeCliError::Cache(text) && text@ == cause
    }

    /// This is the rejection of `input` as a name or number.
    pub open spec fn is_invalid_input(self, input: Seq<char>) -> bool {
        self matches PokeCliError::InvalidInput { input: text } && text@ == input
    }

    /// This says that no creature is called `name`.
    pub open spec fn is_not_found(self, name: Seq<char>) -> bool {
        self matches PokeCliError::PokemonNotFound { name: text } && text@ == name
    }

    /// The line that describes the error to a reader.
    pub fn message(&self) -> (text: String)
        ensures
            text@ == self.description(),
    {
        match self {
            PokeCliError::Http(cause) => String::from_str("HTTP request failed: ").concat(
                cause.as_str(),
            ),
            PokeCliError::PokemonNotFound { name } => String::from_str("Pokemon '").concat(
                name.as_str(),
            ).concat("' not found"),
            PokeCliError::InvalidInput { input } => String::from_str(
                "Invalid Pokemon name or ID: ",
            ).concat(input.as_str()),
            PokeCliError::Cache(cause) => String::from_str("Cache error: ").concat(cause.as_str()),
            PokeCliError::Config(cause) => String::from_str("Configuration error: ").concat(
                cause.as_str(),
            ),
            PokeCliError::Io(cause) => String::from_str("IO error: ").concat(cause.as_str()),
            PokeCliError::Serialization(cause) => String::from_str("Serialization error: ").concat(
                cause.as_str(),
            ),
        }
    }
}

} // verus!
