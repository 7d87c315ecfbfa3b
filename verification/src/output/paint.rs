//! Colour on the terminal, through the crate `colored`.
//!
//! Whether `colored` adds escape sequences is decided by the environment
//! and by the terminal that stands behind the standard output, so nothing
//! is claimed of the texts that come back.

use colored::Colorize;
use vstd::prelude::*;

verus! {

/// Calls `Colorize::bright_cyan` and renders the result.
#[verifier::external_body]
pub(crate) fn bright_cyan(text: &str) -> (painted: String) {
    text.bright_cyan().to_string()
}

/// Calls `Colorize::yellow` and renders the result.
#[verifier::external_body]
pub(crate) fn yellow(text: &str) -> (painted: String) {
    text.yellow().to_string()
}

/// Calls `Colorize::green` and renders the result.
#[verifier::external_body]
pub(crate) fn green(text: &str) -> (painted: String) {
    text.green().to_string()
}

/// Calls `Colorize::red`, then `Colorize::bold`, and renders the result.
#[verifier::external_body]
pub(crate) fn red_bold(text: &str) -> (painted: String) {
    text.red().bold().to_string()
}

} // verus!
