//! The command-line surface: an optional configuration-file override and
//! an optional subcommand.  The argument parser itself lives outside the
//! verified core; it hands over plain values in this shape.

use vstd::prelude::*;

verus! {

/// Parsed command-line arguments.
pub struct CliArgs {
    /// Path of a custom configuration file, overriding the default
    /// platform location.
    pub config: Option<String>,
    pub command: Option<Commands>,
}

/// The available subcommands; with none given, the dashboard runs.
#[derive(Clone, Copy, Debug, PartialEq, Eq, Structural)]
pub enum Commands {
    /// Set up API tokens for the configured sources.
    Authenticate,
}

} // verus!
