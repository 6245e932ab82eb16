//! The command line of the observatory, as plain values.

use vstd::prelude::*;

verus! {

/// Parsed command-line arguments.
#[derive(Debug, Clone)]
pub struct Cli {
    /// The subcommand to run.
    pub command: Commands,
}

/// The subcommands.
#[derive(Debug, Clone)]
pub enum Commands {
    /// Run every benchmark and write the results.
    Run {
        /// Output directory override.
        output: Option<String>,
        /// Output format: `json`, `markdown` or `both`.
        format: String,
        /// Print progress.
        verbose: bool,
    },
    /// Show the benchmark configuration.
    Status {
        /// Show details.
        detailed: bool,
    },
}

} // verus!
