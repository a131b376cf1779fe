//! What the command line can set.

use vstd::prelude::*;

verus! {

/// The arguments of the command line.
#[derive(Debug, PartialEq, Eq)]
pub struct Args {
    /// Config file path.
    pub config: String,
    /// Log level (debug, info, warn, error).
    pub log_level: Option<String>,
    /// Update interval in seconds.
    pub interval: Option<u64>,
}

} // verus!
