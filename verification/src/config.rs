//! The settings of the service.

use vstd::prelude::*;

verus! {

/// Where the log files go.
#[derive(Debug)]
pub struct Log {
    pub path: String,
    pub prefix: String,
}

/// The settings read once at start.
#[derive(Debug)]
pub struct Config {
    pub log: Log,
    /// The key of the upstream API.
    pub api: String,
}

} // verus!
