//! Error type used across the library.

use vstd::prelude::*;

verus! {

/// Top-level error type for the analyser pipeline.
#[derive(Debug, Clone)]
pub enum Error {
    /// File could not be opened or read.
    Io {
        /// Source path that failed.
        path: String,
        /// What the operating system reported.
        detail: String,
    },
    /// VCDS log header could not be located: no row contains at least
    /// three `NNN-K` tokens.
    NotVcds,
    /// Required VCDS group(s) missing for the requested operation.
    MissingGroups(Vec<String>),
}

} // verus!
