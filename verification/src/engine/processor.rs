//! File processing module
//!
//! Handles reading files, applying emoji detection/replacement, and writing results.
use vstd::prelude::*;

verus! {

/// Processes individual files for emoji detection and replacement
pub struct FileProcessor {}

impl FileProcessor {
    /// Creates a new file processor
    pub fn new() -> (p: Self) {
        FileProcessor {  }
    }
}

impl Default for FileProcessor {
    fn default() -> (p: Self) {
        Self::new()
    }
}

/// Result of processing a file
#[derive(Debug, Clone, PartialEq, Eq)]
pub struct ProcessingResult {}

} // verus!
