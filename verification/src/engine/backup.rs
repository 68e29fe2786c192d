//! Backup functionality module
//!
//! Handles creating and managing backup files before modifications.
use vstd::prelude::*;

verus! {

/// Manages backup files
pub struct BackupManager {}

impl BackupManager {
    /// Creates a new backup manager
    pub fn new() -> (m: Self) {
        BackupManager {  }
    }
}

impl Default for BackupManager {
    fn default() -> (m: Self) {
        Self::new()
    }
}

} // verus!
