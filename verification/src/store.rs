//! Reports of the store.
use vstd::prelude::*;

verus! {

/// Report of a migration run.
#[derive(Clone, Copy, Debug, PartialEq, Eq, Structural)]
pub struct MigrationReport {
    /// Migrations that the run applied.
    pub applied: u32,
    /// Current schema version.
    pub current_version: u32,
}

impl MigrationReport {
    /// The report with these numbers.
    pub fn new(applied: u32, current_version: u32) -> (result: Self)
        ensures
            result.applied == applied,
            result.current_version == current_version,
    {
        MigrationReport { applied, current_version }
    }

    /// The number of migrations that the run applied.
    pub fn applied(self) -> (result: u32)
        ensures
            result == self.applied,
    {
        self.applied
    }

    /// The current schema version.
    pub fn current_version(self) -> (result: u32)
        ensures
            result == self.current_version,
    {
        self.current_version
    }
}

} // verus!
