//! Resource limits of the portable state model and the schema maxima.
use vstd::prelude::*;

verus! {

/// Plain values of every state limit.
#[derive(Clone, Copy, Debug, PartialEq, Eq, Structural)]
pub struct StateLimitValues {
    /// Directory-entry name bytes.
    pub max_entry_name_bytes: usize,
    /// Extended-attribute name bytes.
    pub max_xattr_name_bytes: usize,
    /// Extended-attribute value bytes.
    pub max_xattr_value_bytes: usize,
    /// Principal identity bytes.
    pub max_principal_bytes: usize,
    /// Group identity bytes.
    pub max_group_bytes: usize,
    /// Symbolic-link target bytes.
    pub max_symlink_bytes: usize,
    /// Mutation result bytes.
    pub max_mutation_result_bytes: usize,
    /// Queries per read batch.
    pub max_read_queries: u32,
    /// Parent edges walked from a directory to the root.
    pub max_directory_ancestor_depth: u32,
    /// Records per scan page.
    pub max_scan_items: u32,
    /// Bytes per scan page.
    pub max_scan_bytes: usize,
    /// Preconditions per commit.
    pub max_preconditions: u32,
    /// State changes per commit.
    pub max_changes: u32,
    /// Changed keys per event.
    pub max_change_keys: u32,
    /// Aggregate transaction bytes.
    pub max_transaction_bytes: usize,
    /// Locks per request.
    pub max_locks_per_request: u32,
    /// Open pins per request.
    pub max_open_pins_per_request: u32,
    /// Extended attributes per request.
    pub max_xattrs_per_request: u32,
    /// Lease duration ticks.
    pub max_lease_duration_ticks: u64,
    /// Retained lease-operation rows.
    pub max_lease_operation_history: u32,
    /// Retained change commits.
    pub max_change_history_commits: u32,
}

/// The maxima that the version-1 schema enforces.
pub open spec fn schema_values() -> StateLimitValues {
    StateLimitValues {
        max_entry_name_bytes: 1_024,
        max_xattr_name_bytes: 1_024,
        max_xattr_value_bytes: 1_048_576,
        max_principal_bytes: 65_536,
        max_group_bytes: 65_536,
        max_symlink_bytes: 1_048_576,
        max_mutation_result_bytes: 8_388_608,
        max_read_queries: 4_096,
        max_directory_ancestor_depth: 65_535,
        max_scan_items: 65_536,
        max_scan_bytes: 67_108_864,
        max_preconditions: 16_384,
        max_changes: 16_384,
        max_change_keys: 16_385,
        max_transaction_bytes: 67_108_864,
        max_locks_per_request: 16_384,
        max_open_pins_per_request: 16_384,
        max_xattrs_per_request: 16_384,
        max_lease_duration_ticks: 18_446_744_073_709_551_615,
        max_lease_operation_history: 1_000_000,
        max_change_history_commits: 1_000_000,
    }
}

/// The immutable maxima enforced by the version-1 PostgreSQL schema.
pub fn schema_limit_values() -> (result: StateLimitValues)
    ensures
        result == schema_values(),
{
    StateLimitValues {
        max_entry_name_bytes: 1_024,
        max_xattr_name_bytes: 1_024,
        max_xattr_value_bytes: 1_048_576,
        max_principal_bytes: 65_536,
        max_group_bytes: 65_536,
        max_symlink_bytes: 1_048_576,
        max_mutation_result_bytes: 8_388_608,
        max_read_queries: 4_096,
        max_directory_ancestor_depth: 65_535,
        max_scan_items: 65_536,
        max_scan_bytes: 67_108_864,
        max_preconditions: 16_384,
        max_changes: 16_384,
        max_change_keys: 16_385,
        max_transaction_bytes: 67_108_864,
        max_locks_per_request: 16_384,
        max_open_pins_per_request: 16_384,
        max_xattrs_per_request: 16_384,
        max_lease_duration_ticks: 18_446_744_073_709_551_615,
        max_lease_operation_history: 1_000_000,
        max_change_history_commits: 1_000_000,
    }
}

impl Default for StateLimitValues {
    /// The widest limits that the schema admits.
    fn default() -> (result: Self)
        ensures
            result == schema_values(),
    {
        schema_limit_values()
    }
}

/// Limits under which one adapter instance works.
#[derive(Clone, Copy, Debug, PartialEq, Eq, Structural)]
pub struct StateLimits {
    /// The plain values.
    pub values: StateLimitValues,
}

impl StateLimits {
    /// The limits with these values.
    pub fn new(values: StateLimitValues) -> (result: Self)
        ensures
            result.values == values,
    {
        StateLimits { values }
    }

    /// The plain values.
    pub fn values(&self) -> (result: StateLimitValues)
        ensures
            result == self.values,
    {
        self.values
    }

    /// Principal identity bytes.
    pub fn max_principal_bytes(&self) -> (result: usize)
        ensures
            result == self.values.max_principal_bytes,
    {
        self.values.max_principal_bytes
    }

    /// Bytes per scan page.
    pub fn max_scan_bytes(&self) -> (result: usize)
        ensures
            result == self.values.max_scan_bytes,
    {
        self.values.max_scan_bytes
    }

    /// Queries per read batch.
    pub fn max_read_queries(&self) -> (result: u32)
        ensures
            result == self.values.max_read_queries,
    {
        self.values.max_read_queries
    }

    /// Records per scan page.
    pub fn max_scan_items(&self) -> (result: u32)
        ensures
            result == self.values.max_scan_items,
    {
        self.values.max_scan_items
    }

    /// Extended-attribute name bytes.
    pub fn max_xattr_name_bytes(&self) -> (result: usize)
        ensures
            result == self.values.max_xattr_name_bytes,
    {
        self.values.max_xattr_name_bytes
    }

    /// Aggregate transaction bytes.
    pub fn max_transaction_bytes(&self) -> (result: usize)
        ensures
            result == self.values.max_transaction_bytes,
    {
        self.values.max_transaction_bytes
    }

    /// Parent edges walked from a directory to the root.
    pub fn max_directory_ancestor_depth(&self) -> (result: u32)
        ensures
            result == self.values.max_directory_ancestor_depth,
    {
        self.values.max_directory_ancestor_depth
    }

    /// Retained lease-operation rows.
    pub fn max_lease_operation_history(&self) -> (result: u32)
        ensures
            result == self.values.max_lease_operation_history,
    {
        self.values.max_lease_operation_history
    }

    /// Retained change commits.
    pub fn max_change_history_commits(&self) -> (result: u32)
        ensures
            result == self.values.max_change_history_commits,
    {
        self.values.max_change_history_commits
    }

}

impl Default for StateLimits {
    /// The widest limits that the schema admits.
    fn default() -> (result: Self)
        ensures
            result.values == schema_values(),
    {
        StateLimits { values: schema_limit_values() }
    }
}

/// The limits that the schema itself enforces.
pub fn schema_limits() -> (result: StateLimits)
    ensures
        result.values == schema_values(),
{
    StateLimits { values: schema_limit_values() }
}

/// Category of an exceeded limit.
#[derive(Clone, Copy, Debug, PartialEq, Eq, Structural)]
pub enum StateLimitKind {
    /// Directory-entry name bytes.
    EntryName,
    /// Extended-attribute name bytes.
    XattrName,
    /// Extended-attribute value bytes.
    XattrValue,
    /// Principal identity bytes.
    Principal,
    /// Group identity bytes.
    Group,
    /// Symbolic-link target bytes.
    Symlink,
    /// Mutation result bytes.
    MutationResult,
    /// Queries per read batch.
    ReadQueries,
    /// Records per scan page.
    ScanItems,
    /// Bytes per scan page.
    ScanBytes,
    /// Aggregate transaction bytes.
    TransactionBytes,
    /// Events per change poll.
    Changes,
    /// Keys per change event or poll.
    ChangeKeys,
    /// Opaque content metadata bytes.
    ContentMetadata,
}

/// A value exceeded its limit.
#[derive(Clone, Copy, Debug, PartialEq, Eq, Structural)]
pub struct StateLimitError {
    /// Limit category.
    pub kind: StateLimitKind,
    /// Observed size or count.
    pub actual: u64,
    /// Largest accepted size or count.
    pub maximum: u64,
}

/// The failure of a size above its maximum.
pub open spec fn limit_failure(kind: StateLimitKind, actual: nat, maximum: nat) -> Option<
    StateLimitError,
> {
    if actual > maximum {
        Some(StateLimitError { kind, actual: actual as u64, maximum: maximum as u64 })
    } else {
        None
    }
}

/// The result of a check with an optional failure.
pub open spec fn checked<E>(failure: Option<E>) -> Result<(), E> {
    match failure {
        Some(error) => Err(error),
        None => Ok(()),
    }
}

/// Checks a count against its maximum.
pub fn require_count(kind: StateLimitKind, actual: usize, maximum: u32) -> (result: Result<
    (),
    StateLimitError,
>)
    ensures
        result == checked(limit_failure(kind, actual as nat, maximum as nat)),
{
    let actual: u64 = actual as u64;
    if actual > maximum as u64 {
        Err(StateLimitError { kind, actual, maximum: maximum as u64 })
    } else {
        Ok(())
    }
}

/// Checks a byte size against its maximum.
pub fn require_bytes(kind: StateLimitKind, actual: usize, maximum: usize) -> (result: Result<
    (),
    StateLimitError,
>)
    ensures
        result == checked(limit_failure(kind, actual as nat, maximum as nat)),
{
    let actual: u64 = actual as u64;
    let maximum: u64 = maximum as u64;
    if actual > maximum {
        Err(StateLimitError { kind, actual, maximum })
    } else {
        Ok(())
    }
}

} // verus!
