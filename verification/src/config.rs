//! Checked configuration of the adapter.
use vstd::prelude::*;

use std::time::Duration;

use crate::limits;
use crate::limits::{schema_limit_values, StateLimitValues, StateLimits};

verus! {

/// Longest timeout that a transaction-local setting can hold, in milliseconds.
pub const MAX_TIMEOUT_MILLIS: u64 = 2_147_483_647;

/// Most retries after definitive aborts.
pub const MAX_DEFINITIVE_ABORT_RETRIES: u32 = 64;

/// Most attempts to learn what became of an ambiguous commit.
pub const MAX_AMBIGUOUS_COMMIT_RECOVERY_ATTEMPTS: u32 = 64;

/// Durability that the adapter requires.
#[derive(Clone, Copy, Debug, PartialEq, Eq, Structural)]
pub enum PrimaryWalDurability {
    /// Acknowledge after the writable primary flushed its log.
    Required,
}

impl Default for PrimaryWalDurability {
    /// The only durability there is.
    fn default() -> (result: Self)
        ensures
            result == PrimaryWalDurability::Required,
    {
        PrimaryWalDurability::Required
    }
}

/// Stable name of a limit that is checked against the schema.
#[derive(Clone, Copy, Debug, PartialEq, Eq, Structural)]
pub enum SchemaLimit {
    /// Directory-entry name bytes.
    EntryNameBytes,
    /// Extended-attribute name bytes.
    XattrNameBytes,
    /// Extended-attribute value bytes.
    XattrValueBytes,
    /// Principal identity bytes.
    PrincipalBytes,
    /// Group identity bytes.
    GroupBytes,
    /// Symbolic-link target bytes.
    SymlinkBytes,
    /// Mutation result bytes.
    MutationResultBytes,
    /// Queries per read batch.
    ReadQueries,
    /// Directory ancestors walked during validation.
    DirectoryAncestorDepth,
    /// Records per scan page.
    ScanItems,
    /// Bytes per scan page.
    ScanBytes,
    /// Preconditions per commit.
    Preconditions,
    /// State changes per commit.
    Changes,
    /// Changed keys per event.
    ChangeKeys,
    /// Aggregate transaction bytes.
    TransactionBytes,
    /// Locks per request.
    Locks,
    /// Open pins per request.
    OpenPins,
    /// Extended attributes per request.
    Xattrs,
    /// Lease duration ticks.
    LeaseDurationTicks,
    /// Retained lease-operation rows.
    LeaseOperationHistory,
    /// Retained change commits.
    ChangeHistoryCommits,
}

/// Why a configuration is invalid.
#[derive(Clone, Copy, Debug, PartialEq, Eq)]
pub enum PostgresConfigError {
    /// A value that must be positive was zero.
    Zero {
        /// Stable field name.
        field: &'static str,
    },
    /// A duration does not fit the transaction-local settings.
    TimeoutTooLarge {
        /// Stable field name.
        field: &'static str,
        /// The duration in milliseconds, as far as it fits.
        milliseconds: u64,
    },
    /// A duration would be cut down to zero milliseconds, which disables the
    /// timeout.
    TimeoutBelowOneMillisecond {
        /// Stable field name.
        field: &'static str,
    },
    /// Waiting for a lock could outlive the enclosing statement.
    LockTimeoutExceedsStatementTimeout,
    /// A retry bound exceeds the adapter's maximum.
    RetryBoundTooLarge {
        /// Stable field name.
        field: &'static str,
        /// The bound.
        actual: u32,
        /// The maximum.
        maximum: u32,
    },
    /// A state limit exceeds the schema maximum.
    StateLimitExceedsSchema {
        /// The limit.
        limit: SchemaLimit,
        /// Its value.
        actual: u64,
        /// The schema maximum.
        maximum: u64,
    },
}

/// Nanoseconds of a duration.
pub uninterp spec fn duration_nanos(value: Duration) -> u128;

/// The nanoseconds of a duration, by `std::time::Duration::as_nanos`. The
/// contract names them: durations are read through this function alone.
#[verifier::external_body]
pub(crate) fn nanoseconds(value: Duration) -> (result: u128)
    ensures
        result == duration_nanos(value),
{
    value.as_nanos()
}

/// The duration of whole seconds, by `std::time::Duration::from_secs`. The
/// contract says how many nanoseconds it holds.
#[verifier::external_body]
pub(crate) fn seconds(value: u64) -> (result: Duration)
    ensures
        duration_nanos(result) == value * 1_000_000_000,
{
    Duration::from_secs(value)
}

/// Whole milliseconds of a duration.
pub open spec fn duration_millis(value: Duration) -> u128 {
    duration_nanos(value) / 1_000_000
}

/// Why a timeout is invalid.
pub open spec fn timeout_failure(field: &'static str, value: Duration) -> Option<
    PostgresConfigError,
> {
    if duration_nanos(value) == 0 {
        Some(PostgresConfigError::Zero { field })
    } else if duration_millis(value) == 0 {
        Some(PostgresConfigError::TimeoutBelowOneMillisecond { field })
    } else if duration_millis(value) > MAX_TIMEOUT_MILLIS {
        Some(
            PostgresConfigError::TimeoutTooLarge {
                field,
                milliseconds: if duration_millis(value) <= u64::MAX {
                    duration_millis(value) as u64
                } else {
                    u64::MAX
                },
            },
        )
    } else {
        None
    }
}

/// Checks a timeout.
pub fn validate_timeout(field: &'static str, value: Duration) -> (result: Result<
    (),
    PostgresConfigError,
>)
    ensures
        result == limits::checked(timeout_failure(field, value)),
{
    let nanoseconds: u128 = nanoseconds(value);
    if nanoseconds == 0 {
        return Err(PostgresConfigError::Zero { field });
    }
    let milliseconds: u128 = nanoseconds / 1_000_000;
    if milliseconds == 0 {
        return Err(PostgresConfigError::TimeoutBelowOneMillisecond { field });
    }
    if milliseconds > MAX_TIMEOUT_MILLIS as u128 {
        let milliseconds: u64 = if milliseconds <= u64::MAX as u128 {
            milliseconds as u64
        } else {
            u64::MAX
        };
        return Err(PostgresConfigError::TimeoutTooLarge { field, milliseconds });
    }
    Ok(())
}

/// A size as a full-range number.
pub fn usize_u64(value: usize) -> (result: u64)
    ensures
        result == value,
{
    value as u64
}

/// The value of a limit.
pub open spec fn limit_value(values: StateLimitValues, limit: SchemaLimit) -> u64 {
    match limit {
        SchemaLimit::EntryNameBytes => values.max_entry_name_bytes as u64,
        SchemaLimit::XattrNameBytes => values.max_xattr_name_bytes as u64,
        SchemaLimit::XattrValueBytes => values.max_xattr_value_bytes as u64,
        SchemaLimit::PrincipalBytes => values.max_principal_bytes as u64,
        SchemaLimit::GroupBytes => values.max_group_bytes as u64,
        SchemaLimit::SymlinkBytes => values.max_symlink_bytes as u64,
        SchemaLimit::MutationResultBytes => values.max_mutation_result_bytes as u64,
        SchemaLimit::ReadQueries => values.max_read_queries as u64,
        SchemaLimit::DirectoryAncestorDepth => values.max_directory_ancestor_depth as u64,
        SchemaLimit::ScanItems => values.max_scan_items as u64,
        SchemaLimit::ScanBytes => values.max_scan_bytes as u64,
        SchemaLimit::Preconditions => values.max_preconditions as u64,
        SchemaLimit::Changes => values.max_changes as u64,
        SchemaLimit::ChangeKeys => values.max_change_keys as u64,
        SchemaLimit::TransactionBytes => values.max_transaction_bytes as u64,
        SchemaLimit::Locks => values.max_locks_per_request as u64,
        SchemaLimit::OpenPins => values.max_open_pins_per_request as u64,
        SchemaLimit::Xattrs => values.max_xattrs_per_request as u64,
        SchemaLimit::LeaseDurationTicks => values.max_lease_duration_ticks as u64,
        SchemaLimit::LeaseOperationHistory => values.max_lease_operation_history as u64,
        SchemaLimit::ChangeHistoryCommits => values.max_change_history_commits as u64,
    }
}

/// The value of a limit.
pub fn value_of_limit(values: StateLimitValues, limit: SchemaLimit) -> (result: u64)
    ensures
        result == limit_value(values, limit),
{
    match limit {
        SchemaLimit::EntryNameBytes => usize_u64(values.max_entry_name_bytes),
        SchemaLimit::XattrNameBytes => usize_u64(values.max_xattr_name_bytes),
        SchemaLimit::XattrValueBytes => usize_u64(values.max_xattr_value_bytes),
        SchemaLimit::PrincipalBytes => usize_u64(values.max_principal_bytes),
        SchemaLimit::GroupBytes => usize_u64(values.max_group_bytes),
        SchemaLimit::SymlinkBytes => usize_u64(values.max_symlink_bytes),
        SchemaLimit::MutationResultBytes => usize_u64(values.max_mutation_result_bytes),
        SchemaLimit::ReadQueries => values.max_read_queries as u64,
        SchemaLimit::DirectoryAncestorDepth => values.max_directory_ancestor_depth as u64,
        SchemaLimit::ScanItems => values.max_scan_items as u64,
        SchemaLimit::ScanBytes => usize_u64(values.max_scan_bytes),
        SchemaLimit::Preconditions => values.max_preconditions as u64,
        SchemaLimit::Changes => values.max_changes as u64,
        SchemaLimit::ChangeKeys => values.max_change_keys as u64,
        SchemaLimit::TransactionBytes => usize_u64(values.max_transaction_bytes),
        SchemaLimit::Locks => values.max_locks_per_request as u64,
        SchemaLimit::OpenPins => values.max_open_pins_per_request as u64,
        SchemaLimit::Xattrs => values.max_xattrs_per_request as u64,
        SchemaLimit::LeaseDurationTicks => values.max_lease_duration_ticks,
        SchemaLimit::LeaseOperationHistory => values.max_lease_operation_history as u64,
        SchemaLimit::ChangeHistoryCommits => values.max_change_history_commits as u64,
    }
}

/// Every limit, in the order in which limits are checked.
pub open spec fn schema_limit_order() -> Seq<SchemaLimit> {
    seq![
        SchemaLimit::EntryNameBytes,
        SchemaLimit::XattrNameBytes,
        SchemaLimit::XattrValueBytes,
        SchemaLimit::PrincipalBytes,
        SchemaLimit::GroupBytes,
        SchemaLimit::SymlinkBytes,
        SchemaLimit::MutationResultBytes,
        SchemaLimit::ReadQueries,
        SchemaLimit::DirectoryAncestorDepth,
        SchemaLimit::ScanItems,
        SchemaLimit::ScanBytes,
        SchemaLimit::Preconditions,
        SchemaLimit::Changes,
        SchemaLimit::ChangeKeys,
        SchemaLimit::TransactionBytes,
        SchemaLimit::Locks,
        SchemaLimit::OpenPins,
        SchemaLimit::Xattrs,
        SchemaLimit::LeaseDurationTicks,
        SchemaLimit::LeaseOperationHistory,
        SchemaLimit::ChangeHistoryCommits,
    ]
}

/// Every limit, in the order in which limits are checked.
pub fn every_schema_limit() -> (result: Vec<SchemaLimit>)
    ensures
        result@ == schema_limit_order(),
{
    let result = vec![
        SchemaLimit::EntryNameBytes,
        SchemaLimit::XattrNameBytes,
        SchemaLimit::XattrValueBytes,
        SchemaLimit::PrincipalBytes,
        SchemaLimit::GroupBytes,
        SchemaLimit::SymlinkBytes,
        SchemaLimit::MutationResultBytes,
        SchemaLimit::ReadQueries,
        SchemaLimit::DirectoryAncestorDepth,
        SchemaLimit::ScanItems,
        SchemaLimit::ScanBytes,
        SchemaLimit::Preconditions,
        SchemaLimit::Changes,
        SchemaLimit::ChangeKeys,
        SchemaLimit::TransactionBytes,
        SchemaLimit::Locks,
        SchemaLimit::OpenPins,
        SchemaLimit::Xattrs,
        SchemaLimit::LeaseDurationTicks,
        SchemaLimit::LeaseOperationHistory,
        SchemaLimit::ChangeHistoryCommits,
    ];
    assert(result@ =~= schema_limit_order());
    result
}

/// The first limit from an index on that exceeds its maximum.
pub open spec fn first_exceeded(
    order: Seq<SchemaLimit>,
    actual: StateLimitValues,
    maximum: StateLimitValues,
    from: int,
) -> Option<SchemaLimit>
    decreases order.len() - from,
{
    if 0 <= from < order.len() {
        if limit_value(actual, order[from]) > limit_value(maximum, order[from]) {
            Some(order[from])
        } else {
            first_exceeded(order, actual, maximum, from + 1)
        }
    } else {
        None
    }
}

/// Finds the first limit that exceeds its maximum.
pub fn find_exceeded(order: &Vec<SchemaLimit>, actual: StateLimitValues, maximum: StateLimitValues) -> (result:
    Option<SchemaLimit>)
    ensures
        result == first_exceeded(order@, actual, maximum, 0),
{
    let mut index: usize = 0;
    while index < order.len()
        invariant
            index <= order@.len(),
            first_exceeded(order@, actual, maximum, 0) == first_exceeded(
                order@,
                actual,
                maximum,
                index as int,
            ),
        decreases order@.len() - index,
    {
        let limit = order[index];
        if value_of_limit(actual, limit) > value_of_limit(maximum, limit) {
            return Some(limit);
        }
        index = index + 1;
    }
    None
}

/// The schema maximum that limits exceed.
pub open spec fn schema_failure(limits: StateLimits) -> Option<PostgresConfigError> {
    match first_exceeded(schema_limit_order(), limits.values, limits::schema_values(), 0) {
        Some(limit) => Some(
            PostgresConfigError::StateLimitExceedsSchema {
                limit,
                actual: limit_value(limits.values, limit),
                maximum: limit_value(limits::schema_values(), limit),
            },
        ),
        None => None,
    }
}

/// Checks every limit against the schema.
pub fn validate_schema_limits(limits: StateLimits) -> (result: Result<(), PostgresConfigError>)
    ensures
        result == limits::checked(schema_failure(limits)),
{
    let actual = limits.values();
    let maximum = schema_limit_values();
    match find_exceeded(&every_schema_limit(), actual, maximum) {
        Some(limit) => Err(
            PostgresConfigError::StateLimitExceedsSchema {
                limit,
                actual: value_of_limit(actual, limit),
                maximum: value_of_limit(maximum, limit),
            },
        ),
        None => Ok(()),
    }
}

/// Limits that pass exceed the schema in nothing.
pub proof fn law_every_limit_is_checked(limits: StateLimits, limit: SchemaLimit)
    requires
        schema_failure(limits) is None,
    ensures
        limit_value(limits.values, limit) <= limit_value(limits::schema_values(), limit),
{
    let order = schema_limit_order();
    let index = choose|i: int| 0 <= i < order.len() && order[i] == limit;
    lemma_every_limit_listed(limit);
    lemma_not_exceeded(order, limits.values, limits::schema_values(), 0, index);
}

proof fn lemma_every_limit_listed(limit: SchemaLimit)
    ensures
        exists|i: int|
            0 <= i < schema_limit_order().len() && #[trigger] schema_limit_order()[i] == limit,
{
    let order = schema_limit_order();
    assert(order[0] == SchemaLimit::EntryNameBytes);
    assert(order[1] == SchemaLimit::XattrNameBytes);
    assert(order[2] == SchemaLimit::XattrValueBytes);
    assert(order[3] == SchemaLimit::PrincipalBytes);
    assert(order[4] == SchemaLimit::GroupBytes);
    assert(order[5] == SchemaLimit::SymlinkBytes);
    assert(order[6] == SchemaLimit::MutationResultBytes);
    assert(order[7] == SchemaLimit::ReadQueries);
    assert(order[8] == SchemaLimit::DirectoryAncestorDepth);
    assert(order[9] == SchemaLimit::ScanItems);
    assert(order[10] == SchemaLimit::ScanBytes);
    assert(order[11] == SchemaLimit::Preconditions);
    assert(order[12] == SchemaLimit::Changes);
    assert(order[13] == SchemaLimit::ChangeKeys);
    assert(order[14] == SchemaLimit::TransactionBytes);
    assert(order[15] == SchemaLimit::Locks);
    assert(order[16] == SchemaLimit::OpenPins);
    assert(order[17] == SchemaLimit::Xattrs);
    assert(order[18] == SchemaLimit::LeaseDurationTicks);
    assert(order[19] == SchemaLimit::LeaseOperationHistory);
    assert(order[20] == SchemaLimit::ChangeHistoryCommits);
}

proof fn lemma_not_exceeded(
    order: Seq<SchemaLimit>,
    actual: StateLimitValues,
    maximum: StateLimitValues,
    from: int,
    index: int,
)
    requires
        0 <= from <= index < order.len(),
        first_exceeded(order, actual, maximum, from) is None,
    ensures
        limit_value(actual, order[index]) <= limit_value(maximum, order[index]),
    decreases index - from,
{
    if from < index {
        lemma_not_exceeded(order, actual, maximum, from + 1, index);
    }
}

/// Values of a configuration.
pub struct ConfigView {
    /// State limits.
    pub limits: StateLimits,
    /// Statement timeout.
    pub statement_timeout: Duration,
    /// Lock timeout.
    pub lock_timeout: Duration,
    /// Retries after definitive aborts.
    pub definitive_abort_retries: u32,
    /// Attempts to learn what became of an ambiguous commit.
    pub ambiguous_commit_recovery_attempts: u32,
    /// Required durability.
    pub durability: PrimaryWalDurability,
}

/// Why values make no configuration.
pub open spec fn config_failure(config: ConfigView) -> Option<PostgresConfigError> {
    if timeout_failure("statement_timeout", config.statement_timeout) is Some {
        timeout_failure("statement_timeout", config.statement_timeout)
    } else if timeout_failure("lock_timeout", config.lock_timeout) is Some {
        timeout_failure("lock_timeout", config.lock_timeout)
    } else if duration_nanos(config.lock_timeout) > duration_nanos(config.statement_timeout) {
        Some(PostgresConfigError::LockTimeoutExceedsStatementTimeout)
    } else if config.definitive_abort_retries > MAX_DEFINITIVE_ABORT_RETRIES {
        Some(
            PostgresConfigError::RetryBoundTooLarge {
                field: "definitive_abort_retries",
                actual: config.definitive_abort_retries,
                maximum: MAX_DEFINITIVE_ABORT_RETRIES,
            },
        )
    } else if config.ambiguous_commit_recovery_attempts == 0 {
        Some(PostgresConfigError::Zero { field: "ambiguous_commit_recovery_attempts" })
    } else if config.ambiguous_commit_recovery_attempts > MAX_AMBIGUOUS_COMMIT_RECOVERY_ATTEMPTS {
        Some(
            PostgresConfigError::RetryBoundTooLarge {
                field: "ambiguous_commit_recovery_attempts",
                actual: config.ambiguous_commit_recovery_attempts,
                maximum: MAX_AMBIGUOUS_COMMIT_RECOVERY_ATTEMPTS,
            },
        )
    } else {
        schema_failure(config.limits)
    }
}

/// Validated behaviour and limits of one adapter.
#[derive(Clone, Copy, Debug, PartialEq, Eq)]
pub struct PostgresStateConfig {
    limits: StateLimits,
    statement_timeout: Duration,
    lock_timeout: Duration,
    definitive_abort_retries: u32,
    ambiguous_commit_recovery_attempts: u32,
    durability: PrimaryWalDurability,
}

impl View for PostgresStateConfig {
    type V = ConfigView;

    closed spec fn view(&self) -> ConfigView {
        ConfigView {
            limits: self.limits,
            statement_timeout: self.statement_timeout,
            lock_timeout: self.lock_timeout,
            definitive_abort_retries: self.definitive_abort_retries,
            ambiguous_commit_recovery_attempts: self.ambiguous_commit_recovery_attempts,
            durability: self.durability,
        }
    }
}

impl PostgresStateConfig {
    #[verifier::type_invariant]
    closed spec fn checked(self) -> bool {
        config_failure(self@) is None
    }

    /// A configuration with these values, if they are within every bound.
    pub fn new(
        limits: StateLimits,
        statement_timeout: Duration,
        lock_timeout: Duration,
        definitive_abort_retries: u32,
        ambiguous_commit_recovery_attempts: u32,
        durability: PrimaryWalDurability,
    ) -> (result: Result<Self, PostgresConfigError>)
        ensures
            ({
                let config = ConfigView {
                    limits,
                    statement_timeout,
                    lock_timeout,
                    definitive_abort_retries,
                    ambiguous_commit_recovery_attempts,
                    durability,
                };
                match result {
                    Ok(made) => config_failure(config) is None && made@ == config,
                    Err(error) => config_failure(config) == Some(error),
                }
            }),
    {
        validate_timeout("statement_timeout", statement_timeout)?;
        validate_timeout("lock_timeout", lock_timeout)?;
        if nanoseconds(lock_timeout) > nanoseconds(statement_timeout) {
            return Err(PostgresConfigError::LockTimeoutExceedsStatementTimeout);
        }
        if definitive_abort_retries > MAX_DEFINITIVE_ABORT_RETRIES {
            return Err(
                PostgresConfigError::RetryBoundTooLarge {
                    field: "definitive_abort_retries",
                    actual: definitive_abort_retries,
                    maximum: MAX_DEFINITIVE_ABORT_RETRIES,
                },
            );
        }
        if ambiguous_commit_recovery_attempts == 0 {
            return Err(PostgresConfigError::Zero { field: "ambiguous_commit_recovery_attempts" });
        }
        if ambiguous_commit_recovery_attempts > MAX_AMBIGUOUS_COMMIT_RECOVERY_ATTEMPTS {
            return Err(
                PostgresConfigError::RetryBoundTooLarge {
                    field: "ambiguous_commit_recovery_attempts",
                    actual: ambiguous_commit_recovery_attempts,
                    maximum: MAX_AMBIGUOUS_COMMIT_RECOVERY_ATTEMPTS,
                },
            );
        }
        validate_schema_limits(limits)?;
        Ok(
            PostgresStateConfig {
                limits,
                statement_timeout,
                lock_timeout,
                definitive_abort_retries,
                ambiguous_commit_recovery_attempts,
                durability,
            },
        )
    }

    /// The state limits.
    pub fn limits(self) -> (result: StateLimits)
        ensures
            result == self@.limits,
            schema_failure(result) is None,
    {
        proof {
            use_type_invariant(&self);
        }
        self.limits
    }

    /// The statement timeout of every transaction.
    pub fn statement_timeout(self) -> (result: Duration)
        ensures
            result == self@.statement_timeout,
            1 <= duration_millis(result) <= MAX_TIMEOUT_MILLIS,
    {
        proof {
            use_type_invariant(&self);
        }
        self.statement_timeout
    }

    /// The lock timeout of every transaction.
    pub fn lock_timeout(self) -> (result: Duration)
        ensures
            result == self@.lock_timeout,
            1 <= duration_millis(result) <= MAX_TIMEOUT_MILLIS,
            duration_nanos(result) <= duration_nanos(self@.statement_timeout),
    {
        proof {
            use_type_invariant(&self);
        }
        self.lock_timeout
    }

    /// The most retries after definitive aborts.
    pub fn definitive_abort_retries(self) -> (result: u32)
        ensures
            result == self@.definitive_abort_retries,
            result <= MAX_DEFINITIVE_ABORT_RETRIES,
    {
        proof {
            use_type_invariant(&self);
        }
        self.definitive_abort_retries
    }

    /// The most attempts to learn what became of an ambiguous commit.
    pub fn ambiguous_commit_recovery_attempts(self) -> (result: u32)
        ensures
            result == self@.ambiguous_commit_recovery_attempts,
            1 <= result <= MAX_AMBIGUOUS_COMMIT_RECOVERY_ATTEMPTS,
    {
        proof {
            use_type_invariant(&self);
        }
        self.ambiguous_commit_recovery_attempts
    }

    /// The required durability.
    pub fn durability(self) -> (result: PrimaryWalDurability)
        ensures
            result == self@.durability,
    {
        self.durability
    }
}

impl Default for PostgresStateConfig {
    /// The widest limits, half a minute per statement, five seconds per lock,
    /// and eight tries of either kind.
    fn default() -> (result: Self)
        ensures
            result@.limits.values == limits::schema_values(),
            duration_nanos(result@.statement_timeout) == 30_000_000_000,
            duration_nanos(result@.lock_timeout) == 5_000_000_000,
            result@.definitive_abort_retries == 8,
            result@.ambiguous_commit_recovery_attempts == 8,
            result@.durability == PrimaryWalDurability::Required,
    {
        let limits = StateLimits::default();
        proof {
            lemma_within(schema_limit_order(), limits.values, 0);
        }
        PostgresStateConfig {
            limits,
            statement_timeout: seconds(30),
            lock_timeout: seconds(5),
            definitive_abort_retries: 8,
            ambiguous_commit_recovery_attempts: 8,
            durability: PrimaryWalDurability::Required,
        }
    }
}

proof fn lemma_within(order: Seq<SchemaLimit>, values: StateLimitValues, from: int)
    requires
        0 <= from <= order.len(),
    ensures
        first_exceeded(order, values, values, from) is None,
    decreases order.len() - from,
{
    if from < order.len() {
        lemma_within(order, values, from + 1);
    }
}

} // verus!
