//! Classification of PostgreSQL error codes, without reading message text.
use vstd::prelude::*;

use crate::text;
use crate::text::{starts_with, str_eq};

verus! {

/// Phase in which PostgreSQL reported an error.
#[derive(Clone, Copy, Debug, PartialEq, Eq, Structural)]
pub enum SqlOperationPhase {
    /// Acquiring a pooled connection.
    AcquireConnection,
    /// Starting or configuring a transaction.
    BeginTransaction,
    /// Executing a statement before the transaction completes.
    ExecuteStatement,
    /// Decoding an authoritative row.
    DecodeRow,
    /// Sending or awaiting `COMMIT`.
    Commit,
    /// Sending or awaiting `ROLLBACK`.
    Rollback,
}

/// An abort that permits a bounded retry of the identical operation.
#[derive(Clone, Copy, Debug, PartialEq, Eq, Structural)]
pub enum DefinitiveAbort {
    /// Code `40001`.
    SerializationFailure,
    /// Code `40P01`.
    DeadlockDetected,
}

/// Required response to a recognized constraint violation.
#[derive(Clone, Copy, Debug, PartialEq, Eq, Structural)]
pub enum ConstraintAction {
    /// Roll back and resolve the operation through its durable replay ledger.
    ResolveLedger,
    /// Roll back and evaluate the race again from authoritative state.
    RecheckSemanticState,
    /// Treat the failure as a broken adapter or schema invariant.
    InvariantFailure,
}

/// One exact constraint name that the schema owns.
#[derive(Clone, Copy, Debug, PartialEq, Eq)]
pub struct KnownConstraintViolation<T = &'static str> {
    /// Name without the schema's prefix.
    pub name: T,
    /// Recovery action.
    pub action: ConstraintAction,
}

impl KnownConstraintViolation<&'static str> {
    /// The exact, locale-independent constraint name.
    pub fn name(self) -> (result: &'static str)
        ensures
            result == self.name,
    {
        self.name
    }

    /// The recovery action of the constraint.
    pub fn action(self) -> (result: ConstraintAction)
        ensures
            result == self.action,
    {
        self.action
    }
}

/// Actionable classification of a database error.
#[derive(Clone, Copy, Debug, PartialEq, Eq)]
pub enum SqlFailureClass<T = &'static str> {
    /// Retry the exact same bounded transaction after a definitive abort.
    RetryIdentical(DefinitiveAbort),
    /// A statement or lock deadline passed.
    Timeout,
    /// The connection or transaction was routed read-only.
    ReadOnly,
    /// PostgreSQL is unavailable, but no commit was in flight.
    Unavailable,
    /// `COMMIT` may have executed; only exact durable replay resolves it.
    AmbiguousCommit,
    /// PostgreSQL rejected an exact, recognized schema constraint.
    KnownConstraint(KnownConstraintViolation<T>),
    /// Persisted state or a PostgreSQL structure is corrupt.
    Corruption,
    /// Not a documented semantic or retry outcome.
    Internal,
}

impl View for SqlFailureClass<&'static str> {
    type V = SqlFailureClass<Seq<char>>;

    open spec fn view(&self) -> SqlFailureClass<Seq<char>> {
        match self {
            SqlFailureClass::RetryIdentical(abort) => SqlFailureClass::RetryIdentical(*abort),
            SqlFailureClass::Timeout => SqlFailureClass::Timeout,
            SqlFailureClass::ReadOnly => SqlFailureClass::ReadOnly,
            SqlFailureClass::Unavailable => SqlFailureClass::Unavailable,
            SqlFailureClass::AmbiguousCommit => SqlFailureClass::AmbiguousCommit,
            SqlFailureClass::KnownConstraint(violation) => SqlFailureClass::KnownConstraint(
                KnownConstraintViolation { name: violation.name@, action: violation.action },
            ),
            SqlFailureClass::Corruption => SqlFailureClass::Corruption,
            SqlFailureClass::Internal => SqlFailureClass::Internal,
        }
    }
}

/// Prefix of every name that the schema owns.
pub const NAME_PREFIX: &'static str = "w9pt_fs_state_";

/// Unique constraints that a replay ledger resolves.
pub const UNIQUE_LEDGER: [&'static str; 2] = [
    "mutation_results_pkey",
    "writer_lease_operations_pkey",
];

/// Unique constraints that a semantic race breaks.
pub const UNIQUE_SEMANTIC: [&'static str; 14] = [
    "authority_heads_pkey",
    "filesystem_records_pkey",
    "inodes_pkey",
    "inodes_qid_path_unique",
    "directory_entries_pkey",
    "directory_entries_cookie_unique",
    "opens_pkey",
    "opens_inode_identity_unique",
    "open_pins_pkey",
    "orphans_pkey",
    "locks_pkey",
    "xattrs_pkey",
    "xattr_staging_pkey",
    "writer_fences_pkey",
];

/// Unique constraints that only a broken invariant breaks.
pub const UNIQUE_INVARIANT: [&'static str; 3] = [
    "schema_migrations_pkey",
    "change_commits_pkey",
    "change_keys_pkey",
];

/// Foreign-key constraints.
pub const FOREIGN_KEY_CONSTRAINTS: [&'static str; 13] = [
    "filesystem_records_root_inode_fk",
    "inodes_directory_parent_fk",
    "directory_entries_parent_fk",
    "directory_entries_child_fk",
    "opens_inode_fk",
    "open_pins_inode_fk",
    "open_pins_open_inode_fk",
    "orphans_inode_fk",
    "locks_inode_fk",
    "locks_owner_open_fk",
    "xattrs_inode_fk",
    "xattr_staging_inode_fk",
    "change_keys_commit_fk",
];

/// Check constraints.
pub const CHECK_CONSTRAINTS: [&'static str; 140] = [
    "schema_migrations_version_positive",
    "schema_migrations_checksum_width",
    "authority_heads_filesystem_id_width",
    "authority_heads_current_revision_range",
    "authority_heads_oldest_revision_range",
    "authority_heads_retention_order",
    "filesystem_records_filesystem_id_width",
    "filesystem_records_root_inode_id_width",
    "filesystem_records_state_revision_range",
    "filesystem_records_record_revision_range",
    "filesystem_records_revision_match",
    "filesystem_records_next_qid_path_range",
    "filesystem_records_next_cookie_range",
    "filesystem_records_policy_generation_range",
    "inodes_filesystem_id_width",
    "inodes_inode_id_width",
    "inodes_qid_path_range",
    "inodes_record_revision_range",
    "inodes_mode_range",
    "inodes_owner_bounds",
    "inodes_group_bounds",
    "inodes_timestamp_nanoseconds_range",
    "inodes_logical_size_range",
    "inodes_link_count_range",
    "inodes_generation_range",
    "inodes_kind_tag",
    "inodes_owner_no_nul",
    "inodes_group_no_nul",
    "inodes_content_file_id_width",
    "inodes_data_generation_range",
    "inodes_content_generation_range",
    "inodes_content_logical_size_range",
    "inodes_content_manifest_key_bounds",
    "inodes_content_manifest_digest_width",
    "inodes_content_storage_method_tag",
    "inodes_directory_generation_range",
    "inodes_directory_parent_id_width",
    "inodes_directory_parent_shape",
    "inodes_symlink_target_bounds",
    "inodes_device_number_range",
    "inodes_content_fields_all_or_none",
    "inodes_regular_content_consistency",
    "inodes_kind_specific_shape",
    "directory_entries_filesystem_id_width",
    "directory_entries_parent_id_width",
    "directory_entries_child_id_width",
    "directory_entries_name_bounds",
    "directory_entries_name_forbidden",
    "directory_entries_cookie_range",
    "directory_entries_record_revision_range",
    "opens_filesystem_id_width",
    "opens_open_id_width",
    "opens_inode_id_width",
    "opens_client_incarnation_width",
    "opens_access_tag",
    "opens_inode_generation_range",
    "opens_record_revision_range",
    "open_pins_filesystem_id_width",
    "open_pins_inode_id_width",
    "open_pins_open_id_width",
    "open_pins_record_revision_range",
    "orphans_filesystem_id_width",
    "orphans_inode_id_width",
    "orphans_open_pin_count_range",
    "orphans_orphaned_revision_range",
    "orphans_record_revision_range",
    "locks_filesystem_id_width",
    "locks_inode_id_width",
    "locks_lock_id_width",
    "locks_owner_client_width",
    "locks_owner_open_width",
    "locks_range_start_range",
    "locks_range_end_range",
    "locks_range_nonempty",
    "locks_kind_tag",
    "locks_generation_range",
    "locks_record_revision_range",
    "xattrs_filesystem_id_width",
    "xattrs_inode_id_width",
    "xattrs_name_bounds",
    "xattrs_name_no_nul",
    "xattrs_value_bound",
    "xattrs_record_revision_range",
    "xattr_staging_filesystem_id_width",
    "xattr_staging_staging_id_width",
    "xattr_staging_inode_id_width",
    "xattr_staging_name_bounds",
    "xattr_staging_name_no_nul",
    "xattr_staging_expected_size_range",
    "xattr_staging_bytes_bound",
    "xattr_staging_progress_bound",
    "xattr_staging_record_revision_range",
    "mutation_results_filesystem_id_width",
    "mutation_results_mutation_id_width",
    "mutation_results_fingerprint_width",
    "mutation_results_client_incarnation_width",
    "mutation_results_writer_scope_width",
    "mutation_results_writer_incarnation_width",
    "mutation_results_fencing_token_range",
    "mutation_results_result_kind_range",
    "mutation_results_result_format_range",
    "mutation_results_result_bytes_bound",
    "mutation_results_committed_revision_range",
    "mutation_results_retention_range",
    "mutation_results_record_revision_range",
    "mutation_results_revision_match",
    "writer_fences_filesystem_id_width",
    "writer_fences_scope_id_width",
    "writer_fences_token_range",
    "writer_fences_active_fields_all_or_none",
    "writer_fences_active_holder_width",
    "writer_fences_active_lease_width",
    "writer_fences_active_deadline_range",
    "writer_fences_active_revision_range",
    "writer_lease_operations_filesystem_id_width",
    "writer_lease_operations_operation_id_width",
    "writer_lease_operations_kind_tag",
    "writer_lease_operations_fingerprint_width",
    "writer_lease_operations_outcome_tag",
    "writer_lease_operations_grant_all_or_none",
    "writer_lease_operations_grant_shape",
    "writer_lease_operations_scope_width",
    "writer_lease_operations_holder_width",
    "writer_lease_operations_lease_id_width",
    "writer_lease_operations_deadline_range",
    "writer_lease_operations_token_range",
    "change_commits_filesystem_id_width",
    "change_commits_revision_range",
    "change_commits_origin_kind_tag",
    "change_commits_origin_id_width",
    "change_commits_key_count_range",
    "change_keys_filesystem_id_width",
    "change_keys_revision_range",
    "change_keys_ordinal_range",
    "change_keys_family_tag",
    "change_keys_component_a_width",
    "change_keys_component_b_bound",
    "change_keys_component_shape",
    "change_keys_component_b_shape",
    "change_keys_name_shape",
];

/// A prefixed name is in a list of names.
pub open spec fn listed(names: Seq<&'static str>, prefixed: Seq<char>) -> bool {
    exists|i: int| 0 <= i < names.len() && prefixed == NAME_PREFIX@ + (#[trigger] names[i])@
}

/// The violation of a listed constraint.
pub open spec fn known_constraint(prefixed: Seq<char>, action: ConstraintAction) -> SqlFailureClass<
    Seq<char>,
> {
    SqlFailureClass::KnownConstraint(
        KnownConstraintViolation { name: prefixed.skip(NAME_PREFIX@.len() as int), action },
    )
}

/// Kind of an integrity constraint.
#[derive(Clone, Copy, Debug, PartialEq, Eq, Structural)]
pub enum ConstraintKind {
    /// Uniqueness or a primary key.
    Unique,
    /// A foreign key.
    ForeignKey,
    /// A check.
    Check,
}

/// Class of a violated constraint of some kind: known only under its exact
/// name and kind.
pub open spec fn constraint_class(
    constraint: Option<Seq<char>>,
    kind: ConstraintKind,
) -> SqlFailureClass<Seq<char>> {
    match constraint {
        None => SqlFailureClass::Internal,
        Some(name) => match kind {
            ConstraintKind::Unique => if listed(UNIQUE_LEDGER@, name) {
                known_constraint(name, ConstraintAction::ResolveLedger)
            } else if listed(UNIQUE_SEMANTIC@, name) {
                known_constraint(name, ConstraintAction::RecheckSemanticState)
            } else if listed(UNIQUE_INVARIANT@, name) {
                known_constraint(name, ConstraintAction::InvariantFailure)
            } else {
                SqlFailureClass::Internal
            },
            ConstraintKind::ForeignKey => if listed(FOREIGN_KEY_CONSTRAINTS@, name) {
                known_constraint(name, ConstraintAction::InvariantFailure)
            } else {
                SqlFailureClass::Internal
            },
            ConstraintKind::Check => if listed(CHECK_CONSTRAINTS@, name) {
                known_constraint(name, ConstraintAction::InvariantFailure)
            } else {
                SqlFailureClass::Internal
            },
        },
    }
}

/// A code that says that PostgreSQL is not available.
pub open spec fn availability_code(code: Seq<char>) -> bool {
    ||| vstd::utf8::encode_utf8(code).len() == 5 && text::has_prefix(code, "08"@)
    ||| code == "57P01"@ || code == "57P02"@ || code == "57P03"@ || code == "57P04"@ || code
        == "57P05"@
}

/// Class of an error code in a phase.
pub open spec fn sqlstate_class(
    phase: SqlOperationPhase,
    code: Seq<char>,
    constraint: Option<Seq<char>>,
) -> SqlFailureClass<Seq<char>> {
    let committing = phase == SqlOperationPhase::Commit;
    if code == "40001"@ {
        SqlFailureClass::RetryIdentical(DefinitiveAbort::SerializationFailure)
    } else if code == "40P01"@ {
        SqlFailureClass::RetryIdentical(DefinitiveAbort::DeadlockDetected)
    } else if code == "23505"@ {
        constraint_class(constraint, ConstraintKind::Unique)
    } else if code == "23503"@ {
        constraint_class(constraint, ConstraintKind::ForeignKey)
    } else if code == "23514"@ {
        constraint_class(constraint, ConstraintKind::Check)
    } else if code == "22003"@ || code == "22P02"@ {
        if phase == SqlOperationPhase::DecodeRow {
            SqlFailureClass::Corruption
        } else {
            SqlFailureClass::Internal
        }
    } else if code == "25006"@ {
        SqlFailureClass::ReadOnly
    } else if code == "55P03"@ || code == "57014"@ {
        if committing {
            SqlFailureClass::AmbiguousCommit
        } else {
            SqlFailureClass::Timeout
        }
    } else if code == "XX001"@ || code == "XX002"@ {
        SqlFailureClass::Corruption
    } else if availability_code(code) {
        if committing {
            SqlFailureClass::AmbiguousCommit
        } else {
            SqlFailureClass::Unavailable
        }
    } else if text::has_prefix(code, "23"@) {
        SqlFailureClass::Internal
    } else if committing {
        SqlFailureClass::AmbiguousCommit
    } else {
        SqlFailureClass::Internal
    }
}

/// The characters of an optional slice.
pub open spec fn optional_str(value: Option<&str>) -> Option<Seq<char>> {
    match value {
        Some(value) => Some(value@),
        None => None,
    }
}

fn find_listed(names: &[&'static str], prefixed: &str) -> (result: Option<&'static str>)
    ensures
        match result {
            Some(name) => listed(names@, prefixed@) && name@ == prefixed@.skip(
                NAME_PREFIX@.len() as int,
            ),
            None => !listed(names@, prefixed@),
        },
{
    let mut index: usize = 0;
    while index < names.len()
        invariant
            index <= names@.len(),
            forall|i: int|
                0 <= i < index ==> prefixed@ != NAME_PREFIX@ + (#[trigger] names@[i])@,
        decreases names@.len() - index,
    {
        let name = names[index];
        let candidate = String::from_str(NAME_PREFIX).concat(name);
        if str_eq(candidate.as_str(), prefixed) {
            assert(prefixed@ == NAME_PREFIX@ + names@[index as int]@);
            assert(name@ =~= prefixed@.skip(NAME_PREFIX@.len() as int));
            return Some(name);
        }
        index = index + 1;
    }
    None
}

fn known(found: Option<&'static str>, action: ConstraintAction) -> (result: Option<SqlFailureClass>)
    ensures
        match found {
            Some(name) => result is Some && result->0@ == (SqlFailureClass::KnownConstraint(
                KnownConstraintViolation { name: name@, action },
            )),
            None => result is None,
        },
{
    match found {
        Some(name) => Some(
            SqlFailureClass::KnownConstraint(KnownConstraintViolation { name, action }),
        ),
        None => None,
    }
}

/// Recognizes a violated constraint by its exact name and kind.
pub fn classify_constraint(constraint: Option<&str>, kind: ConstraintKind) -> (result:
    SqlFailureClass)
    ensures
        result@ == constraint_class(optional_str(constraint), kind),
{
    let name = match constraint {
        Some(name) => name,
        None => {
            return SqlFailureClass::Internal;
        },
    };
    let class = match kind {
        ConstraintKind::Unique => {
            let ledger = known(
                find_listed(&UNIQUE_LEDGER, name),
                ConstraintAction::ResolveLedger,
            );
            if ledger.is_some() {
                ledger
            } else {
                let semantic = known(
                    find_listed(&UNIQUE_SEMANTIC, name),
                    ConstraintAction::RecheckSemanticState,
                );
                if semantic.is_some() {
                    semantic
                } else {
                    known(
                        find_listed(&UNIQUE_INVARIANT, name),
                        ConstraintAction::InvariantFailure,
                    )
                }
            }
        },
        ConstraintKind::ForeignKey => known(
            find_listed(&FOREIGN_KEY_CONSTRAINTS, name),
            ConstraintAction::InvariantFailure,
        ),
        ConstraintKind::Check => known(
            find_listed(&CHECK_CONSTRAINTS, name),
            ConstraintAction::InvariantFailure,
        ),
    };
    match class {
        Some(class) => class,
        None => SqlFailureClass::Internal,
    }
}

/// Whether a code says that PostgreSQL is not available.
pub fn is_availability_code(sqlstate: &str) -> (result: bool)
    ensures
        result == availability_code(sqlstate@),
{
    (sqlstate.as_bytes().len() == 5 && starts_with(sqlstate, "08")) || str_eq(sqlstate, "57P01")
        || str_eq(sqlstate, "57P02") || str_eq(sqlstate, "57P03") || str_eq(sqlstate, "57P04")
        || str_eq(sqlstate, "57P05")
}

/// Classifies one error code and optional constraint name.
///
/// The classifier reads no message text. Constraint handling is an exact list,
/// and an error while `COMMIT` is in flight is ambiguous unless its code
/// establishes a definitive abort.
pub fn classify_sqlstate(
    phase: SqlOperationPhase,
    sqlstate: &str,
    constraint: Option<&str>,
) -> (result: SqlFailureClass)
    ensures
        result@ == sqlstate_class(phase, sqlstate@, optional_str(constraint)),
{
    let committing = phase == SqlOperationPhase::Commit;
    if str_eq(sqlstate, "40001") {
        SqlFailureClass::RetryIdentical(DefinitiveAbort::SerializationFailure)
    } else if str_eq(sqlstate, "40P01") {
        SqlFailureClass::RetryIdentical(DefinitiveAbort::DeadlockDetected)
    } else if str_eq(sqlstate, "23505") {
        classify_constraint(constraint, ConstraintKind::Unique)
    } else if str_eq(sqlstate, "23503") {
        classify_constraint(constraint, ConstraintKind::ForeignKey)
    } else if str_eq(sqlstate, "23514") {
        classify_constraint(constraint, ConstraintKind::Check)
    } else if str_eq(sqlstate, "22003") || str_eq(sqlstate, "22P02") {
        if phase == SqlOperationPhase::DecodeRow {
            SqlFailureClass::Corruption
        } else {
            SqlFailureClass::Internal
        }
    } else if str_eq(sqlstate, "25006") {
        SqlFailureClass::ReadOnly
    } else if str_eq(sqlstate, "55P03") || str_eq(sqlstate, "57014") {
        if committing {
            SqlFailureClass::AmbiguousCommit
        } else {
            SqlFailureClass::Timeout
        }
    } else if str_eq(sqlstate, "XX001") || str_eq(sqlstate, "XX002") {
        SqlFailureClass::Corruption
    } else if is_availability_code(sqlstate) {
        if committing {
            SqlFailureClass::AmbiguousCommit
        } else {
            SqlFailureClass::Unavailable
        }
    } else if starts_with(sqlstate, "23") {
        SqlFailureClass::Internal
    } else if committing {
        SqlFailureClass::AmbiguousCommit
    } else {
        SqlFailureClass::Internal
    }
}

/// Outside of a commit no code leaves the outcome open.
pub proof fn law_only_commits_are_ambiguous(
    phase: SqlOperationPhase,
    code: Seq<char>,
    constraint: Option<Seq<char>>,
)
    requires
        phase != SqlOperationPhase::Commit,
    ensures
        !(sqlstate_class(phase, code, constraint) is AmbiguousCommit),
{
}

/// A definitive abort is retried identically in every phase.
pub proof fn law_definitive_aborts_are_phase_independent(
    phase: SqlOperationPhase,
    other: SqlOperationPhase,
    code: Seq<char>,
    constraint: Option<Seq<char>>,
)
    ensures
        sqlstate_class(phase, code, constraint) is RetryIdentical ==> sqlstate_class(
            other,
            code,
            constraint,
        ) == sqlstate_class(phase, code, constraint),
{
}

} // verus!
