//! Validation of a route, its durability, schema and privileges at open.
use vstd::prelude::*;

use sea_orm::DbErr;

use crate::config;
use crate::config::{
    every_schema_limit, value_of_limit, PostgresConfigError, PostgresStateConfig, PrimaryWalDurability,
    SchemaLimit,
};
use crate::failure::failure_text;
use crate::limits;
use crate::limits::{schema_limit_values, StateLimitValues, StateLimits};
use crate::message;
use crate::message::signed_text;
use crate::migration;
use crate::migration::{
    ledger_drift, ledger_statement, AppliedMigration, MigrationDrift, MigrationError,
    PRODUCTION_SCHEMA,
};
use crate::numeric;
use crate::numeric::encode_u64;
use crate::schema::TABLE_NAMES;
use crate::statement;
use crate::statement::{query, PostgresQuery, SqlValue, StatementView, ValueView};
use crate::text::{copy_text, str_eq};

verus! {

/// Oldest supported server.
pub const MINIMUM_POSTGRES_MAJOR: i64 = 15;

/// Newest supported server.
pub const MAXIMUM_POSTGRES_MAJOR: i64 = 18;

/// Text that reads the server and its route.
pub const ROUTE_SQL: &'static str =
    "SELECT current_setting('server_version_num')::bigint AS server_version_number, pg_catalog.pg_is_in_recovery() AS in_recovery, current_setting('default_transaction_read_only')::boolean AS default_read_only, current_setting('fsync')::boolean AS fsync, current_setting('full_page_writes')::boolean AS full_page_writes";

/// Text that reads the settings of the validating transaction.
pub const VALIDATION_SETTINGS_SQL: &'static str =
    "SELECT current_setting('transaction_isolation') AS isolation, current_setting('transaction_read_only')::boolean AS read_only";

/// Text that makes the validating transaction wait for its log.
pub const ENFORCE_SYNCHRONOUS_COMMIT_SQL: &'static str = "SET LOCAL synchronous_commit = 'on'";

/// Text that reads how the validating transaction waits for its log.
pub const SYNCHRONOUS_COMMIT_SQL: &'static str = "SELECT current_setting('synchronous_commit')";

/// Text that asks whether the schema is there.
pub const SCHEMA_EXISTS_SQL: &'static str =
    "SELECT EXISTS (SELECT 1 FROM pg_catalog.pg_namespace WHERE nspname = $1)";

/// Text that reads the catalog of the tables.
pub const RELATION_CATALOG_SQL: &'static str =
    "SELECT class.relname AS relation_name, class.relkind::text AS relation_kind, class.relpersistence::text AS persistence FROM pg_catalog.pg_class AS class INNER JOIN pg_catalog.pg_namespace AS namespace ON namespace.oid = class.relnamespace WHERE namespace.nspname = $1 AND class.relname = ANY($2::text[])";

/// Text that asks whether the role may use the schema.
pub const SCHEMA_USAGE_SQL: &'static str =
    "SELECT pg_catalog.has_schema_privilege($1, 'USAGE')";

/// Text that finds the first privilege that the role lacks.
pub const MISSING_PRIVILEGE_SQL: &'static str =
    "SELECT required.relation_name, required.privilege_name FROM unnest($1::text[], $2::text[]) AS required(relation_name, privilege_name) WHERE NOT pg_catalog.has_table_privilege(pg_catalog.format('%I.%I', $3::text, required.relation_name), required.privilege_name) ORDER BY required.relation_name, required.privilege_name LIMIT 1";

/// Privilege on a table.
#[derive(Clone, Copy, Debug, PartialEq, Eq, PartialOrd, Ord, Structural)]
pub enum RuntimePrivilege {
    /// Read rows.
    Select,
    /// Add rows.
    Insert,
    /// Change rows.
    Update,
    /// Remove rows.
    Delete,
}

/// The name of a privilege.
pub open spec fn privilege_name(privilege: RuntimePrivilege) -> &'static str {
    match privilege {
        RuntimePrivilege::Select => "SELECT",
        RuntimePrivilege::Insert => "INSERT",
        RuntimePrivilege::Update => "UPDATE",
        RuntimePrivilege::Delete => "DELETE",
    }
}

impl RuntimePrivilege {
    /// The name of the privilege.
    pub fn as_sql(self) -> (result: &'static str)
        ensures
            result == privilege_name(self),
    {
        match self {
            RuntimePrivilege::Select => "SELECT",
            RuntimePrivilege::Insert => "INSERT",
            RuntimePrivilege::Update => "UPDATE",
            RuntimePrivilege::Delete => "DELETE",
        }
    }
}

/// A privilege on a table that the runtime needs.
#[derive(Clone, Copy, Debug, PartialEq, Eq, PartialOrd, Ord)]
pub struct PrivilegeRequirement {
    /// Table.
    pub relation: &'static str,
    /// Privilege.
    pub privilege: RuntimePrivilege,
}

/// A privilege on a table.
pub fn privilege(relation: &'static str, kind: RuntimePrivilege) -> (result: PrivilegeRequirement)
    ensures
        result == (PrivilegeRequirement { relation, privilege: kind }),
{
    PrivilegeRequirement { relation, privilege: kind }
}

/// Tables of the needed privileges.
pub const PRIVILEGE_RELATIONS: [&'static str; 53] = [
    "w9pt_fs_state_schema_migrations",
    "w9pt_fs_state_authority_heads",
    "w9pt_fs_state_authority_heads",
    "w9pt_fs_state_authority_heads",
    "w9pt_fs_state_filesystem_records",
    "w9pt_fs_state_filesystem_records",
    "w9pt_fs_state_filesystem_records",
    "w9pt_fs_state_filesystem_records",
    "w9pt_fs_state_inodes",
    "w9pt_fs_state_inodes",
    "w9pt_fs_state_inodes",
    "w9pt_fs_state_inodes",
    "w9pt_fs_state_directory_entries",
    "w9pt_fs_state_directory_entries",
    "w9pt_fs_state_directory_entries",
    "w9pt_fs_state_directory_entries",
    "w9pt_fs_state_opens",
    "w9pt_fs_state_opens",
    "w9pt_fs_state_opens",
    "w9pt_fs_state_opens",
    "w9pt_fs_state_open_pins",
    "w9pt_fs_state_open_pins",
    "w9pt_fs_state_open_pins",
    "w9pt_fs_state_open_pins",
    "w9pt_fs_state_orphans",
    "w9pt_fs_state_orphans",
    "w9pt_fs_state_orphans",
    "w9pt_fs_state_orphans",
    "w9pt_fs_state_locks",
    "w9pt_fs_state_locks",
    "w9pt_fs_state_locks",
    "w9pt_fs_state_locks",
    "w9pt_fs_state_xattrs",
    "w9pt_fs_state_xattrs",
    "w9pt_fs_state_xattrs",
    "w9pt_fs_state_xattrs",
    "w9pt_fs_state_xattr_staging",
    "w9pt_fs_state_xattr_staging",
    "w9pt_fs_state_xattr_staging",
    "w9pt_fs_state_xattr_staging",
    "w9pt_fs_state_mutation_results",
    "w9pt_fs_state_mutation_results",
    "w9pt_fs_state_writer_fences",
    "w9pt_fs_state_writer_fences",
    "w9pt_fs_state_writer_fences",
    "w9pt_fs_state_writer_lease_operations",
    "w9pt_fs_state_writer_lease_operations",
    "w9pt_fs_state_change_commits",
    "w9pt_fs_state_change_commits",
    "w9pt_fs_state_change_commits",
    "w9pt_fs_state_change_keys",
    "w9pt_fs_state_change_keys",
    "w9pt_fs_state_change_keys",
];

/// The needed privileges on those tables.
pub const PRIVILEGE_KINDS: [RuntimePrivilege; 53] = [
    RuntimePrivilege::Select,
    RuntimePrivilege::Select,
    RuntimePrivilege::Insert,
    RuntimePrivilege::Update,
    RuntimePrivilege::Select,
    RuntimePrivilege::Insert,
    RuntimePrivilege::Update,
    RuntimePrivilege::Delete,
    RuntimePrivilege::Select,
    RuntimePrivilege::Insert,
    RuntimePrivilege::Update,
    RuntimePrivilege::Delete,
    RuntimePrivilege::Select,
    RuntimePrivilege::Insert,
    RuntimePrivilege::Update,
    RuntimePrivilege::Delete,
    RuntimePrivilege::Select,
    RuntimePrivilege::Insert,
    RuntimePrivilege::Update,
    RuntimePrivilege::Delete,
    RuntimePrivilege::Select,
    RuntimePrivilege::Insert,
    RuntimePrivilege::Update,
    RuntimePrivilege::Delete,
    RuntimePrivilege::Select,
    RuntimePrivilege::Insert,
    RuntimePrivilege::Update,
    RuntimePrivilege::Delete,
    RuntimePrivilege::Select,
    RuntimePrivilege::Insert,
    RuntimePrivilege::Update,
    RuntimePrivilege::Delete,
    RuntimePrivilege::Select,
    RuntimePrivilege::Insert,
    RuntimePrivilege::Update,
    RuntimePrivilege::Delete,
    RuntimePrivilege::Select,
    RuntimePrivilege::Insert,
    RuntimePrivilege::Update,
    RuntimePrivilege::Delete,
    RuntimePrivilege::Select,
    RuntimePrivilege::Insert,
    RuntimePrivilege::Select,
    RuntimePrivilege::Insert,
    RuntimePrivilege::Update,
    RuntimePrivilege::Select,
    RuntimePrivilege::Insert,
    RuntimePrivilege::Select,
    RuntimePrivilege::Insert,
    RuntimePrivilege::Delete,
    RuntimePrivilege::Select,
    RuntimePrivilege::Insert,
    RuntimePrivilege::Delete,
];

/// Every privilege that the runtime needs, and no more.
pub fn runtime_privileges() -> (result: Vec<PrivilegeRequirement>)
    ensures
        result@.len() == PRIVILEGE_RELATIONS@.len(),
        forall|i: int|
            0 <= i < result@.len() ==> #[trigger] result@[i] == (PrivilegeRequirement {
                relation: PRIVILEGE_RELATIONS@[i],
                privilege: PRIVILEGE_KINDS@[i],
            }),
{
    let mut result: Vec<PrivilegeRequirement> = Vec::new();
    let mut index: usize = 0;
    while index < 53
        invariant
            index <= 53,
            result@.len() == index,
            forall|i: int|
                0 <= i < index ==> #[trigger] result@[i] == (PrivilegeRequirement {
                    relation: PRIVILEGE_RELATIONS@[i],
                    privilege: PRIVILEGE_KINDS@[i],
                }),
        decreases 53 - index,
    {
        result.push(privilege(PRIVILEGE_RELATIONS[index], PRIVILEGE_KINDS[index]));
        index = index + 1;
    }
    result
}

/// Why a connection cannot back the store.
#[derive(Debug)]
pub enum OpenValidationError {
    /// A query failed.
    Database {
        /// What was being done.
        step: &'static str,
        /// The failure.
        source: DbErr,
    },
    /// The server is too old or too new.
    UnsupportedServerVersion {
        /// The server's version number.
        version_number: i64,
        /// The major version in it.
        major: i64,
    },
    /// The connection leads to a standby.
    RecoveryRoute,
    /// Transactions only read by default.
    DefaultReadOnlyRoute,
    /// A transaction that was to write only reads.
    TransactionReadOnly,
    /// The transaction is not serializable.
    UnexpectedTransactionIsolation {
        /// Its isolation level.
        actual: String,
    },
    /// A setting that durability rests on is off.
    DurabilitySettingDisabled {
        /// The setting.
        setting: &'static str,
    },
    /// The transaction cannot be made to wait for its log.
    CannotEnforceSynchronousCommit {
        /// The failure.
        source: DbErr,
    },
    /// The transaction does not wait for its log.
    UnexpectedSynchronousCommit {
        /// What it does instead.
        actual: String,
    },
    /// A limit exceeds the schema.
    ConfiguredLimitExceedsSchema {
        /// The limit.
        limit: SchemaLimit,
        /// Its value.
        actual: u64,
        /// The schema maximum.
        maximum: u64,
    },
    /// The schema is not there.
    MissingSchema,
    /// A table is not there.
    MissingTable {
        /// The table.
        table: &'static str,
    },
    /// A table is no ordinary table.
    UnexpectedRelationKind {
        /// The table.
        table: &'static str,
        /// What it is.
        actual: String,
    },
    /// A table is temporary or not logged.
    NonPermanentTable {
        /// The table.
        table: &'static str,
        /// Its persistence.
        actual: String,
    },
    /// The role may not use the schema.
    MissingSchemaUsage,
    /// The role lacks a privilege.
    MissingTablePrivilege {
        /// The table.
        table: String,
        /// The privilege.
        privilege: String,
    },
    /// The embedded migrations bound no read of the ledger.
    InvalidEmbeddedMigrationSet {
        /// What is wrong with them.
        detail: &'static str,
    },
    /// A version is missing or out of order in the ledger.
    MigrationVersionMismatch {
        /// Version that must stand there.
        expected: i32,
        /// Version that stands there; none if the migration is pending.
        actual: Option<i32>,
    },
    /// The ledger holds a version newer than every embedded one.
    UnknownMigrationVersion {
        /// The version.
        version: i32,
    },
    /// The sources of an applied migration differ.
    MigrationChecksumMismatch {
        /// Version of the migration.
        version: i32,
    },
}

/// What a drifted ledger fails with.
pub open spec fn drift_error(drift: MigrationDrift) -> OpenValidationError {
    match drift {
        MigrationDrift::VersionMismatch { expected, actual } => {
            OpenValidationError::MigrationVersionMismatch { expected, actual }
        },
        MigrationDrift::UnknownVersion { version } => {
            OpenValidationError::UnknownMigrationVersion { version }
        },
        MigrationDrift::ChecksumMismatch { version } => {
            OpenValidationError::MigrationChecksumMismatch { version }
        },
    }
}

fn drifted(drift: MigrationDrift) -> (result: OpenValidationError)
    ensures
        result == drift_error(drift),
{
    match drift {
        MigrationDrift::VersionMismatch { expected, actual } => {
            OpenValidationError::MigrationVersionMismatch { expected, actual }
        },
        MigrationDrift::UnknownVersion { version } => {
            OpenValidationError::UnknownMigrationVersion { version }
        },
        MigrationDrift::ChecksumMismatch { version } => {
            OpenValidationError::MigrationChecksumMismatch { version }
        },
    }
}

/// Text of a failed validation, given that of the database failure in it.
pub open spec fn validation_text(error: OpenValidationError, failed: Seq<char>) -> Seq<char> {
    match error {
        OpenValidationError::Database { step, .. } => {
            "database error while "@ + step@ + ": "@ + failed
        },
        OpenValidationError::UnsupportedServerVersion { version_number, major } => {
            "unsupported PostgreSQL server_version_num "@ + message::signed_decimal(
                version_number as int,
            ) + " (major "@ + message::signed_decimal(major as int)
                + "); expected major 15 through 18"@
        },
        OpenValidationError::RecoveryRoute => {
            "connection is routed to a PostgreSQL server in recovery"@
        },
        OpenValidationError::DefaultReadOnlyRoute => {
            "connection defaults transactions to a write-disabled read-only route"@
        },
        OpenValidationError::TransactionReadOnly => {
            "serializable read-write validation transaction remained read-only"@
        },
        OpenValidationError::UnexpectedTransactionIsolation { actual } => {
            "validation transaction isolation is "@ + actual@ + ", expected serializable"@
        },
        OpenValidationError::DurabilitySettingDisabled { setting } => {
            "required PostgreSQL durability setting "@ + setting@ + " is off"@
        },
        OpenValidationError::CannotEnforceSynchronousCommit { .. } => {
            "cannot enforce transaction-local synchronous_commit=on: "@ + failed
        },
        OpenValidationError::UnexpectedSynchronousCommit { actual } => {
            "transaction-local synchronous_commit is "@ + actual@ + ", expected on"@
        },
        OpenValidationError::ConfiguredLimitExceedsSchema { limit, actual, maximum } => {
            "configured state limit "@ + message::limit_name(limit)@ + " value "@
                + numeric::decimal(actual as nat) + " exceeds schema maximum "@ + numeric::decimal(
                maximum as nat,
            )
        },
        OpenValidationError::MissingSchema => {
            "required schema public is absent; run explicit migrations"@
        },
        OpenValidationError::MissingTable { table } => {
            "required table public."@ + table@ + " is absent; run explicit migrations"@
        },
        OpenValidationError::UnexpectedRelationKind { table, actual } => {
            "required relation public."@ + table@ + " has relkind "@ + actual@
                + ", expected ordinary table"@
        },
        OpenValidationError::NonPermanentTable { table, actual } => {
            "required relation public."@ + table@ + " has relpersistence "@ + actual@
                + ", expected permanent logged table"@
        },
        OpenValidationError::MissingSchemaUsage => {
            "runtime role lacks USAGE on schema public"@
        },
        OpenValidationError::MissingTablePrivilege { table, privilege } => {
            "runtime role lacks "@ + privilege@ + " on public."@ + table@
        },
        OpenValidationError::InvalidEmbeddedMigrationSet { detail } => {
            "invalid embedded migration set: "@ + detail@
        },
        OpenValidationError::MigrationVersionMismatch { expected, actual: Some(actual) } => {
            "migration ledger expected version "@ + message::signed_decimal(expected as int)
                + ", found "@ + message::signed_decimal(actual as int)
        },
        OpenValidationError::MigrationVersionMismatch { expected, actual: None } => {
            "migration version "@ + message::signed_decimal(expected as int)
                + " is pending; run explicit migrations"@
        },
        OpenValidationError::UnknownMigrationVersion { version } => {
            "database contains unknown migration version "@ + message::signed_decimal(
                version as int,
            )
        },
        OpenValidationError::MigrationChecksumMismatch { version } => {
            "checksum differs for migration version "@ + message::signed_decimal(version as int)
        },
    }
}

impl OpenValidationError {
    /// The text of the failure.
    pub fn text(&self) -> (result: String)
        ensures
            exists|failed: Seq<char>| result@ == #[trigger] validation_text(*self, failed),
    {
        match self {
            OpenValidationError::Database { source, .. } => self.text_with(
                failure_text(source).as_str(),
            ),
            OpenValidationError::CannotEnforceSynchronousCommit { source } => self.text_with(
                failure_text(source).as_str(),
            ),
            _ => self.text_with(""),
        }
    }

    /// The text of the failure, given that of the database failure in it.
    pub fn text_with(&self, failed: &str) -> (result: String)
        ensures
            result@ == validation_text(*self, failed@),
    {
        match self {
            OpenValidationError::Database { step, .. } => copy_text(
                "database error while ",
            ).concat(step).concat(": ").concat(failed),
            OpenValidationError::UnsupportedServerVersion { version_number, major } => copy_text(
                "unsupported PostgreSQL server_version_num ",
            ).concat(signed_text(*version_number).as_str()).concat(" (major ").concat(
                signed_text(*major).as_str(),
            ).concat("); expected major 15 through 18"),
            OpenValidationError::RecoveryRoute => copy_text(
                "connection is routed to a PostgreSQL server in recovery",
            ),
            OpenValidationError::DefaultReadOnlyRoute => copy_text(
                "connection defaults transactions to a write-disabled read-only route",
            ),
            OpenValidationError::TransactionReadOnly => copy_text(
                "serializable read-write validation transaction remained read-only",
            ),
            OpenValidationError::UnexpectedTransactionIsolation { actual } => copy_text(
                "validation transaction isolation is ",
            ).concat(actual.as_str()).concat(", expected serializable"),
            OpenValidationError::DurabilitySettingDisabled { setting } => copy_text(
                "required PostgreSQL durability setting ",
            ).concat(setting).concat(" is off"),
            OpenValidationError::CannotEnforceSynchronousCommit { .. } => copy_text(
                "cannot enforce transaction-local synchronous_commit=on: ",
            ).concat(failed),
            OpenValidationError::UnexpectedSynchronousCommit { actual } => copy_text(
                "transaction-local synchronous_commit is ",
            ).concat(actual.as_str()).concat(", expected on"),
            OpenValidationError::ConfiguredLimitExceedsSchema { limit, actual, maximum } => {
                copy_text("configured state limit ").concat(limit.name()).concat(
                    " value ",
                ).concat(encode_u64(*actual).as_str()).concat(" exceeds schema maximum ").concat(
                    encode_u64(*maximum).as_str(),
                )
            },
            OpenValidationError::MissingSchema => copy_text(
                "required schema public is absent; run explicit migrations",
            ),
            OpenValidationError::MissingTable { table } => copy_text(
                "required table public.",
            ).concat(table).concat(" is absent; run explicit migrations"),
            OpenValidationError::UnexpectedRelationKind { table, actual } => copy_text(
                "required relation public.",
            ).concat(table).concat(" has relkind ").concat(actual.as_str()).concat(
                ", expected ordinary table",
            ),
            OpenValidationError::NonPermanentTable { table, actual } => copy_text(
                "required relation public.",
            ).concat(table).concat(" has relpersistence ").concat(actual.as_str()).concat(
                ", expected permanent logged table",
            ),
            OpenValidationError::MissingSchemaUsage => copy_text(
                "runtime role lacks USAGE on schema public",
            ),
            OpenValidationError::MissingTablePrivilege { table, privilege } => copy_text(
                "runtime role lacks ",
            ).concat(privilege.as_str()).concat(" on public.").concat(table.as_str()),
            OpenValidationError::InvalidEmbeddedMigrationSet { detail } => copy_text(
                "invalid embedded migration set: ",
            ).concat(detail),
            OpenValidationError::MigrationVersionMismatch { expected, actual: Some(actual) } => {
                copy_text("migration ledger expected version ").concat(
                    signed_text(*expected as i64).as_str(),
                ).concat(", found ").concat(signed_text(*actual as i64).as_str())
            },
            OpenValidationError::MigrationVersionMismatch { expected, actual: None } => {
                copy_text("migration version ").concat(
                    signed_text(*expected as i64).as_str(),
                ).concat(" is pending; run explicit migrations")
            },
            OpenValidationError::UnknownMigrationVersion { version } => copy_text(
                "database contains unknown migration version ",
            ).concat(signed_text(*version as i64).as_str()),
            OpenValidationError::MigrationChecksumMismatch { version } => copy_text(
                "checksum differs for migration version ",
            ).concat(signed_text(*version as i64).as_str()),
        }
    }
}

/// Why a store could not be opened.
#[derive(Debug)]
pub enum PostgresOpenError {
    /// The limits make no production contract.
    Contract(String),
    /// The database failed.
    Database(DbErr),
    /// The route, its durability, schema or privileges do not suffice.
    Validation(String),
    /// The configuration is invalid.
    Configuration(String),
    /// A migration run failed, or one is due.
    Migration(MigrationError),
}

/// The failure of the ledger tells of a drift.
pub open spec fn is_drift(error: OpenValidationError) -> bool {
    error is MigrationVersionMismatch || error is UnknownMigrationVersion
        || error is MigrationChecksumMismatch
}

/// A failed validation is reported: database failures as such, a drift as one
/// of migration, and the rest by their texts.
pub open spec fn is_reported(error: OpenValidationError, reported: PostgresOpenError) -> bool {
    match error {
        OpenValidationError::Database { source, .. } => reported == PostgresOpenError::Database(
            source,
        ),
        OpenValidationError::CannotEnforceSynchronousCommit { source } => reported
            == PostgresOpenError::Database(source),
        other => if is_drift(other) {
            reported matches PostgresOpenError::Migration(MigrationError::Drift(detail)) && detail@
                == validation_text(other, Seq::empty())
        } else {
            reported matches PostgresOpenError::Validation(detail) && detail@ == validation_text(
                other,
                Seq::empty(),
            )
        },
    }
}

impl From<OpenValidationError> for PostgresOpenError {
    fn from(error: OpenValidationError) -> (result: Self)
        ensures
            is_reported(error, result),
    {
        match error {
            OpenValidationError::Database { source, .. } => PostgresOpenError::Database(source),
            OpenValidationError::CannotEnforceSynchronousCommit { source } => {
                PostgresOpenError::Database(source)
            },
            OpenValidationError::MigrationVersionMismatch { .. } => {
                PostgresOpenError::Migration(MigrationError::Drift(error.text()))
            },
            OpenValidationError::UnknownMigrationVersion { .. } => {
                PostgresOpenError::Migration(MigrationError::Drift(error.text()))
            },
            OpenValidationError::MigrationChecksumMismatch { .. } => {
                PostgresOpenError::Migration(MigrationError::Drift(error.text()))
            },
            other => PostgresOpenError::Validation(other.text()),
        }
    }
}

impl vstd::std_specs::convert::FromSpecImpl<OpenValidationError> for PostgresOpenError {
    open spec fn obeys_from_spec() -> bool {
        false
    }

    open spec fn from_spec(error: OpenValidationError) -> Self {
        arbitrary()
    }
}

impl From<PostgresConfigError> for PostgresOpenError {
    fn from(error: PostgresConfigError) -> (result: Self)
        ensures
            result matches PostgresOpenError::Configuration(detail) && detail@
                == message::config_text(error),
    {
        PostgresOpenError::Configuration(error.text())
    }
}

impl vstd::std_specs::convert::FromSpecImpl<PostgresConfigError> for PostgresOpenError {
    open spec fn obeys_from_spec() -> bool {
        false
    }

    open spec fn from_spec(error: PostgresConfigError) -> Self {
        arbitrary()
    }
}

/// Text of a failure to open, given that of the database failure in it.
pub open spec fn open_text(error: PostgresOpenError, failed: Seq<char>) -> Seq<char> {
    match error {
        PostgresOpenError::Contract(detail) => "invalid state-store contract: "@ + detail@,
        PostgresOpenError::Database(_) => "PostgreSQL database failure: "@ + failed,
        PostgresOpenError::Validation(detail) => "PostgreSQL validation failed: "@ + detail@,
        PostgresOpenError::Configuration(detail) => "PostgreSQL configuration failed: "@ + detail@,
        PostgresOpenError::Migration(error) => {
            "PostgreSQL migration failed: "@ + migration::migration_text(error, failed)
        },
    }
}

impl PostgresOpenError {
    /// The text of the failure.
    pub fn text(&self) -> (result: String)
        ensures
            exists|failed: Seq<char>| result@ == #[trigger] open_text(*self, failed),
    {
        match self {
            PostgresOpenError::Database(error) => self.text_with(failure_text(error).as_str()),
            PostgresOpenError::Migration(MigrationError::Database(error)) => self.text_with(
                failure_text(error).as_str(),
            ),
            _ => self.text_with(""),
        }
    }

    /// The text of the failure, given that of the database failure in it.
    pub fn text_with(&self, failed: &str) -> (result: String)
        ensures
            result@ == open_text(*self, failed@),
    {
        match self {
            PostgresOpenError::Contract(detail) => copy_text(
                "invalid state-store contract: ",
            ).concat(detail.as_str()),
            PostgresOpenError::Database(_) => copy_text(
                "PostgreSQL database failure: ",
            ).concat(failed),
            PostgresOpenError::Validation(detail) => copy_text(
                "PostgreSQL validation failed: ",
            ).concat(detail.as_str()),
            PostgresOpenError::Configuration(detail) => copy_text(
                "PostgreSQL configuration failed: ",
            ).concat(detail.as_str()),
            PostgresOpenError::Migration(error) => copy_text(
                "PostgreSQL migration failed: ",
            ).concat(error.text_with(failed).as_str()),
        }
    }
}

/// The major version in a version number, cut off towards zero.
pub open spec fn major_version(version_number: i64) -> int {
    if version_number >= 0 {
        version_number as int / 10_000
    } else {
        -((-(version_number as int)) / 10_000)
    }
}

/// Checks that the server is neither too old nor too new.
pub fn validate_server_version(version_number: i64) -> (result: Result<(), OpenValidationError>)
    ensures
        match result {
            Ok(()) => MINIMUM_POSTGRES_MAJOR <= major_version(version_number)
                <= MAXIMUM_POSTGRES_MAJOR,
            Err(error) => {
                &&& !(MINIMUM_POSTGRES_MAJOR <= major_version(version_number)
                    <= MAXIMUM_POSTGRES_MAJOR)
                &&& error == (OpenValidationError::UnsupportedServerVersion {
                    version_number,
                    major: major_version(version_number) as i64,
                })
            },
        },
{
    let major: i64 = if version_number >= 0 {
        ((version_number as u64) / 10_000) as i64
    } else {
        let magnitude: u64 = (-(version_number as i128)) as u64;
        let quotient: u64 = magnitude / 10_000;
        -(quotient as i64)
    };
    if major < MINIMUM_POSTGRES_MAJOR || major > MAXIMUM_POSTGRES_MAJOR {
        return Err(OpenValidationError::UnsupportedServerVersion { version_number, major });
    }
    Ok(())
}

/// Checks that the connection leads to a writable primary.
pub fn validate_route(in_recovery: bool, default_read_only: bool) -> (result: Result<
    (),
    OpenValidationError,
>)
    ensures
        result == (if in_recovery {
            Err::<(), OpenValidationError>(OpenValidationError::RecoveryRoute)
        } else if default_read_only {
            Err(OpenValidationError::DefaultReadOnlyRoute)
        } else {
            Ok(())
        }),
{
    if in_recovery {
        return Err(OpenValidationError::RecoveryRoute);
    }
    if default_read_only {
        return Err(OpenValidationError::DefaultReadOnlyRoute);
    }
    Ok(())
}

/// Checks the settings that durability rests on.
pub fn validate_durability_settings(fsync: bool, full_page_writes: bool) -> (result: Result<
    (),
    OpenValidationError,
>)
    ensures
        result == (if !fsync {
            Err::<(), OpenValidationError>(
                OpenValidationError::DurabilitySettingDisabled { setting: "fsync" },
            )
        } else if !full_page_writes {
            Err(OpenValidationError::DurabilitySettingDisabled { setting: "full_page_writes" })
        } else {
            Ok(())
        }),
{
    if !fsync {
        return Err(OpenValidationError::DurabilitySettingDisabled { setting: "fsync" });
    }
    if !full_page_writes {
        return Err(OpenValidationError::DurabilitySettingDisabled { setting: "full_page_writes" });
    }
    Ok(())
}

/// Every limit with its configured value and its maximum, in order.
pub open spec fn pairs_of(actual: StateLimitValues, maximum: StateLimitValues) -> Seq<
    (SchemaLimit, u64, u64),
> {
    config::schema_limit_order().map_values(
        |limit: SchemaLimit|
            (limit, config::limit_value(actual, limit), config::limit_value(maximum, limit)),
    )
}

/// Every limit with its configured value and its maximum, in order.
pub fn limit_pairs(actual: StateLimitValues, maximum: StateLimitValues) -> (result: Vec<
    (SchemaLimit, u64, u64),
>)
    ensures
        result@ == pairs_of(actual, maximum),
{
    let order = every_schema_limit();
    let mut pairs: Vec<(SchemaLimit, u64, u64)> = Vec::new();
    let mut index: usize = 0;
    while index < order.len()
        invariant
            index <= order@.len(),
            order@ == config::schema_limit_order(),
            pairs@.len() == index,
            forall|i: int| 0 <= i < index ==> #[trigger] pairs@[i] == pairs_of(actual, maximum)[i],
        decreases order@.len() - index,
    {
        let limit = order[index];
        pairs.push((limit, value_of_limit(actual, limit), value_of_limit(maximum, limit)));
        index = index + 1;
    }
    assert(pairs@ =~= pairs_of(actual, maximum));
    pairs
}

/// The open-time failure of limits that exceed the schema.
pub open spec fn limits_failure(limits: StateLimits) -> Option<OpenValidationError> {
    match config::schema_failure(limits) {
        Some(PostgresConfigError::StateLimitExceedsSchema { limit, actual, maximum }) => Some(
            OpenValidationError::ConfiguredLimitExceedsSchema { limit, actual, maximum },
        ),
        _ => None,
    }
}

/// Checks every limit against the schema: limits pass exactly where a
/// configuration takes them, and the first that exceeds its maximum is named.
pub fn validate_configured_limits(limits: StateLimits) -> (result: Result<(), OpenValidationError>)
    ensures
        result is Ok <==> config::schema_failure(limits) is None,
        result == limits::checked(limits_failure(limits)),
{
    let actual = limits.values();
    let maximum = schema_limit_values();
    let pairs = limit_pairs(actual, maximum);
    let mut index: usize = 0;
    while index < pairs.len()
        invariant
            index <= pairs@.len(),
            actual == limits.values,
            maximum == limits::schema_values(),
            pairs@ == pairs_of(actual, maximum),
            config::first_exceeded(config::schema_limit_order(), actual, maximum, 0)
                == config::first_exceeded(
                config::schema_limit_order(),
                actual,
                maximum,
                index as int,
            ),
        decreases pairs@.len() - index,
    {
        let (limit, configured, bound) = pairs[index];
        if configured > bound {
            return Err(
                OpenValidationError::ConfiguredLimitExceedsSchema {
                    limit,
                    actual: configured,
                    maximum: bound,
                },
            );
        }
        index = index + 1;
    }
    Ok(())
}

/// Checks the settings of the validating transaction.
pub fn validate_transaction_settings(isolation: String, read_only: bool) -> (result: Result<
    (),
    OpenValidationError,
>)
    ensures
        result == (if isolation@ != "serializable"@ {
            Err::<(), OpenValidationError>(
                OpenValidationError::UnexpectedTransactionIsolation { actual: isolation },
            )
        } else if read_only {
            Err(OpenValidationError::TransactionReadOnly)
        } else {
            Ok(())
        }),
{
    if !str_eq(isolation.as_str(), "serializable") {
        return Err(OpenValidationError::UnexpectedTransactionIsolation { actual: isolation });
    }
    if read_only {
        return Err(OpenValidationError::TransactionReadOnly);
    }
    Ok(())
}

/// Checks that the validating transaction waits for its log.
pub fn validate_synchronous_commit(actual: String) -> (result: Result<(), OpenValidationError>)
    ensures
        result == (if actual@ != "on"@ {
            Err::<(), OpenValidationError>(
                OpenValidationError::UnexpectedSynchronousCommit { actual },
            )
        } else {
            Ok(())
        }),
{
    if !str_eq(actual.as_str(), "on") {
        return Err(OpenValidationError::UnexpectedSynchronousCommit { actual });
    }
    Ok(())
}

/// Catalog entry of a relation.
#[derive(Clone, Debug, PartialEq, Eq)]
pub struct RelationCatalogEntry {
    /// Name.
    pub name: String,
    /// Kind.
    pub kind: String,
    /// Persistence.
    pub persistence: String,
}

/// The last entry with a name among the first ones.
pub open spec fn catalog_index(
    relations: Seq<RelationCatalogEntry>,
    name: Seq<char>,
    count: int,
) -> Option<int>
    decreases count,
{
    if count <= 0 {
        None
    } else if relations[count - 1].name@ == name {
        Some(count - 1)
    } else {
        catalog_index(relations, name, count - 1)
    }
}

/// Why the catalog entry of a table does not suffice.
pub enum TableFailure {
    /// The table is not there.
    Missing,
    /// The table is no ordinary table.
    Kind(Seq<char>),
    /// The table is temporary or not logged.
    Persistence(Seq<char>),
}

/// Why a table does not suffice.
pub open spec fn table_failure(
    relations: Seq<RelationCatalogEntry>,
    name: Seq<char>,
) -> Option<TableFailure> {
    match catalog_index(relations, name, relations.len() as int) {
        None => Some(TableFailure::Missing),
        Some(index) => if relations[index].kind@ != "r"@ {
            Some(TableFailure::Kind(relations[index].kind@))
        } else if relations[index].persistence@ != "p"@ {
            Some(TableFailure::Persistence(relations[index].persistence@))
        } else {
            None
        },
    }
}

/// A failure is the one of a table.
pub open spec fn is_table_failure(
    error: OpenValidationError,
    table: &'static str,
    failure: TableFailure,
) -> bool {
    match failure {
        TableFailure::Missing => error == (OpenValidationError::MissingTable { table }),
        TableFailure::Kind(kind) => error matches OpenValidationError::UnexpectedRelationKind {
            table: found,
            actual,
        } && found == table && actual@ == kind,
        TableFailure::Persistence(persistence) => {
            error matches OpenValidationError::NonPermanentTable { table: found, actual } && found
                == table && actual@ == persistence
        },
    }
}

/// A failure is the one of the first table that does not suffice.
pub open spec fn is_catalog_failure(
    relations: Seq<RelationCatalogEntry>,
    error: OpenValidationError,
) -> bool {
    exists|i: int|
        {
            &&& 0 <= i < 16
            &&& forall|j: int|
                0 <= j < i ==> table_failure(relations, (#[trigger] TABLE_NAMES@[j])@) is None
            &&& table_failure(relations, (#[trigger] TABLE_NAMES@[i])@) is Some
            &&& is_table_failure(
                error,
                TABLE_NAMES@[i],
                table_failure(relations, TABLE_NAMES@[i]@)->0,
            )
        }
}

fn find_relation(relations: &Vec<RelationCatalogEntry>, name: &str) -> (result: Option<usize>)
    ensures
        match result {
            Some(index) => catalog_index(relations@, name@, relations@.len() as int) == Some(
                index as int,
            ) && index < relations@.len(),
            None => catalog_index(relations@, name@, relations@.len() as int) is None,
        },
{
    let mut count: usize = relations.len();
    while count > 0
        invariant
            count <= relations@.len(),
            catalog_index(relations@, name@, relations@.len() as int) == catalog_index(
                relations@,
                name@,
                count as int,
            ),
        decreases count,
    {
        if str_eq(relations[count - 1].name.as_str(), name) {
            return Some(count - 1);
        }
        count = count - 1;
    }
    None
}

fn validate_table(relations: &Vec<RelationCatalogEntry>, table: &'static str) -> (result: Result<
    (),
    OpenValidationError,
>)
    ensures
        match table_failure(relations@, table@) {
            None => result is Ok,
            Some(failure) => result is Err && is_table_failure(result->Err_0, table, failure),
        },
{
    match find_relation(relations, table) {
        None => Err(OpenValidationError::MissingTable { table }),
        Some(index) => {
            if !str_eq(relations[index].kind.as_str(), "r") {
                return Err(
                    OpenValidationError::UnexpectedRelationKind {
                        table,
                        actual: copy_text(relations[index].kind.as_str()),
                    },
                );
            }
            if !str_eq(relations[index].persistence.as_str(), "p") {
                return Err(
                    OpenValidationError::NonPermanentTable {
                        table,
                        actual: copy_text(relations[index].persistence.as_str()),
                    },
                );
            }
            Ok(())
        },
    }
}

/// Checks that every table is there, ordinary and logged; the first one that
/// is not decides.
pub fn validate_relation_catalog(relations: &Vec<RelationCatalogEntry>) -> (result: Result<
    (),
    OpenValidationError,
>)
    ensures
        match result {
            Ok(()) => tables_serve(relations@),
            Err(error) => is_catalog_failure(relations@, error),
        },
{
    let mut index: usize = 0;
    while index < 16
        invariant
            index <= 16,
            forall|i: int|
                0 <= i < index ==> table_failure(
                    relations@,
                    (#[trigger] TABLE_NAMES@[i])@,
                ) is None,
        decreases 16 - index,
    {
        let table = TABLE_NAMES[index];
        match validate_table(relations, table) {
            Ok(()) => {},
            Err(error) => {
                assert(table_failure(relations@, TABLE_NAMES@[index as int]@) is Some);
                return Err(error);
            },
        }
        index = index + 1;
    }
    Ok(())
}

/// How a ledger falls short of the embedded migrations.
pub open spec fn ledger_failure(applied: Seq<AppliedMigration>) -> Option<MigrationDrift> {
    match migration::first_drift(applied, 0) {
        Some(drift) => Some(drift),
        None => if applied.len() < migration::MIGRATION_COUNT {
            Some(
                MigrationDrift::VersionMismatch {
                    expected: (applied.len() + 1) as i32,
                    actual: None,
                },
            )
        } else {
            None
        },
    }
}

/// Checks that every embedded migration is applied, exactly and in order.
pub fn validate_applied_migrations(applied: &Vec<AppliedMigration>) -> (result: Result<
    (),
    OpenValidationError,
>)
    ensures
        result == (match ledger_failure(applied@) {
            Some(drift) => Err::<(), OpenValidationError>(drift_error(drift)),
            None => Ok(()),
        }),
{
    match ledger_drift(applied) {
        Some(drift) => {
            return Err(drifted(drift));
        },
        None => {},
    }
    if applied.len() < migration::MIGRATION_COUNT {
        return Err(
            OpenValidationError::MigrationVersionMismatch {
                expected: (applied.len() + 1) as i32,
                actual: None,
            },
        );
    }
    Ok(())
}

/// A ledger that passes holds the embedded migrations and nothing else.
pub proof fn law_validated_ledgers_are_complete(applied: Seq<AppliedMigration>)
    requires
        ledger_failure(applied) is None,
    ensures
        applied.len() == migration::MIGRATION_COUNT,
        applied[0].version == 1,
        applied[0].checksum@ == migration::initial_checksum(),
{
    migration::law_ledgers_are_exact_prefixes(applied);
}

/// A migration run completes a ledger: with what it records, the ledger passes.
pub proof fn law_migrated_ledgers_pass(
    applied: Seq<AppliedMigration>,
    recorded: Seq<AppliedMigration>,
)
    requires
        migration::first_drift(applied, 0) is None,
        migration::is_pending(applied, recorded),
    ensures
        ledger_failure(applied + recorded) is None,
{
    migration::law_ledgers_are_exact_prefixes(applied);
    let after = applied + recorded;
    assert(after.len() == migration::MIGRATION_COUNT);
    if applied.len() == 0 {
        assert(after[0] == recorded[0]);
    } else {
        assert(after[0] == applied[0]);
    }
    assert(migration::row_drift(after[0], 0) is None);
    assert(migration::first_drift(after, 1) is None);
}

/// What the route of a connection looks like.
#[derive(Clone, Copy, Debug, PartialEq, Eq, Structural)]
pub struct RouteFacts {
    /// The server's version number.
    pub version_number: i64,
    /// The server is a standby.
    pub in_recovery: bool,
    /// Transactions only read by default.
    pub default_read_only: bool,
    /// The server forces its writes out.
    pub fsync: bool,
    /// The server logs whole pages.
    pub full_page_writes: bool,
}

/// The server is neither too old nor too new.
pub open spec fn supported_version(version_number: i64) -> bool {
    MINIMUM_POSTGRES_MAJOR <= major_version(version_number) <= MAXIMUM_POSTGRES_MAJOR
}

/// Why a route does not serve: its version, then the route, then durability.
pub open spec fn route_failure(route: RouteFacts) -> Option<OpenValidationError> {
    if !supported_version(route.version_number) {
        Some(
            OpenValidationError::UnsupportedServerVersion {
                version_number: route.version_number,
                major: major_version(route.version_number) as i64,
            },
        )
    } else if route.in_recovery {
        Some(OpenValidationError::RecoveryRoute)
    } else if route.default_read_only {
        Some(OpenValidationError::DefaultReadOnlyRoute)
    } else if !route.fsync {
        Some(OpenValidationError::DurabilitySettingDisabled { setting: "fsync" })
    } else if !route.full_page_writes {
        Some(OpenValidationError::DurabilitySettingDisabled { setting: "full_page_writes" })
    } else {
        None
    }
}

/// Where a validation stands.
#[derive(Clone, Copy, Debug, PartialEq, Eq, Structural)]
pub enum OpenPhase {
    /// The server and its route are read.
    Route,
    /// The settings of the transaction are read.
    Settings,
    /// The transaction is made to wait for its log.
    Enforce,
    /// How the transaction waits for its log is read.
    SynchronousCommit,
    /// The schema is looked for.
    Schema,
    /// The catalog of the tables is read.
    Catalog,
    /// The use of the schema is looked for.
    Usage,
    /// A missing privilege is looked for.
    Privileges,
    /// The ledger is read.
    Ledger,
    /// Everything passed.
    Passed,
}

/// What a validation does in a phase.
pub open spec fn phase_step(phase: OpenPhase) -> &'static str {
    match phase {
        OpenPhase::Route => "reading server and route settings",
        OpenPhase::Settings => "reading validation transaction settings",
        OpenPhase::Enforce => "setting transaction-local synchronous_commit",
        OpenPhase::SynchronousCommit => "reading transaction-local synchronous_commit",
        OpenPhase::Schema => "checking production schema",
        OpenPhase::Catalog => "reading production table catalog",
        OpenPhase::Usage => "checking schema privileges",
        OpenPhase::Privileges => "checking runtime table privileges",
        OpenPhase::Ledger => "reading migration ledger",
        OpenPhase::Passed => "rolling back validation transaction",
    }
}

impl OpenPhase {
    /// What a validation does in the phase.
    pub fn step(self) -> (result: &'static str)
        ensures
            result == phase_step(self),
    {
        match self {
            OpenPhase::Route => "reading server and route settings",
            OpenPhase::Settings => "reading validation transaction settings",
            OpenPhase::Enforce => "setting transaction-local synchronous_commit",
            OpenPhase::SynchronousCommit => "reading transaction-local synchronous_commit",
            OpenPhase::Schema => "checking production schema",
            OpenPhase::Catalog => "reading production table catalog",
            OpenPhase::Usage => "checking schema privileges",
            OpenPhase::Privileges => "checking runtime table privileges",
            OpenPhase::Ledger => "reading migration ledger",
            OpenPhase::Passed => "rolling back validation transaction",
        }
    }
}

/// Names of the tables of the schema.
pub open spec fn table_texts() -> Seq<Seq<char>> {
    TABLE_NAMES@.map_values(|name: &'static str| name@)
}

/// Tables of the needed privileges.
pub open spec fn relation_texts() -> Seq<Seq<char>> {
    PRIVILEGE_RELATIONS@.map_values(|name: &'static str| name@)
}

/// Names of the needed privileges.
pub open spec fn privilege_texts() -> Seq<Seq<char>> {
    PRIVILEGE_KINDS@.map_values(|kind: RuntimePrivilege| privilege_name(kind)@)
}

/// The statement that reads the catalog of the tables.
pub open spec fn catalog_query() -> StatementView {
    statement::text_only(RELATION_CATALOG_SQL@).with(
        SqlValue::Text(Some(PRODUCTION_SCHEMA@)),
    ).with(SqlValue::Texts(table_texts()))
}

/// The statement that finds a missing privilege.
pub open spec fn privilege_query() -> StatementView {
    statement::text_only(MISSING_PRIVILEGE_SQL@).with(SqlValue::Texts(relation_texts())).with(
        SqlValue::Texts(privilege_texts()),
    ).with(SqlValue::Text(Some(PRODUCTION_SCHEMA@)))
}

fn catalog_statement() -> (result: PostgresQuery)
    ensures
        result@ == catalog_query(),
{
    let mut names: Vec<String> = Vec::new();
    let mut index: usize = 0;
    while index < 16
        invariant
            index <= 16,
            names@.len() == index,
            forall|i: int| 0 <= i < index ==> (#[trigger] names@[i])@ == TABLE_NAMES@[i]@,
        decreases 16 - index,
    {
        names.push(copy_text(TABLE_NAMES[index]));
        index = index + 1;
    }
    assert(statement::text_views(names@) =~= table_texts());
    query(RELATION_CATALOG_SQL).bind(schema_value()).bind(SqlValue::Texts(names))
}

fn privilege_statement() -> (result: PostgresQuery)
    ensures
        result@ == privilege_query(),
{
    let required = runtime_privileges();
    let mut relations: Vec<String> = Vec::new();
    let mut privileges: Vec<String> = Vec::new();
    let mut index: usize = 0;
    while index < required.len()
        invariant
            index <= required@.len(),
            required@.len() == PRIVILEGE_RELATIONS@.len(),
            forall|i: int|
                0 <= i < required@.len() ==> #[trigger] required@[i] == (PrivilegeRequirement {
                    relation: PRIVILEGE_RELATIONS@[i],
                    privilege: PRIVILEGE_KINDS@[i],
                }),
            relations@.len() == index,
            privileges@.len() == index,
            forall|i: int|
                0 <= i < index ==> (#[trigger] relations@[i])@ == PRIVILEGE_RELATIONS@[i]@,
            forall|i: int|
                0 <= i < index ==> (#[trigger] privileges@[i])@ == privilege_name(
                    PRIVILEGE_KINDS@[i],
                )@,
        decreases required@.len() - index,
    {
        relations.push(copy_text(required[index].relation));
        privileges.push(copy_text(required[index].privilege.as_sql()));
        index = index + 1;
    }
    assert(statement::text_views(relations@) =~= relation_texts());
    assert(statement::text_views(privileges@) =~= privilege_texts());
    query(MISSING_PRIVILEGE_SQL).bind(SqlValue::Texts(relations)).bind(
        SqlValue::Texts(privileges),
    ).bind(schema_value())
}

/// What a validation wants done next, in its one transaction.
#[derive(Clone, Debug)]
pub enum OpenAction {
    /// Run a statement and hand back what it finds.
    Fetch(PostgresQuery),
    /// Run a statement.
    Execute(PostgresQuery),
    /// Roll the transaction back.
    Rollback,
}

/// One validation of a connection.
pub struct OpenCheck {
    /// Where the validation stands.
    pub phase: OpenPhase,
    /// The route, once it is read.
    pub route: Option<RouteFacts>,
    /// The catalog, once it is read.
    pub relations: Vec<RelationCatalogEntry>,
    /// The ledger, once it is read.
    pub applied: Vec<AppliedMigration>,
}

/// Every table is there, ordinary and logged.
pub open spec fn tables_serve(relations: Seq<RelationCatalogEntry>) -> bool {
    forall|i: int|
        0 <= i < 16 ==> table_failure(relations, (#[trigger] TABLE_NAMES@[i])@) is None
}

impl OpenCheck {
    /// The validation is consistent: what it has passed holds.
    pub open spec fn well_formed(self) -> bool {
        &&& self.phase != OpenPhase::Route ==> self.route is Some && route_failure(
            self.route->0,
        ) is None
        &&& self.phase == OpenPhase::Usage || self.phase == OpenPhase::Privileges || self.phase
            == OpenPhase::Ledger || self.phase == OpenPhase::Passed ==> tables_serve(
            self.relations@,
        )
        &&& self.phase == OpenPhase::Passed ==> ledger_failure(self.applied@) is None
    }

    /// The validation goes on with what it has read so far.
    pub open spec fn goes_on(self, before: Self, phase: OpenPhase) -> bool {
        &&& self.well_formed()
        &&& self.phase == phase
        &&& self.route == before.route
        &&& self.relations == before.relations
        &&& self.applied == before.applied
    }

    /// The validation runs a statement.
    pub open spec fn fetches(
        result: Result<OpenAction, OpenValidationError>,
        statement: StatementView,
    ) -> bool {
        result matches Ok(OpenAction::Fetch(fetched)) && fetched@ == statement
    }

    /// Starts a validation, if the limits are within the schema.
    pub fn start(config: PostgresStateConfig) -> (result: Result<
        (Self, OpenAction),
        OpenValidationError,
    >)
        ensures
            result is Ok,
            result->Ok_0.0.well_formed(),
            result->Ok_0.0.phase == OpenPhase::Route,
            Self::fetches(Ok(result->Ok_0.1), statement::text_only(ROUTE_SQL@)),
    {
        let limits = config.limits();
        validate_configured_limits(limits)?;
        Ok(
            (
                OpenCheck {
                    phase: OpenPhase::Route,
                    route: None,
                    relations: Vec::new(),
                    applied: Vec::new(),
                },
                OpenAction::Fetch(query(ROUTE_SQL)),
            ),
        )
    }

    /// What a database failure in the current phase is reported as.
    pub fn failed(&self, source: DbErr) -> (result: OpenValidationError)
        ensures
            result == (if self.phase == OpenPhase::Enforce {
                OpenValidationError::CannotEnforceSynchronousCommit { source }
            } else {
                OpenValidationError::Database { step: phase_step(self.phase), source }
            }),
    {
        match self.phase {
            OpenPhase::Enforce => OpenValidationError::CannotEnforceSynchronousCommit { source },
            _ => OpenValidationError::Database { step: self.phase.step(), source },
        }
    }

    /// The validation reads its settings behind a route that serves.
    pub open spec fn after_route(
        self,
        after: Self,
        result: Result<OpenAction, OpenValidationError>,
        route: RouteFacts,
    ) -> bool {
        match route_failure(route) {
            Some(error) => result == Err::<OpenAction, OpenValidationError>(error),
            None => {
                &&& after.well_formed()
                &&& after.phase == OpenPhase::Settings
                &&& after.route == Some(route)
                &&& Self::fetches(result, statement::text_only(VALIDATION_SETTINGS_SQL@))
            },
        }
    }

    /// Takes the server and its route.
    pub fn route(&mut self, route: RouteFacts, durability: PrimaryWalDurability) -> (result: Result<
        OpenAction,
        OpenValidationError,
    >)
        requires
            old(self).well_formed(),
            old(self).phase == OpenPhase::Route,
        ensures
            old(self).after_route(*final(self), result, route),
    {
        validate_server_version(route.version_number)?;
        validate_route(route.in_recovery, route.default_read_only)?;
        match durability {
            PrimaryWalDurability::Required => {
                validate_durability_settings(route.fsync, route.full_page_writes)?;
            },
        }
        self.route = Some(route);
        self.phase = OpenPhase::Settings;
        Ok(OpenAction::Fetch(query(VALIDATION_SETTINGS_SQL)))
    }

    /// The validation goes on where its transaction is serializable and writes.
    pub open spec fn after_settings(
        self,
        after: Self,
        result: Result<OpenAction, OpenValidationError>,
        isolation: String,
        read_only: bool,
    ) -> bool {
        if isolation@ != "serializable"@ {
            result == Err::<OpenAction, OpenValidationError>(
                OpenValidationError::UnexpectedTransactionIsolation { actual: isolation },
            )
        } else if read_only {
            result == Err::<OpenAction, OpenValidationError>(
                OpenValidationError::TransactionReadOnly,
            )
        } else {
            &&& after.goes_on(self, OpenPhase::Enforce)
            &&& result matches Ok(OpenAction::Execute(executed)) && executed@
                == statement::text_only(ENFORCE_SYNCHRONOUS_COMMIT_SQL@)
        }
    }

    /// Takes the settings of the transaction.
    pub fn settings(&mut self, isolation: String, read_only: bool) -> (result: Result<
        OpenAction,
        OpenValidationError,
    >)
        requires
            old(self).well_formed(),
            old(self).phase == OpenPhase::Settings,
        ensures
            old(self).after_settings(*final(self), result, isolation, read_only),
    {
        validate_transaction_settings(isolation, read_only)?;
        self.phase = OpenPhase::Enforce;
        Ok(OpenAction::Execute(query(ENFORCE_SYNCHRONOUS_COMMIT_SQL)))
    }

    /// Goes on once the transaction was made to wait for its log.
    pub fn enforced(&mut self) -> (result: OpenAction)
        requires
            old(self).well_formed(),
            old(self).phase == OpenPhase::Enforce,
        ensures
            final(self).goes_on(*old(self), OpenPhase::SynchronousCommit),
            Self::fetches(Ok(result), statement::text_only(SYNCHRONOUS_COMMIT_SQL@)),
    {
        self.phase = OpenPhase::SynchronousCommit;
        OpenAction::Fetch(query(SYNCHRONOUS_COMMIT_SQL))
    }

    /// The validation goes on where its transaction waits for its log.
    pub open spec fn after_synchronous_commit(
        self,
        after: Self,
        result: Result<OpenAction, OpenValidationError>,
        actual: String,
    ) -> bool {
        if actual@ != "on"@ {
            result == Err::<OpenAction, OpenValidationError>(
                OpenValidationError::UnexpectedSynchronousCommit { actual },
            )
        } else {
            &&& after.goes_on(self, OpenPhase::Schema)
            &&& Self::fetches(
                result,
                statement::text_only(SCHEMA_EXISTS_SQL@).with(
                    SqlValue::Text(Some(PRODUCTION_SCHEMA@)),
                ),
            )
        }
    }

    /// Takes how the transaction waits for its log.
    pub fn synchronous_commit(&mut self, actual: String) -> (result: Result<
        OpenAction,
        OpenValidationError,
    >)
        requires
            old(self).well_formed(),
            old(self).phase == OpenPhase::SynchronousCommit,
        ensures
            old(self).after_synchronous_commit(*final(self), result, actual),
    {
        validate_synchronous_commit(actual)?;
        self.phase = OpenPhase::Schema;
        Ok(OpenAction::Fetch(query(SCHEMA_EXISTS_SQL).bind(schema_value())))
    }

    /// The validation reads the tables of a schema that is there.
    pub open spec fn after_schema(
        self,
        after: Self,
        result: Result<OpenAction, OpenValidationError>,
        exists_there: bool,
    ) -> bool {
        if exists_there {
            after.goes_on(self, OpenPhase::Catalog) && Self::fetches(
                result,
                catalog_query(),
            )
        } else {
            result == Err::<OpenAction, OpenValidationError>(OpenValidationError::MissingSchema)
        }
    }

    /// Takes whether the schema is there.
    pub fn schema(&mut self, exists_there: bool) -> (result: Result<
        OpenAction,
        OpenValidationError,
    >)
        requires
            old(self).well_formed(),
            old(self).phase == OpenPhase::Schema,
        ensures
            old(self).after_schema(*final(self), result, exists_there),
    {
        if !exists_there {
            return Err(OpenValidationError::MissingSchema);
        }
        self.phase = OpenPhase::Catalog;
        Ok(OpenAction::Fetch(catalog_statement()))
    }

    /// The validation goes on where every table suffices.
    pub open spec fn after_catalog(
        self,
        after: Self,
        result: Result<OpenAction, OpenValidationError>,
        relations: Vec<RelationCatalogEntry>,
    ) -> bool {
        match result {
            Ok(action) => {
                &&& tables_serve(relations@)
                &&& after.well_formed()
                &&& after.phase == OpenPhase::Usage
                &&& after.route == self.route
                &&& after.relations == relations
                &&& Self::fetches(
                    result,
                    statement::text_only(SCHEMA_USAGE_SQL@).with(
                        SqlValue::Text(Some(PRODUCTION_SCHEMA@)),
                    ),
                )
            },
            Err(error) => is_catalog_failure(relations@, error),
        }
    }

    /// Takes the catalog of the tables.
    pub fn catalog(&mut self, relations: Vec<RelationCatalogEntry>) -> (result: Result<
        OpenAction,
        OpenValidationError,
    >)
        requires
            old(self).well_formed(),
            old(self).phase == OpenPhase::Catalog,
        ensures
            old(self).after_catalog(*final(self), result, relations),
    {
        validate_relation_catalog(&relations)?;
        self.relations = relations;
        self.phase = OpenPhase::Usage;
        Ok(OpenAction::Fetch(query(SCHEMA_USAGE_SQL).bind(schema_value())))
    }

    /// The validation goes on where the schema may be used.
    pub open spec fn after_usage(
        self,
        after: Self,
        result: Result<OpenAction, OpenValidationError>,
        usage: bool,
    ) -> bool {
        if usage {
            after.goes_on(self, OpenPhase::Privileges) && Self::fetches(
                result,
                privilege_query(),
            )
        } else {
            result == Err::<OpenAction, OpenValidationError>(
                OpenValidationError::MissingSchemaUsage,
            )
        }
    }

    /// Takes whether the role may use the schema.
    pub fn usage(&mut self, usage: bool) -> (result: Result<OpenAction, OpenValidationError>)
        requires
            old(self).well_formed(),
            old(self).phase == OpenPhase::Usage,
        ensures
            old(self).after_usage(*final(self), result, usage),
    {
        if !usage {
            return Err(OpenValidationError::MissingSchemaUsage);
        }
        self.phase = OpenPhase::Privileges;
        Ok(OpenAction::Fetch(privilege_statement()))
    }

    /// The validation goes on where no privilege is missing.
    pub open spec fn after_privileges(
        self,
        after: Self,
        result: Result<OpenAction, OpenValidationError>,
        missing: Option<(String, String)>,
    ) -> bool {
        match missing {
            Some(pair) => result == Err::<OpenAction, OpenValidationError>(
                OpenValidationError::MissingTablePrivilege { table: pair.0, privilege: pair.1 },
            ),
            None => {
                &&& after.goes_on(self, OpenPhase::Ledger)
                &&& Self::fetches(result, migration::ledger_query())
            },
        }
    }

    /// Takes the first privilege that the role lacks, as table and privilege.
    pub fn privileges(&mut self, missing: Option<(String, String)>) -> (result: Result<
        OpenAction,
        OpenValidationError,
    >)
        requires
            old(self).well_formed(),
            old(self).phase == OpenPhase::Privileges,
        ensures
            old(self).after_privileges(*final(self), result, missing),
    {
        match missing {
            Some((table, privilege)) => {
                return Err(OpenValidationError::MissingTablePrivilege { table, privilege });
            },
            None => {},
        }
        match ledger_statement() {
            Ok(statement) => {
                self.phase = OpenPhase::Ledger;
                Ok(OpenAction::Fetch(statement))
            },
            Err(detail) => Err(OpenValidationError::InvalidEmbeddedMigrationSet { detail }),
        }
    }

    /// The validation passes where the ledger is complete.
    pub open spec fn after_ledger(
        self,
        after: Self,
        result: Result<OpenAction, OpenValidationError>,
        applied: Vec<AppliedMigration>,
    ) -> bool {
        match ledger_failure(applied@) {
            Some(drift) => result == Err::<OpenAction, OpenValidationError>(drift_error(drift)),
            None => {
                &&& result == Ok::<OpenAction, OpenValidationError>(OpenAction::Rollback)
                &&& after.well_formed()
                &&& after.phase == OpenPhase::Passed
                &&& after.route == self.route
                &&& after.relations == self.relations
                &&& after.applied == applied
            },
        }
    }

    /// Takes the ledger.
    pub fn ledger(&mut self, applied: Vec<AppliedMigration>) -> (result: Result<
        OpenAction,
        OpenValidationError,
    >)
        requires
            old(self).well_formed(),
            old(self).phase == OpenPhase::Ledger,
        ensures
            old(self).after_ledger(*final(self), result, applied),
    {
        validate_applied_migrations(&applied)?;
        self.applied = applied;
        self.phase = OpenPhase::Passed;
        Ok(OpenAction::Rollback)
    }
}

/// A validation that passed has seen a supported, writable and durable
/// primary, every table in place, and the embedded migrations applied.
pub proof fn law_passed_validations_saw_everything(check: OpenCheck)
    requires
        check.well_formed(),
        check.phase == OpenPhase::Passed,
    ensures
        check.route is Some,
        supported_version(check.route->0.version_number),
        !check.route->0.in_recovery,
        !check.route->0.default_read_only,
        check.route->0.fsync,
        check.route->0.full_page_writes,
        tables_serve(check.relations@),
        check.applied@.len() == migration::MIGRATION_COUNT,
{
    law_validated_ledgers_are_complete(check.applied@);
}

fn schema_value() -> (result: SqlValue)
    ensures
        result@ == ValueView::Text(Some(PRODUCTION_SCHEMA@)),
{
    SqlValue::Text(Some(copy_text(PRODUCTION_SCHEMA)))
}

} // verus!
