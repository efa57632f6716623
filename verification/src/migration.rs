//! Embedded migrations and the ledger of applied ones.
use vstd::prelude::*;

use sea_orm::DbErr;

use crate::bytes::bytes_eq;
use crate::failure::failure_text;
use crate::message;
use crate::message::signed_text;
use crate::schema::INITIAL_MIGRATION_VERSION;
use crate::statement;
use crate::statement::{query, PostgresQuery, SqlValue, StatementView};
use crate::store::MigrationReport;
use crate::text::copy_text;

verus! {

/// Advisory lock under which migrations run.
pub const MIGRATION_ADVISORY_LOCK: i64 = 0x7739_7074_6673_7631;

/// Prefix of every relation of the schema.
pub const PRODUCTION_RELATION_PREFIX: &'static str = "w9pt_fs_state_";

/// Qualified name of the ledger.
pub const MIGRATION_LEDGER_REGCLASS: &'static str = "public.w9pt_fs_state_schema_migrations";

/// Schema of every production table.
pub const PRODUCTION_SCHEMA: &'static str = "public";

/// Text that takes the advisory lock.
pub const ADVISORY_LOCK_SQL: &'static str = "SELECT pg_catalog.pg_advisory_xact_lock($1)";

/// Text that asks whether there is a ledger.
pub const LEDGER_EXISTS_SQL: &'static str = "SELECT pg_catalog.to_regclass($1) IS NOT NULL";

/// Text that finds a relation under the reserved prefix.
pub const PREFIX_COLLISION_SQL: &'static str =
    "SELECT class.relname::text FROM pg_catalog.pg_class AS class INNER JOIN pg_catalog.pg_namespace AS namespace ON namespace.oid = class.relnamespace WHERE namespace.nspname = 'public' AND pg_catalog.left(class.relname, pg_catalog.char_length($1)) = $1 ORDER BY class.relname LIMIT 1";

/// Text that reads the ledger.
pub const MIGRATION_LEDGER_SQL: &'static str =
    "SELECT \"version\", \"checksum\" FROM \"public\".\"w9pt_fs_state_schema_migrations\" ORDER BY \"version\" LIMIT $1";

/// Text that records an applied migration.
pub const RECORD_MIGRATION_SQL: &'static str =
    "INSERT INTO \"public\".\"w9pt_fs_state_schema_migrations\" (\"version\", \"checksum\") VALUES ($1, $2)";

/// A migration with its checksum.
#[derive(Clone, Debug, PartialEq, Eq)]
pub struct AppliedMigration {
    /// Version.
    pub version: i32,
    /// Checksum of its sources.
    pub checksum: Vec<u8>,
}

/// Checksum of the sources of the initial migration.
pub open spec fn initial_checksum() -> Seq<u8> {
    seq![
        0x8f, 0x07, 0xd9, 0xfd, 0x1b, 0x64, 0x05, 0x81,
        0x70, 0xc0, 0xed, 0x92, 0x6f, 0x0d, 0x59, 0xa0,
        0x4f, 0x37, 0x43, 0xb9, 0x08, 0x81, 0xed, 0x56,
        0x86, 0x0e, 0x05, 0xb7, 0x12, 0x88, 0x29, 0x6b,
    ]
}

/// Number of embedded migrations.
pub const MIGRATION_COUNT: usize = 1;

/// The embedded migrations.
pub fn migrations() -> (result: Vec<AppliedMigration>)
    ensures
        result@.len() == MIGRATION_COUNT,
        result@[0].version == INITIAL_MIGRATION_VERSION,
        result@[0].checksum@ == initial_checksum(),
{
    let checksum: Vec<u8> = vec![
        0x8f, 0x07, 0xd9, 0xfd, 0x1b, 0x64, 0x05, 0x81,
        0x70, 0xc0, 0xed, 0x92, 0x6f, 0x0d, 0x59, 0xa0,
        0x4f, 0x37, 0x43, 0xb9, 0x08, 0x81, 0xed, 0x56,
        0x86, 0x0e, 0x05, 0xb7, 0x12, 0x88, 0x29, 0x6b,
    ];
    assert(checksum@ =~= initial_checksum());
    vec![AppliedMigration { version: INITIAL_MIGRATION_VERSION, checksum }]
}

/// How many ledger rows are read: the embedded migrations and one more.
pub fn migration_ledger_query_limit() -> (result: Result<i64, &'static str>)
    ensures
        result == Ok::<i64, &'static str>((MIGRATION_COUNT + 1) as i64),
{
    let limit: usize = MIGRATION_COUNT + 1;
    Ok(limit as i64)
}

/// How a ledger differs from the embedded migrations.
#[derive(Clone, Copy, Debug, PartialEq, Eq, Structural)]
pub enum MigrationDrift {
    /// A version is missing or out of order; nothing stands there if the
    /// migration is pending.
    VersionMismatch {
        /// Version that must stand there.
        expected: i32,
        /// Version that stands there.
        actual: Option<i32>,
    },
    /// A version is newer than every embedded one.
    UnknownVersion {
        /// The version.
        version: i32,
    },
    /// The sources of an applied migration differ.
    ChecksumMismatch {
        /// Version of the migration.
        version: i32,
    },
}

/// How one row of the ledger differs.
pub open spec fn row_drift(row: AppliedMigration, index: int) -> Option<MigrationDrift> {
    if index + 1 > i32::MAX {
        Some(MigrationDrift::UnknownVersion { version: row.version })
    } else if row.version != index + 1 {
        Some(
            MigrationDrift::VersionMismatch {
                expected: (index + 1) as i32,
                actual: Some(row.version),
            },
        )
    } else if index >= MIGRATION_COUNT {
        Some(MigrationDrift::UnknownVersion { version: row.version })
    } else if row.checksum@ != initial_checksum() {
        Some(MigrationDrift::ChecksumMismatch { version: row.version })
    } else {
        None
    }
}

/// How the first differing row of the ledger differs, from an index on.
pub open spec fn first_drift(applied: Seq<AppliedMigration>, from: int) -> Option<MigrationDrift>
    decreases applied.len() - from,
{
    if 0 <= from < applied.len() {
        match row_drift(applied[from], from) {
            Some(drift) => Some(drift),
            None => first_drift(applied, from + 1),
        }
    } else {
        None
    }
}

/// A ledger without drift holds a prefix of the embedded migrations: version
/// after version, each with its checksum.
pub proof fn law_ledgers_are_exact_prefixes(applied: Seq<AppliedMigration>)
    requires
        first_drift(applied, 0) is None,
    ensures
        applied.len() <= MIGRATION_COUNT,
        forall|i: int|
            0 <= i < applied.len() ==> (#[trigger] applied[i]).version == i + 1
                && applied[i].checksum@ == initial_checksum(),
{
    lemma_no_drift(applied, 0);
    if applied.len() > MIGRATION_COUNT {
        assert(row_drift(applied[MIGRATION_COUNT as int], MIGRATION_COUNT as int) is None);
    }
    assert forall|i: int| 0 <= i < applied.len() implies (#[trigger] applied[i]).version == i + 1
        && applied[i].checksum@ == initial_checksum() by {
        assert(row_drift(applied[i], i) is None);
    }
}

proof fn lemma_no_drift(applied: Seq<AppliedMigration>, from: int)
    requires
        0 <= from <= applied.len(),
        first_drift(applied, from) is None,
    ensures
        forall|i: int|
            from <= i < applied.len() ==> #[trigger] row_drift(applied[i], i) is None,
    decreases applied.len() - from,
{
    if from < applied.len() {
        lemma_no_drift(applied, from + 1);
    }
}

/// Finds how a ledger differs from the embedded migrations.
pub fn ledger_drift(applied: &Vec<AppliedMigration>) -> (result: Option<MigrationDrift>)
    ensures
        result == first_drift(applied@, 0),
{
    let embedded = migrations();
    let mut index: usize = 0;
    while index < applied.len()
        invariant
            index <= applied@.len(),
            embedded@.len() == MIGRATION_COUNT,
            embedded@[0].checksum@ == initial_checksum(),
            first_drift(applied@, 0) == first_drift(applied@, index as int),
        decreases applied@.len() - index,
    {
        let row = &applied[index];
        if index >= i32::MAX as usize {
            return Some(MigrationDrift::UnknownVersion { version: row.version });
        }
        let expected: i32 = (index + 1) as i32;
        if row.version != expected {
            return Some(
                MigrationDrift::VersionMismatch { expected, actual: Some(row.version) },
            );
        }
        if index >= embedded.len() {
            return Some(MigrationDrift::UnknownVersion { version: row.version });
        }
        if !bytes_eq(&row.checksum, &embedded[index].checksum) {
            return Some(MigrationDrift::ChecksumMismatch { version: row.version });
        }
        index = index + 1;
    }
    None
}

/// Why a migration run failed.
#[derive(Debug)]
pub enum MigrationError {
    /// The database failed.
    Database(DbErr),
    /// A relation occupies the reserved prefix, and there is no ledger.
    PublicSchemaCollision(String),
    /// The ledger differs from the embedded migrations.
    Drift(String),
}

/// What a migration run says of a drifted ledger.
pub open spec fn drift_text(drift: MigrationDrift) -> Seq<char> {
    match drift {
        MigrationDrift::VersionMismatch { expected, actual: Some(actual) } => {
            "expected applied version "@ + message::signed_decimal(expected as int) + ", found "@
                + message::signed_decimal(actual as int)
        },
        MigrationDrift::VersionMismatch { expected, actual: None } => {
            "expected applied version "@ + message::signed_decimal(expected as int)
        },
        MigrationDrift::UnknownVersion { version } => {
            "database contains unknown newer migration version "@ + message::signed_decimal(
                version as int,
            )
        },
        MigrationDrift::ChecksumMismatch { version } => {
            "checksum differs for migration version "@ + message::signed_decimal(version as int)
        },
    }
}

/// A failure says how the ledger drifted.
pub open spec fn reports_drift(error: MigrationError, drift: MigrationDrift) -> bool {
    error matches MigrationError::Drift(detail) && detail@ == drift_text(drift)
}

fn drifted(drift: MigrationDrift) -> (result: MigrationError)
    ensures
        reports_drift(result, drift),
{
    let detail = match drift {
        MigrationDrift::VersionMismatch { expected, actual: Some(actual) } => copy_text(
            "expected applied version ",
        ).concat(signed_text(expected as i64).as_str()).concat(", found ").concat(
            signed_text(actual as i64).as_str(),
        ),
        MigrationDrift::VersionMismatch { expected, actual: None } => copy_text(
            "expected applied version ",
        ).concat(signed_text(expected as i64).as_str()),
        MigrationDrift::UnknownVersion { version } => copy_text(
            "database contains unknown newer migration version ",
        ).concat(signed_text(version as i64).as_str()),
        MigrationDrift::ChecksumMismatch { version } => copy_text(
            "checksum differs for migration version ",
        ).concat(signed_text(version as i64).as_str()),
    };
    MigrationError::Drift(detail)
}

/// Text of a failed migration run, given that of the database failure in it.
pub open spec fn migration_text(error: MigrationError, source: Seq<char>) -> Seq<char> {
    match error {
        MigrationError::Database(_) => "database error: "@ + source,
        MigrationError::PublicSchemaCollision(relation) => {
            "public relation "@ + relation@ + " occupies the reserved w9pt_fs_state_ prefix"@
        },
        MigrationError::Drift(detail) => "migration drift: "@ + detail@,
    }
}

impl MigrationError {
    /// The text of the failure.
    pub fn text(&self) -> (result: String)
        ensures
            exists|source: Seq<char>| result@ == #[trigger] migration_text(*self, source),
    {
        match self {
            MigrationError::Database(error) => self.text_with(failure_text(error).as_str()),
            _ => self.text_with(""),
        }
    }

    /// The text of the failure, given that of the database failure in it.
    pub fn text_with(&self, source: &str) -> (result: String)
        ensures
            result@ == migration_text(*self, source@),
    {
        match self {
            MigrationError::Database(_) => copy_text("database error: ").concat(source),
            MigrationError::PublicSchemaCollision(relation) => copy_text(
                "public relation ",
            ).concat(relation.as_str()).concat(" occupies the reserved w9pt_fs_state_ prefix"),
            MigrationError::Drift(detail) => copy_text("migration drift: ").concat(
                detail.as_str(),
            ),
        }
    }
}

/// Refuses to migrate next to a relation under the reserved prefix that no
/// ledger accounts for.
pub fn reject_public_prefix_collision(ledger_exists: bool, collision: Option<String>) -> (result:
    Result<(), MigrationError>)
    ensures
        match collision {
            Some(relation) => if ledger_exists {
                result is Ok
            } else {
                result == Err::<(), MigrationError>(
                    MigrationError::PublicSchemaCollision(relation),
                )
            },
            None => result is Ok,
        },
{
    if ledger_exists {
        return Ok(());
    }
    match collision {
        Some(relation) => Err(MigrationError::PublicSchemaCollision(relation)),
        None => Ok(()),
    }
}

/// What a ledger without drift lacks of the embedded migrations, in order.
pub open spec fn is_pending(
    applied: Seq<AppliedMigration>,
    pending: Seq<AppliedMigration>,
) -> bool {
    &&& applied.len() + pending.len() == MIGRATION_COUNT
    &&& forall|i: int|
        0 <= i < pending.len() ==> (#[trigger] pending[i]).version == applied.len() + i + 1
            && pending[i].checksum@ == initial_checksum()
}

/// The embedded migrations that a ledger lacks, in order.
pub fn pending_migrations(applied: &Vec<AppliedMigration>) -> (result: Result<
    Vec<AppliedMigration>,
    MigrationError,
>)
    ensures
        match first_drift(applied@, 0) {
            Some(drift) => result is Err && reports_drift(result->Err_0, drift),
            None => result is Ok && is_pending(applied@, result->Ok_0@),
        },
{
    match ledger_drift(applied) {
        Some(drift) => Err(drifted(drift)),
        None => {
            proof {
                law_ledgers_are_exact_prefixes(applied@);
            }
            if applied.len() == 0 {
                Ok(migrations())
            } else {
                Ok(Vec::new())
            }
        },
    }
}

/// The statement that takes the advisory lock.
pub open spec fn lock_query() -> StatementView {
    statement::text_only(ADVISORY_LOCK_SQL@).with(SqlValue::Int8(Some(MIGRATION_ADVISORY_LOCK)))
}

/// The statement that asks whether there is a ledger.
pub open spec fn ledger_exists_query() -> StatementView {
    statement::text_only(LEDGER_EXISTS_SQL@).with(SqlValue::Text(Some(MIGRATION_LEDGER_REGCLASS@)))
}

/// The statement that finds a relation under the reserved prefix.
pub open spec fn collision_query() -> StatementView {
    statement::text_only(PREFIX_COLLISION_SQL@).with(
        SqlValue::Text(Some(PRODUCTION_RELATION_PREFIX@)),
    )
}

/// The statement that reads the ledger.
pub open spec fn ledger_query() -> StatementView {
    statement::text_only(MIGRATION_LEDGER_SQL@).with(
        SqlValue::Int8(Some((MIGRATION_COUNT + 1) as i64)),
    )
}

/// The statement that records an applied migration.
pub open spec fn record_query(migration: AppliedMigration) -> StatementView {
    statement::text_only(RECORD_MIGRATION_SQL@).with(
        SqlValue::Int4(Some(migration.version)),
    ).with(SqlValue::Bytes(Some(migration.checksum@)))
}

fn lock_statement() -> (result: PostgresQuery)
    ensures
        result@ == lock_query(),
{
    query(ADVISORY_LOCK_SQL).bind(SqlValue::Int8(Some(MIGRATION_ADVISORY_LOCK)))
}

fn ledger_exists_statement() -> (result: PostgresQuery)
    ensures
        result@ == ledger_exists_query(),
{
    query(LEDGER_EXISTS_SQL).bind(SqlValue::Text(Some(copy_text(MIGRATION_LEDGER_REGCLASS))))
}

fn collision_statement() -> (result: PostgresQuery)
    ensures
        result@ == collision_query(),
{
    query(PREFIX_COLLISION_SQL).bind(SqlValue::Text(Some(copy_text(PRODUCTION_RELATION_PREFIX))))
}

/// The statement that reads the ledger.
pub fn ledger_statement() -> (result: Result<PostgresQuery, &'static str>)
    ensures
        result is Ok,
        result->Ok_0@ == ledger_query(),
{
    let limit: i64 = migration_ledger_query_limit()?;
    Ok(query(MIGRATION_LEDGER_SQL).bind(SqlValue::Int8(Some(limit))))
}

fn record_statement(migration: &AppliedMigration) -> (result: PostgresQuery)
    ensures
        result@ == record_query(*migration),
{
    query(RECORD_MIGRATION_SQL).bind(SqlValue::Int4(Some(migration.version))).bind_bytes(
        &migration.checksum,
    )
}

/// Where a migration run stands.
#[derive(Clone, Copy, Debug, PartialEq, Eq, Structural)]
pub enum MigrationPhase {
    /// The advisory lock is taken.
    Lock,
    /// The ledger is looked for.
    Ledger,
    /// A relation under the reserved prefix is looked for.
    Collision,
    /// The ledger is created where it is missing.
    Ensure,
    /// The ledger is read.
    Read,
    /// A migration is applied.
    Apply,
    /// The applied migration is recorded.
    Record,
    /// The transaction commits.
    Commit,
}

/// What a migration run wants done next, in its one transaction.
#[derive(Clone, Debug)]
pub enum MigrationAction {
    /// Run a statement.
    Execute(PostgresQuery),
    /// Run a statement and hand back what it finds.
    Fetch(PostgresQuery),
    /// Create the ledger where it is missing.
    EnsureLedger,
    /// Apply the initial migration.
    ApplyInitial,
    /// Commit the transaction.
    Commit,
}

/// One migration run.
pub struct MigrationRun {
    /// Where the run stands.
    pub phase: MigrationPhase,
    /// Migrations to apply.
    pub pending: Vec<AppliedMigration>,
    /// Migrations that are applied and recorded.
    pub recorded: usize,
}

impl MigrationRun {
    /// The run is consistent: what it applies is embedded.
    pub open spec fn well_formed(self) -> bool {
        &&& self.recorded <= self.pending@.len() <= MIGRATION_COUNT
        &&& forall|i: int|
            0 <= i < self.pending@.len() ==> (#[trigger] self.pending@[i]).version
                == INITIAL_MIGRATION_VERSION && self.pending@[i].checksum@ == initial_checksum()
        &&& self.phase == MigrationPhase::Apply || self.phase == MigrationPhase::Record
            ==> self.recorded < self.pending@.len()
        &&& self.phase == MigrationPhase::Commit ==> self.recorded == self.pending@.len()
    }

    /// Another state of the run with the same migrations.
    pub open spec fn goes_on(self, before: Self, phase: MigrationPhase) -> bool {
        &&& self.well_formed()
        &&& self.phase == phase
        &&& self.pending == before.pending
        &&& self.recorded == before.recorded
    }

    /// Starts a run.
    pub fn start() -> (result: (Self, MigrationAction))
        ensures
            result.0.well_formed(),
            result.0.phase == MigrationPhase::Lock,
            result.0.pending@.len() == 0,
            result.0.recorded == 0,
            result.1 matches MigrationAction::Execute(executed) && executed@ == lock_query(),
    {
        (
            MigrationRun { phase: MigrationPhase::Lock, pending: Vec::new(), recorded: 0 },
            MigrationAction::Execute(lock_statement()),
        )
    }

    /// Goes on once the advisory lock is held.
    pub fn locked(&mut self) -> (result: MigrationAction)
        requires
            old(self).well_formed(),
            old(self).phase == MigrationPhase::Lock,
        ensures
            final(self).goes_on(*old(self), MigrationPhase::Ledger),
            result matches MigrationAction::Fetch(fetched) && fetched@ == ledger_exists_query(),
    {
        self.phase = MigrationPhase::Ledger;
        MigrationAction::Fetch(ledger_exists_statement())
    }

    /// A run without a ledger looks for a colliding relation.
    pub open spec fn after_ledger_search(
        self,
        after: Self,
        result: MigrationAction,
        exists_there: bool,
    ) -> bool {
        if exists_there {
            after.goes_on(self, MigrationPhase::Ensure)
                && result is EnsureLedger
        } else {
            &&& after.goes_on(self, MigrationPhase::Collision)
            &&& result matches MigrationAction::Fetch(fetched) && fetched@
                == collision_query()
        }
    }

    /// Takes whether there is a ledger; only without one is anything else under
    /// the reserved prefix looked for.
    pub fn ledger_found(&mut self, exists_there: bool) -> (result: MigrationAction)
        requires
            old(self).well_formed(),
            old(self).phase == MigrationPhase::Ledger,
        ensures
            old(self).after_ledger_search(*final(self), result, exists_there),
    {
        if exists_there {
            self.phase = MigrationPhase::Ensure;
            MigrationAction::EnsureLedger
        } else {
            self.phase = MigrationPhase::Collision;
            MigrationAction::Fetch(collision_statement())
        }
    }

    /// A run makes its ledger where nothing collides.
    pub open spec fn after_collision(
        self,
        after: Self,
        result: Result<MigrationAction, MigrationError>,
        relation: Option<String>,
    ) -> bool {
        match relation {
            Some(relation) => result == Err::<MigrationAction, MigrationError>(
                MigrationError::PublicSchemaCollision(relation),
            ),
            None => after.goes_on(self, MigrationPhase::Ensure) && result == Ok::<
                MigrationAction,
                MigrationError,
            >(MigrationAction::EnsureLedger),
        }
    }

    /// Takes the relation that was found under the reserved prefix.
    pub fn collision(&mut self, relation: Option<String>) -> (result: Result<
        MigrationAction,
        MigrationError,
    >)
        requires
            old(self).well_formed(),
            old(self).phase == MigrationPhase::Collision,
        ensures
            old(self).after_collision(*final(self), result, relation),
    {
        reject_public_prefix_collision(false, relation)?;
        self.phase = MigrationPhase::Ensure;
        Ok(MigrationAction::EnsureLedger)
    }

    /// Goes on once there is a ledger.
    pub fn ensured(&mut self) -> (result: MigrationAction)
        requires
            old(self).well_formed(),
            old(self).phase == MigrationPhase::Ensure,
        ensures
            final(self).goes_on(*old(self), MigrationPhase::Read),
            result matches MigrationAction::Fetch(fetched) && fetched@ == ledger_query(),
    {
        self.phase = MigrationPhase::Read;
        let limit: i64 = (MIGRATION_COUNT + 1) as i64;
        MigrationAction::Fetch(query(MIGRATION_LEDGER_SQL).bind(SqlValue::Int8(Some(limit))))
    }

    fn next(&mut self) -> (result: MigrationAction)
        requires
            old(self).recorded <= old(self).pending@.len() <= MIGRATION_COUNT,
            forall|i: int|
                0 <= i < old(self).pending@.len() ==> (#[trigger] old(self).pending@[i]).version
                    == INITIAL_MIGRATION_VERSION && old(self).pending@[i].checksum@
                    == initial_checksum(),
        ensures
            if old(self).recorded < old(self).pending@.len() {
                final(self).goes_on(*old(self), MigrationPhase::Apply) && result is ApplyInitial
            } else {
                final(self).goes_on(*old(self), MigrationPhase::Commit) && result is Commit
            },
    {
        if self.recorded < self.pending.len() {
            self.phase = MigrationPhase::Apply;
            MigrationAction::ApplyInitial
        } else {
            self.phase = MigrationPhase::Commit;
            MigrationAction::Commit
        }
    }

    /// A run applies what its ledger lacks.
    pub open spec fn after_ledger(
        self,
        after: Self,
        result: Result<MigrationAction, MigrationError>,
        applied: Seq<AppliedMigration>,
    ) -> bool {
        match first_drift(applied, 0) {
            Some(drift) => result is Err && reports_drift(result->Err_0, drift),
            None => {
                &&& after.well_formed()
                &&& is_pending(applied, after.pending@)
                &&& after.recorded == 0
                &&& if applied.len() < MIGRATION_COUNT {
                    after.phase == MigrationPhase::Apply && result == Ok::<
                        MigrationAction,
                        MigrationError,
                    >(MigrationAction::ApplyInitial)
                } else {
                    after.phase == MigrationPhase::Commit && result == Ok::<
                        MigrationAction,
                        MigrationError,
                    >(MigrationAction::Commit)
                }
            },
        }
    }

    /// Takes the ledger and plans what is pending.
    pub fn ledger(&mut self, applied: &Vec<AppliedMigration>) -> (result: Result<
        MigrationAction,
        MigrationError,
    >)
        requires
            old(self).well_formed(),
            old(self).phase == MigrationPhase::Read,
        ensures
            old(self).after_ledger(*final(self), result, applied@),
    {
        let pending = pending_migrations(applied)?;
        self.pending = pending;
        self.recorded = 0;
        Ok(self.next())
    }

    /// Goes on once a migration is applied.
    pub fn applied(&mut self) -> (result: MigrationAction)
        requires
            old(self).well_formed(),
            old(self).phase == MigrationPhase::Apply,
        ensures
            final(self).goes_on(*old(self), MigrationPhase::Record),
            result matches MigrationAction::Execute(executed) && executed@ == record_query(
                old(self).pending@[old(self).recorded as int],
            ),
    {
        self.phase = MigrationPhase::Record;
        MigrationAction::Execute(record_statement(&self.pending[self.recorded]))
    }

    /// Goes on once an applied migration is recorded.
    pub fn recorded(&mut self) -> (result: MigrationAction)
        requires
            old(self).well_formed(),
            old(self).phase == MigrationPhase::Record,
        ensures
            final(self).well_formed(),
            final(self).pending == old(self).pending,
            final(self).recorded == old(self).recorded + 1,
            if old(self).recorded + 1 < old(self).pending@.len() {
                final(self).phase == MigrationPhase::Apply && result is ApplyInitial
            } else {
                final(self).phase == MigrationPhase::Commit && result is Commit
            },
    {
        self.recorded = self.recorded + 1;
        self.next()
    }

    /// The report of a run that committed.
    pub fn committed(self) -> (result: MigrationReport)
        requires
            self.well_formed(),
            self.phase == MigrationPhase::Commit,
        ensures
            result.applied == self.pending@.len(),
            result.current_version == MIGRATION_COUNT,
    {
        MigrationReport::new(self.recorded as u32, MIGRATION_COUNT as u32)
    }
}

} // verus!
