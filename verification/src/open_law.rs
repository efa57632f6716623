//! Which servers, schemas and limits a store opens on.
use vstd::prelude::*;

use crate::config;
use crate::config::SchemaLimit;
use crate::limits;
use crate::limits::StateLimits;
use crate::migration;
use crate::migration::{
    AppliedMigration, MigrationAction, MigrationError, MigrationPhase, MigrationRun,
};
use crate::schema;
use crate::statement::ValueView;
use crate::validation;
use crate::validation::{
    OpenAction, OpenCheck, OpenPhase, OpenValidationError, RelationCatalogEntry, RouteFacts,
};

verus! {

/// A route serves exactly where the server is of one of the major versions
/// from 15 to 18, is no standby, lets transactions write, forces its writes
/// out and logs whole pages.
pub proof fn law_routes_that_serve(route: RouteFacts)
    ensures
        validation::route_failure(route) is None <==> 150_000 <= route.version_number < 190_000
            && !route.in_recovery && !route.default_read_only && route.fsync
            && route.full_page_writes,
{
}

/// A route that does not serve is refused for a fact that holds of it, and a
/// version that is not served is named before anything else.
pub proof fn law_refused_routes_are_told_why(route: RouteFacts)
    ensures
        !(150_000 <= route.version_number < 190_000) ==> match validation::route_failure(route) {
            Some(OpenValidationError::UnsupportedServerVersion { version_number, major }) => {
                &&& version_number == route.version_number
                &&& 0 <= version_number ==> major * 10_000 <= version_number < (major + 1) * 10_000
            },
            _ => false,
        },
        validation::route_failure(route) == Some(OpenValidationError::RecoveryRoute)
            ==> route.in_recovery,
        validation::route_failure(route) == Some(OpenValidationError::DefaultReadOnlyRoute)
            ==> route.default_read_only && !route.in_recovery,
        validation::route_failure(route) matches Some(
            OpenValidationError::DurabilitySettingDisabled { setting },
        ) ==> (setting == "fsync" && !route.fsync) || (setting == "full_page_writes"
            && !route.full_page_writes && route.fsync),
{
}

/// Limits of which each is within what the tables hold.
pub open spec fn within_schema(limits: StateLimits) -> bool {
    &&& limits.values.max_entry_name_bytes <= 1_024
    &&& limits.values.max_xattr_name_bytes <= 1_024
    &&& limits.values.max_xattr_value_bytes <= 0x10_0000
    &&& limits.values.max_principal_bytes <= 0x1_0000
    &&& limits.values.max_group_bytes <= 0x1_0000
    &&& limits.values.max_symlink_bytes <= 0x10_0000
    &&& limits.values.max_mutation_result_bytes <= 0x80_0000
    &&& limits.values.max_read_queries <= 4_096
    &&& limits.values.max_directory_ancestor_depth <= 65_535
    &&& limits.values.max_scan_items <= 65_536
    &&& limits.values.max_scan_bytes <= 0x400_0000
    &&& limits.values.max_preconditions <= 16_384
    &&& limits.values.max_changes <= 16_384
    &&& limits.values.max_change_keys <= 16_385
    &&& limits.values.max_transaction_bytes <= 0x400_0000
    &&& limits.values.max_locks_per_request <= 16_384
    &&& limits.values.max_open_pins_per_request <= 16_384
    &&& limits.values.max_xattrs_per_request <= 16_384
    &&& limits.values.max_lease_operation_history <= 1_000_000
    &&& limits.values.max_change_history_commits <= 1_000_000
}

proof fn lemma_all_within(
    order: Seq<SchemaLimit>,
    limits: StateLimits,
    from: int,
)
    requires
        0 <= from <= order.len(),
        forall|limit: SchemaLimit| #[trigger]
            config::limit_value(limits.values, limit) <= config::limit_value(
                limits::schema_values(),
                limit,
            ),
    ensures
        config::first_exceeded(order, limits.values, limits::schema_values(), from) is None,
    decreases order.len() - from,
{
    if from < order.len() {
        lemma_all_within(order, limits, from + 1);
    }
}

/// A configuration and an open store take limits exactly where each of them
/// is within what the tables hold.
pub proof fn law_limits_are_within_the_schema(limits: StateLimits)
    ensures
        config::schema_failure(limits) is None <==> within_schema(limits),
        validation::limits_failure(limits) is None <==> within_schema(limits),
{
    if within_schema(limits) {
        assert forall|limit: SchemaLimit| #[trigger]
            config::limit_value(limits.values, limit) <= config::limit_value(
                limits::schema_values(),
                limit,
            ) by {}
        lemma_all_within(config::schema_limit_order(), limits, 0);
    }
    if config::schema_failure(limits) is None {
        config::law_every_limit_is_checked(limits, SchemaLimit::EntryNameBytes);
        config::law_every_limit_is_checked(limits, SchemaLimit::XattrNameBytes);
        config::law_every_limit_is_checked(limits, SchemaLimit::XattrValueBytes);
        config::law_every_limit_is_checked(limits, SchemaLimit::PrincipalBytes);
        config::law_every_limit_is_checked(limits, SchemaLimit::GroupBytes);
        config::law_every_limit_is_checked(limits, SchemaLimit::SymlinkBytes);
        config::law_every_limit_is_checked(limits, SchemaLimit::MutationResultBytes);
        config::law_every_limit_is_checked(limits, SchemaLimit::ReadQueries);
        config::law_every_limit_is_checked(limits, SchemaLimit::DirectoryAncestorDepth);
        config::law_every_limit_is_checked(limits, SchemaLimit::ScanItems);
        config::law_every_limit_is_checked(limits, SchemaLimit::ScanBytes);
        config::law_every_limit_is_checked(limits, SchemaLimit::Preconditions);
        config::law_every_limit_is_checked(limits, SchemaLimit::Changes);
        config::law_every_limit_is_checked(limits, SchemaLimit::ChangeKeys);
        config::law_every_limit_is_checked(limits, SchemaLimit::TransactionBytes);
        config::law_every_limit_is_checked(limits, SchemaLimit::Locks);
        config::law_every_limit_is_checked(limits, SchemaLimit::OpenPins);
        config::law_every_limit_is_checked(limits, SchemaLimit::Xattrs);
        config::law_every_limit_is_checked(limits, SchemaLimit::LeaseOperationHistory);
        config::law_every_limit_is_checked(limits, SchemaLimit::ChangeHistoryCommits);
    }
}

/// The last entry of a catalog under a name.
pub open spec fn is_last_entry(
    relations: Seq<RelationCatalogEntry>,
    name: Seq<char>,
    index: int,
) -> bool {
    &&& 0 <= index < relations.len()
    &&& relations[index].name@ == name
    &&& forall|later: int|
        index < later < relations.len() ==> (#[trigger] relations[later]).name@ != name
}

proof fn lemma_last_entry(relations: Seq<RelationCatalogEntry>, name: Seq<char>, count: int)
    requires
        0 <= count <= relations.len(),
        forall|later: int|
            count <= later < relations.len() ==> (#[trigger] relations[later]).name@ != name,
    ensures
        match validation::catalog_index(relations, name, count) {
            Some(index) => is_last_entry(relations, name, index),
            None => forall|i: int|
                0 <= i < relations.len() ==> (#[trigger] relations[i]).name@ != name,
        },
    decreases count,
{
    if count > 0 && relations[count - 1].name@ != name {
        lemma_last_entry(relations, name, count - 1);
    }
}

/// A table suffices exactly where the last catalog entry under its name is
/// that of an ordinary and permanent table.
pub proof fn law_tables_that_suffice(relations: Seq<RelationCatalogEntry>, name: Seq<char>)
    ensures
        validation::table_failure(relations, name) is None <==> exists|index: int| #[trigger]
            is_last_entry(relations, name, index) && relations[index].kind@ == "r"@
                && relations[index].persistence@ == "p"@,
{
    lemma_last_entry(relations, name, relations.len() as int);
    match validation::catalog_index(relations, name, relations.len() as int) {
        Some(found) => {
            assert(is_last_entry(relations, name, found));
            assert forall|index: int| #[trigger] is_last_entry(relations, name, index) implies index
                == found by {
                if index < found {
                    assert(relations[found].name@ != name);
                }
                if found < index {
                    assert(relations[index].name@ != name);
                }
            }
        },
        None => {},
    }
}

/// A store opens on a migration ledger exactly where it holds the one embedded
/// migration, under version 1 and with its checksum.
pub proof fn law_ledgers_that_open(applied: Seq<AppliedMigration>)
    ensures
        validation::ledger_failure(applied) is None <==> applied.len() == 1 && applied[0].version
            == 1 && applied[0].checksum@ == migration::initial_checksum(),
{
    reveal_with_fuel(migration::first_drift, 3);
}

/// The steps of a validation pass only on what they ask for: a transaction that
/// is serializable and writes, and that waits for its log.
pub proof fn law_transactions_that_validate(
    before: OpenCheck,
    after: OpenCheck,
    result: Result<OpenAction, OpenValidationError>,
    text: String,
    read_only: bool,
)
    ensures
        before.after_settings(after, result, text, read_only) ==> {
            &&& result is Ok <==> text@ == "serializable"@ && !read_only
            &&& result is Ok ==> after.phase == OpenPhase::Enforce
            &&& text@ == "serializable"@ && read_only ==> result == Err::<
                OpenAction,
                OpenValidationError,
            >(OpenValidationError::TransactionReadOnly)
        },
        before.after_synchronous_commit(after, result, text) ==> {
            &&& result is Ok <==> text@ == "on"@
            &&& result is Ok ==> after.phase == OpenPhase::Schema
            &&& text@ != "on"@ ==> result == Err::<OpenAction, OpenValidationError>(
                OpenValidationError::UnexpectedSynchronousCommit { actual: text },
            )
        },
{
}

/// A validation reads the tables of a schema that is there, and goes on to
/// their privileges where every one of the tables suffices and the schema may
/// be used.
pub proof fn law_schemas_that_validate(
    before: OpenCheck,
    after: OpenCheck,
    result: Result<OpenAction, OpenValidationError>,
    relations: Vec<RelationCatalogEntry>,
    granted: bool,
)
    ensures
        before.after_schema(after, result, granted) ==> {
            &&& granted ==> after.phase == OpenPhase::Catalog && (result matches Ok(
                OpenAction::Fetch(_),
            ))
            &&& !granted ==> result == Err::<OpenAction, OpenValidationError>(
                OpenValidationError::MissingSchema,
            )
        },
        before.after_usage(after, result, granted) ==> {
            &&& granted ==> after.phase == OpenPhase::Privileges && (result matches Ok(
                OpenAction::Fetch(_),
            ))
            &&& !granted ==> result == Err::<OpenAction, OpenValidationError>(
                OpenValidationError::MissingSchemaUsage,
            )
        },
        before.after_catalog(after, result, relations) && result is Ok ==> after.phase
            == OpenPhase::Usage && forall|i: int|
            0 <= i < 16 ==> validation::table_failure(
                relations@,
                (#[trigger] schema::TABLE_NAMES@[i])@,
            ) is None,
        before.after_catalog(after, result, relations) && result is Err ==> exists|i: int|
            0 <= i < 16 && validation::table_failure(
                relations@,
                (#[trigger] schema::TABLE_NAMES@[i])@,
            ) is Some && match result->Err_0 {
                OpenValidationError::MissingTable { table } => table == schema::TABLE_NAMES@[i],
                OpenValidationError::UnexpectedRelationKind { table, actual } => table
                    == schema::TABLE_NAMES@[i] && actual@ != "r"@,
                OpenValidationError::NonPermanentTable { table, actual } => table
                    == schema::TABLE_NAMES@[i] && actual@ != "p"@,
                _ => false,
            },
{
    if before.after_catalog(after, result, relations) && result is Err {
        let i: int = choose|i: int|
            {
                &&& 0 <= i < 16
                &&& forall|j: int|
                    0 <= j < i ==> validation::table_failure(
                        relations@,
                        (#[trigger] schema::TABLE_NAMES@[j])@,
                    ) is None
                &&& validation::table_failure(
                    relations@,
                    (#[trigger] schema::TABLE_NAMES@[i])@,
                ) is Some
                &&& validation::is_table_failure(
                    result->Err_0,
                    schema::TABLE_NAMES@[i],
                    validation::table_failure(relations@, schema::TABLE_NAMES@[i]@)->0,
                )
            };
        assert(validation::table_failure(relations@, schema::TABLE_NAMES@[i]@) is Some);
    }
}

/// A privilege that is missing ends a validation, which names it and its
/// table; and a validation passes behind a ledger that holds the one embedded
/// migration, and behind no other.
pub proof fn law_privileges_and_ledgers_that_validate(
    before: OpenCheck,
    after: OpenCheck,
    result: Result<OpenAction, OpenValidationError>,
    missing: Option<(String, String)>,
    applied: Vec<AppliedMigration>,
)
    ensures
        before.after_privileges(after, result, missing) ==> match missing {
            Some(pair) => result == Err::<OpenAction, OpenValidationError>(
                OpenValidationError::MissingTablePrivilege { table: pair.0, privilege: pair.1 },
            ),
            None => after.phase == OpenPhase::Ledger,
        },
        before.after_ledger(after, result, applied) ==> {
            &&& result is Ok <==> applied@.len() == 1 && applied@[0].version == 1
                && applied@[0].checksum@ == migration::initial_checksum()
            &&& result is Ok ==> after.phase == OpenPhase::Passed
        },
{
    law_ledgers_that_open(applied@);
}

/// A run that finds its ledger goes on with it; one that finds none looks for
/// a relation under the reserved prefix, stops at one, and otherwise makes the
/// ledger.
pub proof fn law_migrations_stop_at_foreign_relations(
    before: MigrationRun,
    after: MigrationRun,
    result: MigrationAction,
    ended: Result<MigrationAction, MigrationError>,
    found: bool,
    relation: Option<String>,
)
    ensures
        before.after_ledger_search(after, result, found) ==> {
            &&& found ==> result is EnsureLedger && after.phase == MigrationPhase::Ensure
            &&& !found ==> after.phase == MigrationPhase::Collision && (result matches
                MigrationAction::Fetch(_))
        },
        before.after_collision(after, ended, relation) ==> match relation {
            Some(relation) => ended == Err::<MigrationAction, MigrationError>(
                MigrationError::PublicSchemaCollision(relation),
            ),
            None => after.phase == MigrationPhase::Ensure && ended is Ok && ended->Ok_0
                is EnsureLedger,
        },
{
}

/// A run over an empty ledger applies the one embedded migration, under version
/// 1 and with its checksum; one over a ledger that holds it only commits; and
/// any other ledger fails the run.
pub proof fn law_migrations_apply_what_is_missing(
    before: MigrationRun,
    after: MigrationRun,
    result: Result<MigrationAction, MigrationError>,
    applied: Seq<AppliedMigration>,
)
    requires
        before.after_ledger(after, result, applied),
    ensures
        applied.len() == 0 ==> {
            &&& result is Ok && result->Ok_0 is ApplyInitial
            &&& after.pending@.len() == 1
            &&& after.pending@[0].version == 1
            &&& after.pending@[0].checksum@ == migration::initial_checksum()
        },
        applied.len() > 0 ==> {
            &&& result is Ok <==> applied.len() == 1 && applied[0].version == 1
                && applied[0].checksum@ == migration::initial_checksum()
            &&& result is Ok ==> result->Ok_0 is Commit && after.pending@.len() == 0
        },
{
    reveal_with_fuel(migration::first_drift, 3);
}

/// What a migration asks with: its own lock, the qualified name of its ledger,
/// the reserved prefix, one row more than there are migrations, and the version
/// and checksum that it records.
pub proof fn law_migration_statements_hold_their_values(applied: AppliedMigration)
    ensures
        migration::lock_query().values == seq![ValueView::Int8(Some(0x7739_7074_6673_7631i64))],
        migration::ledger_exists_query().values == seq![
            ValueView::Text(Some("public.w9pt_fs_state_schema_migrations"@)),
        ],
        migration::collision_query().values == seq![ValueView::Text(Some("w9pt_fs_state_"@))],
        migration::ledger_query().values == seq![ValueView::Int8(Some(2i64))],
        migration::record_query(applied).values == seq![
            ValueView::Int4(Some(applied.version)),
            ValueView::Bytes(Some(applied.checksum@)),
        ],
{
    assert(migration::lock_query().values =~= seq![
        ValueView::Int8(Some(0x7739_7074_6673_7631i64)),
    ]);
    assert(migration::ledger_exists_query().values =~= seq![
        ValueView::Text(Some("public.w9pt_fs_state_schema_migrations"@)),
    ]);
    assert(migration::collision_query().values =~= seq![ValueView::Text(Some("w9pt_fs_state_"@))]);
    assert(migration::ledger_query().values =~= seq![ValueView::Int8(Some(2i64))]);
    assert(migration::record_query(applied).values =~= seq![
        ValueView::Int4(Some(applied.version)),
        ValueView::Bytes(Some(applied.checksum@)),
    ]);
}

} // verus!
