use std::collections::BTreeSet;

use sea_orm::{DbErr, RuntimeErr};
use w9pt_fs_state_postgres::config::{
    validate_schema_limits, PostgresConfigError, PostgresStateConfig, PrimaryWalDurability,
    SchemaLimit,
};
use w9pt_fs_state_postgres::limits::{schema_limit_values, StateLimitValues, StateLimits};
use w9pt_fs_state_postgres::migration::{migrations, AppliedMigration, MigrationError};
use w9pt_fs_state_postgres::schema::TABLE_NAMES;
use w9pt_fs_state_postgres::statement::SqlValue;
use w9pt_fs_state_postgres::validation::{
    limit_pairs, privilege, runtime_privileges, validate_applied_migrations,
    validate_configured_limits, validate_durability_settings, validate_relation_catalog,
    validate_route, validate_server_version, OpenAction, OpenCheck, OpenPhase,
    OpenValidationError, PostgresOpenError, RelationCatalogEntry, RouteFacts, RuntimePrivilege,
};

fn exact_applied_migrations() -> Vec<AppliedMigration> {
    migrations()
}

fn exact_relation_catalog() -> Vec<RelationCatalogEntry> {
    TABLE_NAMES
        .iter()
        .map(|name| RelationCatalogEntry {
            name: (*name).to_owned(),
            kind: "r".to_owned(),
            persistence: "p".to_owned(),
        })
        .collect()
}

fn entry<'a>(
    relations: &'a mut Vec<RelationCatalogEntry>,
    name: &str,
) -> &'a mut RelationCatalogEntry {
    relations.iter_mut().find(|relation| relation.name == name).unwrap()
}

fn primary() -> RouteFacts {
    RouteFacts {
        version_number: 160_001,
        in_recovery: false,
        default_read_only: false,
        fsync: true,
        full_page_writes: true,
    }
}

#[test]
fn only_postgres_15_through_18_are_supported() {
    for version in [150_000, 160_001, 170_999, 180_000] {
        assert!(validate_server_version(version).is_ok());
    }
    for version in [140_999, 190_000] {
        assert!(matches!(
            validate_server_version(version),
            Err(OpenValidationError::UnsupportedServerVersion { .. })
        ));
    }
}

#[test]
fn negative_version_numbers_keep_their_truncated_major() {
    assert!(matches!(
        validate_server_version(-19_999),
        Err(OpenValidationError::UnsupportedServerVersion { version_number: -19_999, major: -1 })
    ));
    assert!(matches!(
        validate_server_version(i64::MIN),
        Err(OpenValidationError::UnsupportedServerVersion {
            version_number: i64::MIN,
            major: -922_337_203_685_477,
        })
    ));
}

#[test]
fn standby_and_default_read_only_routes_are_rejected() {
    assert!(validate_route(false, false).is_ok());
    assert!(matches!(validate_route(true, false), Err(OpenValidationError::RecoveryRoute)));
    assert!(matches!(
        validate_route(false, true),
        Err(OpenValidationError::DefaultReadOnlyRoute)
    ));
}

#[test]
fn weakened_primary_wal_settings_are_rejected() {
    assert!(validate_durability_settings(true, true).is_ok());
    assert!(matches!(
        validate_durability_settings(false, true),
        Err(OpenValidationError::DurabilitySettingDisabled { setting: "fsync" })
    ));
    assert!(matches!(
        validate_durability_settings(true, false),
        Err(OpenValidationError::DurabilitySettingDisabled { setting: "full_page_writes" })
    ));
}

#[test]
fn migration_ledger_must_be_complete_gap_free_and_exact() {
    let exact = exact_applied_migrations();
    assert!(validate_applied_migrations(&exact).is_ok());
    assert!(matches!(
        validate_applied_migrations(&vec![]),
        Err(OpenValidationError::MigrationVersionMismatch { expected: 1, actual: None })
    ));

    let mut wrong_checksum = exact.clone();
    wrong_checksum[0].checksum[0] ^= 0xff;
    assert!(matches!(
        validate_applied_migrations(&wrong_checksum),
        Err(OpenValidationError::MigrationChecksumMismatch { version: 1 })
    ));

    let mut newer = exact;
    newer.push(AppliedMigration { version: 2, checksum: vec![0; 32] });
    assert!(matches!(
        validate_applied_migrations(&newer),
        Err(OpenValidationError::UnknownMigrationVersion { version: 2 })
    ));
}

#[test]
fn every_required_relation_must_be_an_ordinary_permanent_table() {
    let exact = exact_relation_catalog();
    assert!(validate_relation_catalog(&exact).is_ok());

    let mut missing = exact_relation_catalog();
    missing.retain(|relation| relation.name != "w9pt_fs_state_inodes");
    assert!(matches!(
        validate_relation_catalog(&missing),
        Err(OpenValidationError::MissingTable { table: "w9pt_fs_state_inodes" })
    ));

    let mut unlogged = exact_relation_catalog();
    entry(&mut unlogged, "w9pt_fs_state_locks").persistence = "u".to_owned();
    assert!(matches!(
        validate_relation_catalog(&unlogged),
        Err(OpenValidationError::NonPermanentTable { table: "w9pt_fs_state_locks", .. })
    ));

    let mut view = exact_relation_catalog();
    entry(&mut view, "w9pt_fs_state_xattrs").kind = "v".to_owned();
    assert!(matches!(
        validate_relation_catalog(&view),
        Err(OpenValidationError::UnexpectedRelationKind { table: "w9pt_fs_state_xattrs", .. })
    ));
}

#[test]
fn defensive_limit_check_matches_compiled_schema_maxima() {
    assert!(validate_configured_limits(StateLimits::default()).is_ok());
    let limits = StateLimits::new(StateLimitValues {
        max_entry_name_bytes: schema_limit_values().max_entry_name_bytes + 1,
        ..StateLimitValues::default()
    });
    assert!(matches!(
        validate_configured_limits(limits),
        Err(OpenValidationError::ConfiguredLimitExceedsSchema {
            limit: SchemaLimit::EntryNameBytes,
            ..
        })
    ));
    assert_eq!(limit_pairs(schema_limit_values(), schema_limit_values()).len(), 21);
    let deep = StateLimits::new(StateLimitValues {
        max_directory_ancestor_depth: 65_536,
        ..StateLimitValues::default()
    });
    assert!(validate_schema_limits(deep).is_err());
    assert!(matches!(
        validate_configured_limits(deep),
        Err(OpenValidationError::ConfiguredLimitExceedsSchema {
            limit: SchemaLimit::DirectoryAncestorDepth,
            actual: 65_536,
            maximum: 65_535,
        })
    ));
}

#[test]
fn privilege_requirements_are_unique_and_cover_every_runtime_table() {
    let requirements = runtime_privileges();
    let unique: BTreeSet<_> = requirements.iter().copied().collect();
    assert_eq!(unique.len(), requirements.len());
    for table in TABLE_NAMES {
        assert!(requirements.iter().any(|requirement| requirement.relation == table));
    }
    assert!(requirements
        .contains(&privilege("w9pt_fs_state_change_keys", RuntimePrivilege::Delete)));
    assert_eq!(RuntimePrivilege::Update.as_sql(), "UPDATE");
}

#[test]
fn complete_route_passes_every_phase() {
    let (mut check, action) = OpenCheck::start(PostgresStateConfig::default()).unwrap();
    assert!(matches!(action, OpenAction::Fetch(_)));
    let durability = PrimaryWalDurability::Required;
    assert!(matches!(check.route(primary(), durability), Ok(OpenAction::Fetch(_))));
    assert!(matches!(
        check.settings("serializable".to_owned(), false),
        Ok(OpenAction::Execute(_))
    ));
    assert!(matches!(
        check.failed(DbErr::Query(RuntimeErr::Internal("lost".to_owned()))),
        OpenValidationError::CannotEnforceSynchronousCommit { .. }
    ));
    assert!(matches!(check.enforced(), OpenAction::Fetch(_)));
    assert!(matches!(check.synchronous_commit("on".to_owned()), Ok(OpenAction::Fetch(_))));
    let Ok(OpenAction::Fetch(catalog)) = check.schema(true) else {
        panic!("the catalog was expected");
    };
    assert_eq!(
        catalog.values,
        vec![
            SqlValue::Text(Some("public".to_owned())),
            SqlValue::Texts(TABLE_NAMES.map(str::to_owned).to_vec()),
        ]
    );
    assert!(matches!(check.catalog(exact_relation_catalog()), Ok(OpenAction::Fetch(_))));
    assert!(matches!(
        check.failed(DbErr::Query(RuntimeErr::Internal("lost".to_owned()))),
        OpenValidationError::Database { step: "checking schema privileges", .. }
    ));
    let Ok(OpenAction::Fetch(privileges)) = check.usage(true) else {
        panic!("the privileges were expected");
    };
    let required = runtime_privileges();
    assert_eq!(
        privileges.values[0],
        SqlValue::Texts(required.iter().map(|one| one.relation.to_owned()).collect())
    );
    assert_eq!(
        privileges.values[1],
        SqlValue::Texts(required.iter().map(|one| one.privilege.as_sql().to_owned()).collect())
    );
    assert!(matches!(check.privileges(None), Ok(OpenAction::Fetch(_))));
    assert!(matches!(check.ledger(exact_applied_migrations()), Ok(OpenAction::Rollback)));
    assert_eq!(check.phase, OpenPhase::Passed);
}

#[test]
fn every_phase_can_refuse() {
    let started = || OpenCheck::start(PostgresStateConfig::default()).unwrap().0;
    let durability = PrimaryWalDurability::Required;

    let mut check = started();
    assert!(matches!(
        check.route(RouteFacts { fsync: false, ..primary() }, durability),
        Err(OpenValidationError::DurabilitySettingDisabled { setting: "fsync" })
    ));

    let mut check = started();
    check.route(primary(), durability).unwrap();
    let refused = check.settings("read committed".to_owned(), false).unwrap_err();
    assert_eq!(
        refused.text(),
        "validation transaction isolation is read committed, expected serializable"
    );

    let mut check = started();
    check.route(primary(), durability).unwrap();
    assert!(matches!(
        check.settings("serializable".to_owned(), true),
        Err(OpenValidationError::TransactionReadOnly)
    ));

    let mut check = started();
    check.route(primary(), durability).unwrap();
    check.settings("serializable".to_owned(), false).unwrap();
    check.enforced();
    assert!(matches!(
        check.synchronous_commit("local".to_owned()),
        Err(OpenValidationError::UnexpectedSynchronousCommit { .. })
    ));
}

#[test]
fn failures_are_reported_by_what_they_concern() {
    let lost = OpenValidationError::Database {
        step: "reading migration ledger",
        source: DbErr::Query(RuntimeErr::Internal("lost".to_owned())),
    };
    assert!(matches!(PostgresOpenError::from(lost), PostgresOpenError::Database(_)));

    let pending = OpenValidationError::MigrationVersionMismatch { expected: 1, actual: None };
    let PostgresOpenError::Migration(MigrationError::Drift(detail)) =
        PostgresOpenError::from(pending)
    else {
        panic!("expected drift");
    };
    assert_eq!(detail, "migration version 1 is pending; run explicit migrations");

    let missing = PostgresOpenError::from(OpenValidationError::MissingTablePrivilege {
        table: "w9pt_fs_state_locks".to_owned(),
        privilege: "DELETE".to_owned(),
    });
    assert_eq!(
        missing.text(),
        "PostgreSQL validation failed: runtime role lacks DELETE on public.w9pt_fs_state_locks"
    );

    let zero = PostgresOpenError::from(PostgresConfigError::Zero { field: "lock_timeout" });
    assert_eq!(
        zero.text(),
        "PostgreSQL configuration failed: lock_timeout must be nonzero"
    );
}
