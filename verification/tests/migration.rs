use w9pt_fs_state_postgres::migration::{
    ledger_drift, migration_ledger_query_limit, migrations, pending_migrations,
    reject_public_prefix_collision, AppliedMigration, MigrationAction, MigrationDrift,
    MigrationError, MigrationRun, MIGRATION_LEDGER_SQL, PRODUCTION_SCHEMA,
};
use w9pt_fs_state_postgres::statement::SqlValue;
use w9pt_fs_state_postgres::store::MigrationReport;

#[test]
fn embedded_versions_are_gap_free_and_checksums_are_stable_width() {
    let migrations = migrations();
    for (index, migration) in migrations.iter().enumerate() {
        assert_eq!(migration.version, i32::try_from(index + 1).unwrap());
        assert_eq!(migration.checksum.len(), 32);
    }
    assert_eq!(
        migrations[0].checksum,
        vec![
            0x8f, 0x07, 0xd9, 0xfd, 0x1b, 0x64, 0x05, 0x81, 0x70, 0xc0, 0xed, 0x92, 0x6f, 0x0d,
            0x59, 0xa0, 0x4f, 0x37, 0x43, 0xb9, 0x08, 0x81, 0xed, 0x56, 0x86, 0x0e, 0x05, 0xb7,
            0x12, 0x88, 0x29, 0x6b,
        ]
    );
}

#[test]
fn production_schema_is_fixed() {
    assert_eq!(PRODUCTION_SCHEMA, "public");
}

#[test]
fn migration_ledger_read_has_one_bounded_lookahead_row() {
    assert!(MIGRATION_LEDGER_SQL.contains("LIMIT $1"));
    assert_eq!(
        migration_ledger_query_limit().unwrap(),
        i64::try_from(migrations().len() + 1).unwrap()
    );
}

#[test]
fn foreign_relations_under_the_prefix_stop_a_first_run() {
    assert!(reject_public_prefix_collision(true, Some("w9pt_fs_state_x".to_owned())).is_ok());
    assert!(reject_public_prefix_collision(false, None).is_ok());
    let Err(error) = reject_public_prefix_collision(false, Some("w9pt_fs_state_x".to_owned()))
    else {
        panic!("expected a collision");
    };
    assert!(matches!(&error, MigrationError::PublicSchemaCollision(_)));
    assert_eq!(
        error.text(),
        "public relation w9pt_fs_state_x occupies the reserved w9pt_fs_state_ prefix"
    );
}

#[test]
fn drift_is_found_at_the_first_differing_row() {
    let mut foreign = migrations();
    foreign[0].checksum[0] ^= 0xff;
    assert_eq!(
        ledger_drift(&foreign),
        Some(MigrationDrift::ChecksumMismatch { version: 1 })
    );
    let moved = vec![AppliedMigration { version: 2, checksum: vec![] }];
    assert_eq!(
        ledger_drift(&moved),
        Some(MigrationDrift::VersionMismatch { expected: 1, actual: Some(2) })
    );
    let Err(MigrationError::Drift(detail)) = pending_migrations(&moved) else {
        panic!("expected drift");
    };
    assert_eq!(detail, "expected applied version 1, found 2");
}

#[test]
fn first_run_applies_and_records_every_migration() {
    let (mut run, action) = MigrationRun::start();
    let MigrationAction::Execute(lock) = action else {
        panic!("expected the lock");
    };
    assert_eq!(lock.values, vec![SqlValue::Int8(Some(0x7739_7074_6673_7631))]);
    assert!(matches!(run.locked(), MigrationAction::Fetch(_)));
    assert!(matches!(run.ledger_found(false), MigrationAction::Fetch(_)));
    assert!(matches!(run.collision(None), Ok(MigrationAction::EnsureLedger)));
    let MigrationAction::Fetch(ledger) = run.ensured() else {
        panic!("expected the ledger");
    };
    assert_eq!(ledger.values, vec![SqlValue::Int8(Some(2))]);
    assert!(matches!(run.ledger(&vec![]), Ok(MigrationAction::ApplyInitial)));
    let MigrationAction::Execute(record) = run.applied() else {
        panic!("expected the record");
    };
    assert_eq!(
        record.values,
        vec![
            SqlValue::Int4(Some(1)),
            SqlValue::Bytes(Some(migrations()[0].checksum.clone())),
        ]
    );
    assert!(matches!(run.recorded(), MigrationAction::Commit));
    assert_eq!(run.committed(), MigrationReport::new(1, 1));
}

#[test]
fn second_run_applies_nothing() {
    let (mut run, _) = MigrationRun::start();
    run.locked();
    assert!(matches!(run.ledger_found(true), MigrationAction::EnsureLedger));
    run.ensured();
    assert!(matches!(run.ledger(&migrations()), Ok(MigrationAction::Commit)));
    let report = run.committed();
    assert_eq!(report.applied(), 0);
    assert_eq!(report.current_version(), 1);
}
