use w9pt_fs_state_postgres::commit::CommitFailureTiming;
use w9pt_fs_state_postgres::ids::{FilesystemId, LeaseDeadline};
use w9pt_fs_state_postgres::numeric::encode_u64;
use w9pt_fs_state_postgres::statement::SqlValue;
use w9pt_fs_state_postgres::testing::{
    checked_advance, decode_tick, require_one_row, DatabaseManualClock, DatabaseManualClockError,
    DatabaseManualClockId, DatabaseTestControl, CAPTURE_SQL, INITIALIZE_SQL, INSTALL_SQL,
    LOCK_CLOCK_SQL, TEST_SCHEMA, UPDATE_CLOCK_SQL,
};

#[test]
fn clock_ids_are_fixed_and_portable() {
    let id = DatabaseManualClockId::from_u128(1);
    assert_eq!(id.as_bytes().len(), 16);
    assert_eq!(DatabaseManualClockId::new(*id.as_bytes()), id);
    assert_eq!(id.text(), "DatabaseManualClockId(00000000000000000000000000000001)");
    assert_eq!(DatabaseManualClock::from_id(id).id(), id);
}

#[test]
fn clock_ids_with_one_number_are_one_identity() {
    let mut bytes = [0; 16];
    bytes[14] = 1;
    assert_eq!(DatabaseManualClockId::new(bytes), DatabaseManualClockId::from_u128(256));
    assert_eq!(DatabaseManualClockId::new(bytes).value(), 256);
    assert_ne!(DatabaseManualClockId::from_u128(256), DatabaseManualClockId::from_u128(257));
}

#[test]
fn install_schema_is_separate_logged_and_full_range() {
    assert_eq!(TEST_SCHEMA, "w9pt_fs_state_test_v1");
    assert!(INSTALL_SQL.contains("CREATE SCHEMA IF NOT EXISTS \"w9pt_fs_state_test_v1\""));
    assert!(INSTALL_SQL.contains("\"lease_clocks\""));
    assert!(INSTALL_SQL.contains("octet_length(\"clock_id\") = 16"));
    assert!(INSTALL_SQL.contains("numeric(20, 0)"));
    assert!(INSTALL_SQL.contains("18446744073709551615"));
    assert!(!INSTALL_SQL.contains("\"public\".\"w9pt_fs_state_"));
    assert!(!INSTALL_SQL.to_ascii_uppercase().contains("TEMP"));
    assert!(!INSTALL_SQL.to_ascii_uppercase().contains("UNLOGGED"));
}

#[test]
fn every_runtime_query_is_fully_qualified_and_uses_numeric_text() {
    for query in [INITIALIZE_SQL, CAPTURE_SQL, LOCK_CLOCK_SQL, UPDATE_CLOCK_SQL] {
        assert!(query.contains("\"w9pt_fs_state_test_v1\".\"lease_clocks\""));
        assert!(!query.contains("clock_timestamp"));
    }
    assert!(INITIALIZE_SQL.contains("$2::numeric"));
    assert!(CAPTURE_SQL.contains("\"now_tick\"::text"));
    assert!(LOCK_CLOCK_SQL.contains("FOR UPDATE"));
    assert!(UPDATE_CLOCK_SQL.contains("$2::numeric"));
}

#[test]
fn ticks_cover_the_complete_unsigned_domain_and_never_wrap() {
    for tick in [0, i64::MAX as u64, i64::MAX as u64 + 1, u64::MAX] {
        assert_eq!(decode_tick(&encode_u64(tick)).unwrap().ticks(), tick);
    }
    assert_eq!(
        checked_advance(LeaseDeadline::new(u64::MAX - 1), 1).unwrap().ticks(),
        u64::MAX
    );
    assert!(matches!(
        checked_advance(LeaseDeadline::new(u64::MAX), 1),
        Err(DatabaseManualClockError::TickOverflow { .. })
    ));
    for invalid in ["", "01", "-1", "1.0", "18446744073709551616"] {
        assert!(matches!(
            decode_tick(invalid),
            Err(DatabaseManualClockError::InvalidTick { .. })
        ));
    }
}

#[test]
fn affected_row_check_is_exact() {
    assert!(require_one_row("test", 1).is_ok());
    assert!(require_one_row("test", 0).is_err());
    assert!(require_one_row("test", 2).is_err());
}

#[test]
fn clocks_are_observed_and_advanced_through_their_row() {
    let clock = DatabaseManualClock::from_id(DatabaseManualClockId::from_u128(1));
    let capture = clock.capture_statement();
    assert_eq!(capture.sql, CAPTURE_SQL);
    assert_eq!(
        capture.values,
        vec![SqlValue::Bytes(Some(clock.id().as_bytes().to_vec()))]
    );
    assert_eq!(clock.captured(Some(&"12".to_owned())).unwrap(), LeaseDeadline::new(12));
    assert!(matches!(
        clock.captured(None),
        Err(DatabaseManualClockError::MissingClock(id)) if id == clock.id()
    ));
    let (advanced, update) = clock.advanced(Some(&"12".to_owned()), 5).unwrap();
    assert_eq!(advanced, LeaseDeadline::new(17));
    assert_eq!(update.sql, UPDATE_CLOCK_SQL);
    assert_eq!(update.values[1], SqlValue::Text(Some("17".to_owned())));
}

#[test]
fn injected_failures_are_taken_once_and_typed() {
    let control =
        DatabaseTestControl::for_clock(DatabaseManualClock::from_id(DatabaseManualClockId::from_u128(1)));
    assert_eq!(control.taken(None).unwrap(), None);
    let before = control.inject_statement(CommitFailureTiming::BeforePublication);
    let after = control.inject_statement(CommitFailureTiming::AfterPublication);
    assert_ne!(before.values, after.values);
    let Some(SqlValue::Int2(Some(tag))) = before
        .values
        .iter()
        .find(|value| matches!(value, SqlValue::Int2(_)))
        .cloned()
    else {
        panic!("expected a tag");
    };
    assert_eq!(
        control.taken(Some(tag)).unwrap(),
        Some(CommitFailureTiming::BeforePublication)
    );
    assert!(matches!(
        control.taken(Some(77)),
        Err(DatabaseManualClockError::InvalidFailureTiming(77))
    ));
}

#[test]
fn compaction_visits_each_authority_once_in_order() {
    let control =
        DatabaseTestControl::for_clock(DatabaseManualClock::from_id(DatabaseManualClockId::from_u128(1)));
    let first = FilesystemId::from_u128(1);
    let second = FilesystemId::from_u128(2);
    let once = control.compact_change_history(&vec![first, second]);
    let twice = control.compact_change_history(&vec![second, first, second]);
    assert_eq!(once, twice);
    assert!(!once.is_empty());
    assert!(control.compact_change_history(&vec![]).is_empty());
}

#[test]
fn control_failures_say_what_happened() {
    assert_eq!(
        DatabaseManualClockError::MissingClock(DatabaseManualClockId::from_u128(255)).text(),
        "manual database clock DatabaseManualClockId(000000000000000000000000000000ff) is absent"
    );
    assert_eq!(
        DatabaseManualClockError::TickOverflow { current: 3, increment: 4 }.text(),
        "manual database clock overflow: 3 + 4"
    );
    assert_eq!(
        DatabaseManualClockError::InvalidTick { value: "a\nb".to_owned() }.text(),
        "invalid manual database clock tick \"a\\nb\""
    );
    assert_eq!(
        DatabaseManualClockError::InvalidFailureTiming(-3).text(),
        "invalid test commit-failure timing tag -3"
    );
    assert_eq!(
        DatabaseManualClockError::UnexpectedAffectedRows { operation: "advancing", rows: 2 }.text(),
        "advancing affected 2 rows, expected one"
    );
}
