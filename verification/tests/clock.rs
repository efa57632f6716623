use sea_orm::{DbErr, RuntimeErr};
use w9pt_fs_state_postgres::clock::{
    clock_failure, decode_database_tick, injection_failure, manual_clock_failure,
    observation_failure, DatabaseClockError, LeaseClockSource, DATABASE_CLOCK_SQL,
    LEASE_TICKS_PER_SECOND, LEASE_TICK_UNIT_MICROSECONDS,
};
use w9pt_fs_state_postgres::failure::{AdapterFailureKind, FailureCause, StateStoreOperation};
use w9pt_fs_state_postgres::ids::LeaseDeadline;
use w9pt_fs_state_postgres::testing::{
    DatabaseManualClock, DatabaseManualClockError, DatabaseManualClockId, TestLeaseClockSource,
};

#[test]
fn version_one_tick_is_one_microsecond() {
    assert_eq!(LEASE_TICK_UNIT_MICROSECONDS, 1);
    assert_eq!(LEASE_TICKS_PER_SECOND, 1_000_000);
}

#[test]
fn query_has_one_materialized_clock_observation_and_numeric_transport() {
    assert_eq!(DATABASE_CLOCK_SQL.matches("clock_timestamp()").count(), 1);
    assert!(DATABASE_CLOCK_SQL.contains("AS MATERIALIZED"));
    assert!(DATABASE_CLOCK_SQL.contains("EXTRACT(EPOCH"));
    assert!(DATABASE_CLOCK_SQL.contains("1000000::numeric"));
    assert!(DATABASE_CLOCK_SQL.contains("::numeric(20, 0)"));
    assert!(DATABASE_CLOCK_SQL.contains(")::text AS lease_tick"));
    assert!(!DATABASE_CLOCK_SQL.to_ascii_lowercase().contains("float"));
    assert!(!DATABASE_CLOCK_SQL.contains("now()"));
}

#[test]
fn canonical_full_range_ticks_decode_without_signed_narrowing() {
    for tick in [0, i64::MAX as u64, i64::MAX as u64 + 1, u64::MAX] {
        assert_eq!(
            decode_database_tick(&tick.to_string()).unwrap(),
            LeaseDeadline::new(tick)
        );
    }
}

#[test]
fn negative_fractional_noncanonical_and_overflow_ticks_are_rejected() {
    for tick in ["-1", "1.0", "01", "+1", " 1", "18446744073709551616"] {
        assert!(
            matches!(decode_database_tick(tick), Err(DatabaseClockError::InvalidTick(_))),
            "accepted invalid database tick {tick:?}"
        );
    }
}

#[test]
fn clock_failures_keep_their_kind_and_say_what_happened() {
    let invalid = decode_database_tick("\"1").unwrap_err();
    assert_eq!(
        invalid.text(),
        "invalid database lease tick: database_lease_tick value \"\\\"1\" is not canonical unsigned decimal"
    );
    let failure = clock_failure(StateStoreOperation::RenewLease, invalid);
    assert_eq!(failure.kind(), AdapterFailureKind::Corruption);
    assert_eq!(failure.operation(), StateStoreOperation::RenewLease);

    let lost = DatabaseClockError::Query(DbErr::Query(RuntimeErr::Internal("lost".to_owned())));
    assert_eq!(lost.text(), "database lease-clock query failed: Query Error: lost");
    assert_eq!(lost.text_with("gone"), "database lease-clock query failed: gone");
    let failure = clock_failure(StateStoreOperation::Commit, lost);
    assert_eq!(failure.kind(), AdapterFailureKind::Internal);
    assert!(failure.source.is_some());
}

#[test]
fn clock_sources_follow_their_selector() {
    let clock = DatabaseManualClock::from_id(DatabaseManualClockId::from_u128(9));
    assert_eq!(
        LeaseClockSource::from(TestLeaseClockSource::Manual(clock)),
        LeaseClockSource::Manual(clock)
    );
    assert_eq!(
        LeaseClockSource::from(TestLeaseClockSource::Database),
        LeaseClockSource::Database
    );
}

#[test]
fn manual_clock_failures_keep_their_kind_and_text() {
    let missing = DatabaseManualClockError::MissingClock(DatabaseManualClockId::from_u128(1));
    let failure = manual_clock_failure(StateStoreOperation::AcquireLease, missing);
    assert_eq!(failure.kind(), AdapterFailureKind::Corruption);
    assert_eq!(failure.operation(), StateStoreOperation::AcquireLease);
    assert_eq!(
        failure.detail.cause,
        FailureCause::Control(
            "manual database clock DatabaseManualClockId(00000000000000000000000000000001) is absent"
                .to_owned()
        )
    );

    let lost = DatabaseManualClockError::Database(DbErr::Query(RuntimeErr::Internal(
        "lost".to_owned(),
    )));
    let failure = manual_clock_failure(StateStoreOperation::Commit, lost);
    assert_eq!(failure.kind(), AdapterFailureKind::Internal);
    assert_eq!(failure.detail.cause, FailureCause::Database("Query Error: lost".to_owned()));
    assert!(failure.source.is_some());
}

#[test]
fn test_controls_report_what_failed() {
    let observed = observation_failure(decode_database_tick("x").unwrap_err());
    assert_eq!(
        observed.text(),
        "production database clock failed: invalid database lease tick: database_lease_tick value \"x\" is not canonical unsigned decimal"
    );
    let failure = injection_failure(DatabaseManualClockError::InvalidFailureTiming(-3));
    assert_eq!(failure.kind(), AdapterFailureKind::Internal);
    assert_eq!(failure.operation(), StateStoreOperation::Commit);
    assert_eq!(
        failure.detail.cause,
        FailureCause::Control("invalid test commit-failure timing tag -3".to_owned())
    );
}
