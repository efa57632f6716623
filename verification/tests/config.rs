use std::time::Duration;

use w9pt_fs_state_postgres::config::{
    every_schema_limit, usize_u64, validate_schema_limits, validate_timeout, value_of_limit,
    PostgresConfigError, PostgresStateConfig, PrimaryWalDurability, SchemaLimit,
};
use w9pt_fs_state_postgres::limits::{schema_limit_values, StateLimitValues, StateLimits};

#[test]
fn defaults_are_checked_and_expose_primary_wal_durability() {
    let config = PostgresStateConfig::default();
    assert_eq!(config.limits(), StateLimits::default());
    assert_eq!(config.durability(), PrimaryWalDurability::Required);
    assert_eq!(config.statement_timeout().as_millis(), 30_000);
    assert_eq!(config.lock_timeout().as_millis(), 5_000);
}

#[test]
fn invalid_timeouts_and_retry_bounds_are_rejected() {
    let default = PostgresStateConfig::default();
    assert!(matches!(
        PostgresStateConfig::new(
            default.limits(),
            Duration::ZERO,
            default.lock_timeout(),
            0,
            1,
            default.durability(),
        ),
        Err(PostgresConfigError::Zero { field: "statement_timeout" })
    ));
    assert!(matches!(
        PostgresStateConfig::new(
            default.limits(),
            Duration::from_nanos(1),
            Duration::from_nanos(1),
            0,
            1,
            default.durability(),
        ),
        Err(PostgresConfigError::TimeoutBelowOneMillisecond { field: "statement_timeout" })
    ));
    assert!(matches!(
        PostgresStateConfig::new(
            default.limits(),
            default.statement_timeout(),
            default.lock_timeout(),
            0,
            0,
            default.durability(),
        ),
        Err(PostgresConfigError::Zero { field: "ambiguous_commit_recovery_attempts" })
    ));
}

#[test]
fn schema_maxima_are_enforced() {
    let values = StateLimitValues {
        max_entry_name_bytes: schema_limit_values().max_entry_name_bytes + 1,
        ..StateLimitValues::default()
    };
    let limits = StateLimits::new(values);
    let default = PostgresStateConfig::default();
    assert!(matches!(
        PostgresStateConfig::new(
            limits,
            default.statement_timeout(),
            default.lock_timeout(),
            0,
            1,
            default.durability(),
        ),
        Err(PostgresConfigError::StateLimitExceedsSchema {
            limit: SchemaLimit::EntryNameBytes,
            ..
        })
    ));
}

#[test]
fn timeouts_are_bounded_by_the_setting() {
    let widest = Duration::from_millis(2_147_483_647);
    assert_eq!(validate_timeout("lock_timeout", widest), Ok(()));
    assert_eq!(
        validate_timeout("lock_timeout", widest + Duration::from_millis(1)),
        Err(PostgresConfigError::TimeoutTooLarge {
            field: "lock_timeout",
            milliseconds: 2_147_483_648,
        })
    );
    assert_eq!(
        validate_timeout("lock_timeout", Duration::from_secs(u64::MAX)),
        Err(PostgresConfigError::TimeoutTooLarge {
            field: "lock_timeout",
            milliseconds: u64::MAX,
        })
    );
}

#[test]
fn lock_waits_end_before_their_statement() {
    let default = PostgresStateConfig::default();
    assert_eq!(
        PostgresStateConfig::new(
            default.limits(),
            Duration::from_millis(10),
            Duration::from_millis(11),
            0,
            1,
            default.durability(),
        ),
        Err(PostgresConfigError::LockTimeoutExceedsStatementTimeout)
    );
}

#[test]
fn retry_bounds_have_a_maximum() {
    let default = PostgresStateConfig::default();
    let made = |definitive: u32, recovery: u32| {
        PostgresStateConfig::new(
            default.limits(),
            default.statement_timeout(),
            default.lock_timeout(),
            definitive,
            recovery,
            default.durability(),
        )
    };
    let widest = made(0, 1).unwrap();
    assert_eq!(widest.definitive_abort_retries(), 0);
    assert_eq!(widest.ambiguous_commit_recovery_attempts(), 1);
    assert!(matches!(
        made(u32::MAX, 1),
        Err(PostgresConfigError::RetryBoundTooLarge {
            field: "definitive_abort_retries",
            actual: u32::MAX,
            ..
        })
    ));
    assert!(matches!(
        made(0, u32::MAX),
        Err(PostgresConfigError::RetryBoundTooLarge {
            field: "ambiguous_commit_recovery_attempts",
            actual: u32::MAX,
            ..
        })
    ));
}

#[test]
fn every_limit_is_held_against_its_maximum() {
    let values = schema_limit_values();
    assert_eq!(validate_schema_limits(StateLimits::new(values)), Ok(()));
    let limits = every_schema_limit();
    assert_eq!(limits.len(), 21);
    for limit in limits {
        assert!(value_of_limit(values, limit) > 0, "{}", limit.name());
    }
    let values = StateLimitValues {
        max_change_history_commits: schema_limit_values().max_change_history_commits + 1,
        ..StateLimitValues::default()
    };
    assert!(matches!(
        validate_schema_limits(StateLimits::new(values)),
        Err(PostgresConfigError::StateLimitExceedsSchema {
            limit: SchemaLimit::ChangeHistoryCommits,
            ..
        })
    ));
    assert_eq!(usize_u64(7), 7);
}

#[test]
fn configuration_failures_say_what_is_wrong() {
    assert_eq!(
        PostgresConfigError::TimeoutTooLarge { field: "lock_timeout", milliseconds: 12 }.text(),
        "lock_timeout value 12ms exceeds PostgreSQL adapter maximum"
    );
    assert_eq!(
        PostgresConfigError::StateLimitExceedsSchema {
            limit: SchemaLimit::OpenPins,
            actual: 10,
            maximum: 9,
        }
        .text(),
        "state limit OpenPins value 10 exceeds schema maximum 9"
    );
    assert_eq!(
        PostgresConfigError::Zero { field: "statement_timeout" }.text(),
        "statement_timeout must be nonzero"
    );
}
