use w9pt_fs_state_postgres::config::PostgresStateConfig;
use w9pt_fs_state_postgres::database::TransactionAccess;
use w9pt_fs_state_postgres::failure::{AdapterFailureKind, StateStoreOperation};
use w9pt_fs_state_postgres::statement::SqlValue;
use w9pt_fs_state_postgres::transaction::{
    begin_statements, timeout_statements, validate_primary_transaction, TransactionSettings,
};

fn settings(read_only: bool) -> TransactionSettings {
    TransactionSettings {
        in_recovery: false,
        default_read_only: false,
        transaction_read_only: read_only,
        isolation: "serializable".to_owned(),
        synchronous_commit: "on".to_owned(),
    }
}

#[test]
fn transaction_modes_are_distinct() {
    assert_ne!(TransactionAccess::ReadOnly, TransactionAccess::ReadWrite);
}

#[test]
fn timeouts_are_set_in_milliseconds() {
    let statements = timeout_statements(PostgresStateConfig::default());
    assert_eq!(statements.len(), 2);
    assert_eq!(statements[0].values, vec![SqlValue::Text(Some("30000ms".to_owned()))]);
    assert_eq!(statements[1].values, vec![SqlValue::Text(Some("5000ms".to_owned()))]);
}

#[test]
fn only_writing_transactions_wait_for_their_log() {
    let config = PostgresStateConfig::default();
    let read = begin_statements(config, TransactionAccess::ReadOnly);
    let write = begin_statements(config, TransactionAccess::ReadWrite);
    assert_eq!(write.len(), read.len() + 1);
    assert!(write.iter().any(|statement| statement.sql.contains("synchronous_commit")));
    assert!(!read.iter().any(|statement| statement.sql.contains("synchronous_commit")));
}

#[test]
fn every_transaction_runs_serializable_on_the_primary() {
    let operation = StateStoreOperation::Commit;
    assert!(
        validate_primary_transaction(&settings(false), TransactionAccess::ReadWrite, operation)
            .is_ok()
    );
    assert!(
        validate_primary_transaction(&settings(true), TransactionAccess::ReadOnly, operation)
            .is_ok()
    );
    let standby = TransactionSettings { in_recovery: true, ..settings(true) };
    let weaker = TransactionSettings { isolation: "read committed".to_owned(), ..settings(true) };
    for refused in [standby, weaker, settings(false)] {
        let error =
            validate_primary_transaction(&refused, TransactionAccess::ReadOnly, operation)
                .unwrap_err();
        assert_eq!(error.kind(), AdapterFailureKind::Unsupported);
    }
}
