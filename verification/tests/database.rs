use sea_orm::{
    AccessMode, ConnAcquireErr, DatabaseConnection, DbBackend, DbErr, RuntimeErr, SqlxError, Value,
};
use w9pt_fs_state_postgres::database::{
    classify_database_error, commit_or, native_sql_error, validate_rows_affected, TransactionAccess,
};
use w9pt_fs_state_postgres::failure::{PostgresStateError, StateStoreOperation};
use w9pt_fs_state_postgres::layer::{
    postgres_statement, postgres_statement_with_values, require_postgres_connection,
};
use w9pt_fs_state_postgres::sqlstate::{SqlFailureClass, SqlOperationPhase};
use w9pt_fs_state_postgres::statement::{query, SqlValue};

#[test]
fn statements_are_fixed_to_the_postgres_backend() {
    let plain = postgres_statement("SELECT 1");
    assert_eq!(plain.db_backend, DbBackend::Postgres);
    assert_eq!(plain.sql, "SELECT 1");
    assert!(plain.values.is_none());

    let parameterized = postgres_statement_with_values(
        "SELECT $1::integer, $2::text, $3::bytea",
        &vec![
            SqlValue::Int4(Some(7)),
            SqlValue::Text(Some("value".to_owned())),
            SqlValue::Bytes(Some(vec![1u8, 2, 3])),
        ],
    );
    assert_eq!(parameterized.db_backend, DbBackend::Postgres);
    assert_eq!(parameterized.values.expect("values").0.len(), 3);
}

#[test]
fn bound_values_keep_their_kind_order_and_absence() {
    let statement = query("SELECT 1")
        .bind(SqlValue::Int2(Some(-3)))
        .bind(SqlValue::Int8(None))
        .bind(SqlValue::Bool(true))
        .bind(SqlValue::Text(None))
        .bind(SqlValue::Bytes(None))
        .bind_number(u64::MAX)
        .sea_orm();
    let expected: Vec<Value> = vec![
        Value::SmallInt(Some(-3)),
        Value::BigInt(None),
        Value::Bool(Some(true)),
        Value::String(None),
        Value::Bytes(None),
        Value::String(Some(Box::new("18446744073709551615".to_owned()))),
    ];
    assert_eq!(statement.values.unwrap().0, expected);
    assert_eq!(statement.sql, "SELECT 1");
}

#[test]
fn disconnected_connection_is_rejected() {
    let error = require_postgres_connection(&DatabaseConnection::default()).unwrap_err();
    assert_eq!(
        error.to_string(),
        "Connection Error: a connected PostgreSQL SeaORM DatabaseConnection is required"
    );
}

#[test]
fn transaction_access_maps_without_a_default_mode() {
    assert_eq!(TransactionAccess::ReadOnly.sea_orm(), AccessMode::ReadOnly);
    assert_eq!(TransactionAccess::ReadWrite.sea_orm(), AccessMode::ReadWrite);
}

#[test]
fn phase_classification_preserves_commit_ambiguity() {
    let error = DbErr::Query(RuntimeErr::SqlxError(SqlxError::Protocol("lost response".to_owned())));
    assert_eq!(
        classify_database_error(SqlOperationPhase::ExecuteStatement, &error),
        SqlFailureClass::Internal
    );
    assert_eq!(
        classify_database_error(SqlOperationPhase::Commit, &error),
        SqlFailureClass::AmbiguousCommit
    );
}

#[test]
fn pool_and_decode_failures_keep_their_semantic_classes() {
    let timeout = DbErr::ConnectionAcquire(ConnAcquireErr::Timeout);
    assert_eq!(
        classify_database_error(SqlOperationPhase::AcquireConnection, &timeout),
        SqlFailureClass::Timeout
    );
    assert_eq!(
        classify_database_error(SqlOperationPhase::Commit, &timeout),
        SqlFailureClass::AmbiguousCommit
    );

    let decode = DbErr::Type("invalid authoritative column".to_owned());
    assert_eq!(
        classify_database_error(SqlOperationPhase::DecodeRow, &decode),
        SqlFailureClass::Corruption
    );
}

#[test]
fn non_database_driver_errors_have_no_native_details() {
    let error = DbErr::Query(RuntimeErr::SqlxError(SqlxError::Protocol("invalid frame".to_owned())));
    assert!(native_sql_error(&error).is_none());
}

#[test]
fn driver_failures_are_told_apart() {
    let phase = SqlOperationPhase::ExecuteStatement;
    let driver = |error: SqlxError| DbErr::Exec(RuntimeErr::SqlxError(error));
    assert_eq!(
        classify_database_error(phase, &driver(SqlxError::PoolTimedOut)),
        SqlFailureClass::Timeout
    );
    assert_eq!(
        classify_database_error(phase, &driver(SqlxError::PoolClosed)),
        SqlFailureClass::Unavailable
    );
    assert_eq!(
        classify_database_error(phase, &driver(SqlxError::Decode("mode".into()))),
        SqlFailureClass::Corruption
    );
    let missing = driver(SqlxError::ColumnNotFound("mode".to_owned()));
    assert_eq!(classify_database_error(phase, &missing), SqlFailureClass::Internal);
    assert_eq!(
        classify_database_error(SqlOperationPhase::DecodeRow, &missing),
        SqlFailureClass::Corruption
    );
    assert_eq!(
        classify_database_error(SqlOperationPhase::Commit, &driver(SqlxError::PoolClosed)),
        SqlFailureClass::AmbiguousCommit
    );
}

#[test]
fn only_commits_become_ambiguous() {
    assert_eq!(
        commit_or(SqlOperationPhase::Commit, SqlFailureClass::Timeout),
        SqlFailureClass::AmbiguousCommit
    );
    assert_eq!(
        commit_or(SqlOperationPhase::Rollback, SqlFailureClass::Timeout),
        SqlFailureClass::Timeout
    );
}

#[test]
fn affected_rows_stay_in_their_bounds() {
    assert_eq!(validate_rows_affected(1, 1, 2), Ok(1));
    assert_eq!(validate_rows_affected(3, 1, 2), Err(3));
    assert_eq!(validate_rows_affected(0, 1, 2), Err(0));
}

#[test]
fn runtime_database_failure_retains_its_source() {
    let error = PostgresStateError::from_database(
        StateStoreOperation::Read,
        SqlOperationPhase::ExecuteStatement,
        DbErr::Query(RuntimeErr::Internal("driver failure".to_owned())),
    );
    assert!(error.source.is_some());
    let error = error.with_operation(StateStoreOperation::Commit);
    assert_eq!(error.operation(), StateStoreOperation::Commit);
    assert!(error.sql_failure().is_some());
    assert!(error.source.is_some());
}

#[test]
fn failures_report_the_text_that_they_are_given() {
    let error = PostgresStateError::from_failure(
        StateStoreOperation::Read,
        SqlOperationPhase::DecodeRow,
        DbErr::Type("bad column".to_owned()),
        "worded elsewhere".to_owned(),
    );
    assert!(error.source.is_some());
    assert_eq!(error.text(), "PostgreSQL Corruption failure during Read: worded elsewhere");
}

#[test]
fn state_failures_name_their_kind_and_operation() {
    let error = PostgresStateError::from_database(
        StateStoreOperation::PollChanges,
        SqlOperationPhase::DecodeRow,
        DbErr::Type("bad column".to_owned()),
    );
    assert_eq!(
        error.text(),
        "PostgreSQL Corruption failure during PollChanges: Type Error: bad column"
    );
}
