//! Set-up of serializable transactions on a writable primary.
use vstd::prelude::*;

use crate::config;
use crate::config::{nanoseconds, PostgresStateConfig};
use crate::database::TransactionAccess;
use crate::failure;
use crate::failure::{
    AdapterFailureKind, FailureCause, PostgresStateError, StateStoreOperation,
};
use crate::numeric;
use crate::numeric::encode_u64;
use crate::publish;
use crate::statement;
use crate::statement::{query, PostgresQuery, SqlValue, StatementView};
use crate::text::str_eq;

use std::time::Duration;

verus! {

/// Text that sets the statement timeout of a transaction.
pub const STATEMENT_TIMEOUT_SQL: &'static str =
    "SELECT pg_catalog.set_config('statement_timeout', $1, true)";

/// Text that sets the lock timeout of a transaction.
pub const LOCK_TIMEOUT_SQL: &'static str =
    "SELECT pg_catalog.set_config('lock_timeout', $1, true)";

/// Text that makes a transaction wait for its log.
pub const SYNCHRONOUS_COMMIT_SQL: &'static str =
    "SELECT pg_catalog.set_config('synchronous_commit', 'on', true)";

/// Text that reads the route and settings of a transaction.
pub const TRANSACTION_SETTINGS_SQL: &'static str =
    "SELECT pg_catalog.pg_is_in_recovery() AS in_recovery, current_setting('default_transaction_read_only')::boolean AS default_read_only, current_setting('transaction_read_only')::boolean AS transaction_read_only, current_setting('transaction_isolation') AS transaction_isolation, current_setting('synchronous_commit') AS synchronous_commit";

/// A timeout as the database spells it.
pub open spec fn timeout_text(value: Duration) -> Seq<char> {
    numeric::decimal(config::duration_millis(value) as nat) + "ms"@
}

/// The statement that sets a timeout.
pub open spec fn timeout_query(sql: &'static str, value: Duration) -> StatementView {
    statement::text_only(sql@).with(SqlValue::Text(Some(timeout_text(value))))
}

fn timeout_statement(sql: &'static str, value: Duration) -> (result: PostgresQuery)
    requires
        config::duration_millis(value) <= u64::MAX,
    ensures
        result@ == timeout_query(sql, value),
{
    let milliseconds: u64 = (nanoseconds(value) / 1_000_000) as u64;
    let mut text = encode_u64(milliseconds);
    text.append("ms");
    query(sql).bind(SqlValue::Text(Some(text)))
}

/// The statements that bound the waits of a transaction.
pub fn timeout_statements(config: PostgresStateConfig) -> (result: Vec<PostgresQuery>)
    ensures
        publish::statement_views(result@) == seq![
            timeout_query(STATEMENT_TIMEOUT_SQL, config@.statement_timeout),
            timeout_query(LOCK_TIMEOUT_SQL, config@.lock_timeout),
        ],
{
    let mut result: Vec<PostgresQuery> = Vec::new();
    result.push(timeout_statement(STATEMENT_TIMEOUT_SQL, config.statement_timeout()));
    result.push(timeout_statement(LOCK_TIMEOUT_SQL, config.lock_timeout()));
    assert(publish::statement_views(result@) =~= seq![
        timeout_query(STATEMENT_TIMEOUT_SQL, config@.statement_timeout),
        timeout_query(LOCK_TIMEOUT_SQL, config@.lock_timeout),
    ]);
    result
}

/// The statements that set a transaction up, in order. Only one that writes
/// chooses how it waits for its log.
pub fn begin_statements(config: PostgresStateConfig, access: TransactionAccess) -> (result: Vec<
    PostgresQuery,
>)
    ensures
        publish::statement_views(result@) == seq![
            timeout_query(STATEMENT_TIMEOUT_SQL, config@.statement_timeout),
            timeout_query(LOCK_TIMEOUT_SQL, config@.lock_timeout),
        ] + (if access == TransactionAccess::ReadWrite {
            seq![statement::text_only(SYNCHRONOUS_COMMIT_SQL@)]
        } else {
            Seq::empty()
        }),
{
    let mut result = timeout_statements(config);
    let ghost before = publish::statement_views(result@);
    if access == TransactionAccess::ReadWrite {
        result.push(query(SYNCHRONOUS_COMMIT_SQL));
        assert(publish::statement_views(result@) =~= before + seq![
            statement::text_only(SYNCHRONOUS_COMMIT_SQL@),
        ]);
    } else {
        assert(before + Seq::empty() =~= before);
    }
    result
}

/// Route and settings of a transaction.
#[derive(Clone, Debug, PartialEq, Eq)]
pub struct TransactionSettings {
    /// The server is a standby.
    pub in_recovery: bool,
    /// Transactions only read by default.
    pub default_read_only: bool,
    /// This transaction only reads.
    pub transaction_read_only: bool,
    /// Isolation level.
    pub isolation: String,
    /// How the transaction waits for its log.
    pub synchronous_commit: String,
}

/// The transaction runs serializably on a writable primary, in the mode that
/// was asked for, and waits for its log if it writes.
pub open spec fn is_primary_route(settings: TransactionSettings, access: TransactionAccess) -> bool {
    &&& !settings.in_recovery
    &&& !settings.default_read_only
    &&& settings.transaction_read_only == (access == TransactionAccess::ReadOnly)
    &&& settings.isolation@ == "serializable"@
    &&& access == TransactionAccess::ReadWrite ==> settings.synchronous_commit@ == "on"@
}

/// Checks the route and settings of a transaction.
pub fn validate_primary_transaction(
    settings: &TransactionSettings,
    access: TransactionAccess,
    operation: StateStoreOperation,
) -> (result: Result<(), PostgresStateError>)
    ensures
        match result {
            Ok(()) => is_primary_route(*settings, access),
            Err(error) => !is_primary_route(*settings, access) && error@
                == failure::plain_failure(
                operation,
                AdapterFailureKind::Unsupported,
                "transaction is not a validated serializable writable-primary route",
                FailureCause::Plain,
            ),
        },
{
    let expected_read_only = access == TransactionAccess::ReadOnly;
    if settings.in_recovery || settings.default_read_only || settings.transaction_read_only
        != expected_read_only || !str_eq(settings.isolation.as_str(), "serializable") || (access
        == TransactionAccess::ReadWrite && !str_eq(settings.synchronous_commit.as_str(), "on")) {
        return Err(
            PostgresStateError::new(
                operation,
                AdapterFailureKind::Unsupported,
                "transaction is not a validated serializable writable-primary route",
                FailureCause::Plain,
            ),
        );
    }
    Ok(())
}

} // verus!
