//! Statements, access modes and connections as the database layer takes them.
use vstd::prelude::*;

use sea_orm::error::RuntimeErr;
use sea_orm::{AccessMode, DatabaseConnection, DbBackend, DbErr};

use crate::database::TransactionAccess;
use crate::statement;
use crate::statement::{copy_value, PostgresQuery, SqlValue, ValueView};
use crate::text::copy_text;

verus! {

/// Statement of the database layer.
#[verifier::external_type_specification]
#[verifier::external_body]
pub struct ExStatement(sea_orm::Statement);

/// Positional value of the database layer.
#[verifier::external_type_specification]
#[verifier::external_body]
pub struct ExValue(sea_orm::Value);

/// Access mode of the database layer.
#[verifier::external_type_specification]
#[verifier::external_body]
pub struct ExAccessMode(sea_orm::AccessMode);

/// Connection of the database layer.
#[verifier::external_type_specification]
#[verifier::external_body]
pub struct ExDatabaseConnection(sea_orm::DatabaseConnection);

/// What a statement of the database layer holds.
pub struct HeldStatement {
    /// The statement is written for PostgreSQL.
    pub postgres: bool,
    /// Statement text.
    pub sql: Seq<char>,
    /// Positional values, where there are any.
    pub values: Option<Seq<sea_orm::Value>>,
}

/// The contents of a statement of the database layer.
pub uninterp spec fn held_statement(statement: sea_orm::Statement) -> HeldStatement;

/// The value that a positional value of the database layer stands for.
pub uninterp spec fn held_value(value: sea_orm::Value) -> ValueView;

/// The access that a mode of the database layer grants.
pub uninterp spec fn granted_access(mode: AccessMode) -> TransactionAccess;

/// Whether a connection of the database layer is a pool of PostgreSQL
/// connections.
pub uninterp spec fn is_postgres_pool(database: DatabaseConnection) -> bool;

/// A positional value for `sea_orm::Statement`, by the `From` conversions of
/// `sea_orm::Value`: each keeps the kind and the value, or its absence.
#[verifier::external_body]
fn layer_value(value: SqlValue) -> (result: sea_orm::Value)
    ensures
        held_value(result) == value@,
{
    match value {
        SqlValue::Bytes(value) => value.into(),
        SqlValue::Text(value) => value.into(),
        SqlValue::Int2(value) => value.into(),
        SqlValue::Int4(value) => value.into(),
        SqlValue::Int8(value) => value.into(),
        SqlValue::Bool(value) => value.into(),
        SqlValue::Texts(value) => value.into(),
    }
}

/// A statement without values, by `sea_orm::Statement::from_string`: it holds
/// the backend and the text.
#[verifier::external_body]
fn plain_statement(sql: &str) -> (result: sea_orm::Statement)
    ensures
        held_statement(result) == (HeldStatement { postgres: true, sql: sql@, values: None }),
{
    sea_orm::Statement::from_string(DbBackend::Postgres, sql)
}

/// A statement with values, by `sea_orm::Statement::from_sql_and_values`: it
/// holds the backend, the text and the values in order.
#[verifier::external_body]
fn bound_statement(sql: &str, values: Vec<sea_orm::Value>) -> (result: sea_orm::Statement)
    ensures
        held_statement(result) == (HeldStatement {
            postgres: true,
            sql: sql@,
            values: Some(values@),
        }),
{
    sea_orm::Statement::from_sql_and_values(DbBackend::Postgres, sql, values)
}

/// The `sea_orm::AccessMode` of the same name.
#[verifier::external_body]
fn layer_access(access: TransactionAccess) -> (result: AccessMode)
    ensures
        granted_access(result) == access,
{
    match access {
        TransactionAccess::ReadOnly => AccessMode::ReadOnly,
        TransactionAccess::ReadWrite => AccessMode::ReadWrite,
    }
}

/// Whether a `sea_orm::DatabaseConnection` is of the variant
/// `SqlxPostgresPoolConnection`. The value is opaque, so the answer stays a
/// name.
#[verifier::external_body]
fn postgres_pool(database: &DatabaseConnection) -> (result: bool)
    ensures
        result == is_postgres_pool(*database),
{
    matches!(database, DatabaseConnection::SqlxPostgresPoolConnection(_))
}

/// The reason that a connection error of the database layer was made with.
pub uninterp spec fn connection_reason(error: DbErr) -> Option<Seq<char>>;

/// The variant `Conn` of `sea_orm::DbErr`, which holds an internal reason.
#[verifier::external_body]
fn connection_error(reason: String) -> (result: DbErr)
    ensures
        connection_reason(result) == Some(reason@),
{
    DbErr::Conn(RuntimeErr::Internal(reason))
}

/// Values of the database layer stand for values of the library.
pub open spec fn values_held(values: Seq<sea_orm::Value>, expected: Seq<ValueView>) -> bool {
    values.map_values(|value: sea_orm::Value| held_value(value)) == expected
}

/// A PostgreSQL statement without values.
pub fn postgres_statement(sql: &str) -> (result: sea_orm::Statement)
    ensures
        held_statement(result) == (HeldStatement { postgres: true, sql: sql@, values: None }),
{
    plain_statement(sql)
}

/// A PostgreSQL statement with its positional values.
pub fn postgres_statement_with_values(sql: &str, values: &Vec<SqlValue>) -> (result:
    sea_orm::Statement)
    ensures
        held_statement(result).postgres,
        held_statement(result).sql == sql@,
        held_statement(result).values is Some,
        values_held(held_statement(result).values->0, statement::value_views(values@)),
{
    let mut bound: Vec<sea_orm::Value> = Vec::new();
    let mut index: usize = 0;
    while index < values.len()
        invariant
            index <= values@.len(),
            bound@.len() == index,
            forall|i: int| 0 <= i < index ==> held_value(#[trigger] bound@[i]) == values@[i]@,
        decreases values@.len() - index,
    {
        bound.push(layer_value(copy_value(&values[index])));
        index = index + 1;
    }
    assert(bound@.map_values(|value: sea_orm::Value| held_value(value)) =~= statement::value_views(
        values@,
    ));
    bound_statement(sql, bound)
}

impl PostgresQuery {
    /// The statement as the database layer takes it.
    pub fn sea_orm(&self) -> (result: sea_orm::Statement)
        ensures
            held_statement(result).postgres,
            held_statement(result).sql == self@.sql,
            held_statement(result).values is Some,
            values_held(held_statement(result).values->0, self@.values),
    {
        postgres_statement_with_values(self.sql.as_str(), &self.values)
    }
}

impl TransactionAccess {
    /// The mode that grants the access.
    pub fn sea_orm(self) -> (result: AccessMode)
        ensures
            granted_access(result) == self,
    {
        layer_access(self)
    }
}

/// Rejects disconnected connections and those to another database.
pub fn require_postgres_connection(database: &DatabaseConnection) -> (result: Result<(), DbErr>)
    ensures
        match result {
            Ok(()) => is_postgres_pool(*database),
            Err(error) => !is_postgres_pool(*database) && connection_reason(error) == Some(
                "a connected PostgreSQL SeaORM DatabaseConnection is required"@,
            ),
        },
{
    if postgres_pool(database) {
        Ok(())
    } else {
        Err(
            connection_error(
                copy_text("a connected PostgreSQL SeaORM DatabaseConnection is required"),
            ),
        )
    }
}

} // verus!
