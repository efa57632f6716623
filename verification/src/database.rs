//! Database failures as the driver reports them, and their classification.
use vstd::prelude::*;

use sea_orm::error::{ConnAcquireErr, RuntimeErr, SqlxError};
use sea_orm::DbErr;

use crate::sqlstate;
use crate::sqlstate::{classify_sqlstate, SqlFailureClass, SqlOperationPhase};

verus! {

/// Failure type of the database layer.
#[verifier::external_type_specification]
#[verifier::external_body]
pub struct ExDbErr(sea_orm::DbErr);

/// Failure type of the driver below the database layer.
#[verifier::external_type_specification]
#[verifier::external_body]
pub struct ExSqlxError(sea_orm::error::SqlxError);

/// Access mode of an authoritative transaction.
#[derive(Clone, Copy, Debug, PartialEq, Eq, Structural)]
pub enum TransactionAccess {
    /// State read or change poll on one snapshot.
    ReadOnly,
    /// Atomic state, lease or migration transition.
    ReadWrite,
}

/// Locale-independent details of a native PostgreSQL error.
#[derive(Clone, Debug, PartialEq, Eq)]
pub struct NativeSqlError {
    /// Five-character error code.
    pub sqlstate: String,
    /// Violated constraint, where PostgreSQL names one.
    pub constraint: Option<String>,
}

impl NativeSqlError {
    /// The constraint as a slice.
    pub open spec fn constraint_text(self) -> Option<Seq<char>> {
        match self.constraint {
            Some(name) => Some(name@),
            None => None,
        }
    }

    /// The error code.
    pub fn sqlstate(&self) -> (result: &str)
        ensures
            result@ == self.sqlstate@,
    {
        self.sqlstate.as_str()
    }

    /// The exact constraint name, where there is one.
    pub fn constraint(&self) -> (result: Option<&str>)
        ensures
            sqlstate::optional_str(result) == self.constraint_text(),
    {
        match &self.constraint {
            Some(name) => Some(name.as_str()),
            None => None,
        }
    }
}

/// Shape of a driver failure that PostgreSQL itself did not report.
#[derive(Clone, Copy, Debug, PartialEq, Eq, Structural)]
pub enum DriverFailure {
    /// No pooled connection became free in time.
    PoolTimedOut,
    /// The connection broke.
    Io,
    /// The secure channel could not be set up.
    Tls,
    /// The pool is closed.
    PoolClosed,
    /// A driver worker died.
    WorkerCrashed,
    /// A named column could not be decoded.
    ColumnDecode,
    /// A value could not be decoded.
    Decode,
    /// Anything else.
    Other,
}

/// Shape of a failure of the database layer itself.
#[derive(Clone, Copy, Debug, PartialEq, Eq, Structural)]
pub enum LayerFailure {
    /// No connection was acquired in time.
    AcquireTimeout,
    /// The acquired connection was closed.
    AcquireClosed,
    /// The connection failed.
    Connection,
    /// Anything else.
    Other,
}

/// A database failure, reduced to what its classification reads.
#[derive(Clone, Debug, PartialEq, Eq)]
pub enum DatabaseFailure {
    /// PostgreSQL reported an error.
    Native(NativeSqlError),
    /// The driver failed.
    Driver(DriverFailure),
    /// The database layer failed.
    Layer(LayerFailure),
}

/// The class, or ambiguity where a commit is in flight.
pub open spec fn unless_committing(
    phase: SqlOperationPhase,
    otherwise: SqlFailureClass<Seq<char>>,
) -> SqlFailureClass<Seq<char>> {
    if phase == SqlOperationPhase::Commit {
        SqlFailureClass::AmbiguousCommit
    } else {
        otherwise
    }
}

/// Class of a failure that no rule names.
pub open spec fn unnamed_class(phase: SqlOperationPhase) -> SqlFailureClass<Seq<char>> {
    if phase == SqlOperationPhase::DecodeRow {
        SqlFailureClass::Corruption
    } else {
        unless_committing(phase, SqlFailureClass::Internal)
    }
}

/// Class of a database failure in a phase.
pub open spec fn failure_class(
    phase: SqlOperationPhase,
    failure: FailureView,
) -> SqlFailureClass<Seq<char>> {
    match failure {
        FailureView::Native(code, constraint) => sqlstate::sqlstate_class(phase, code, constraint),
        FailureView::Driver(driver) => match driver {
            DriverFailure::PoolTimedOut => unless_committing(phase, SqlFailureClass::Timeout),
            DriverFailure::Io => unless_committing(phase, SqlFailureClass::Unavailable),
            DriverFailure::Tls => unless_committing(phase, SqlFailureClass::Unavailable),
            DriverFailure::PoolClosed => unless_committing(phase, SqlFailureClass::Unavailable),
            DriverFailure::WorkerCrashed => unless_committing(phase, SqlFailureClass::Unavailable),
            DriverFailure::ColumnDecode => SqlFailureClass::Corruption,
            DriverFailure::Decode => SqlFailureClass::Corruption,
            DriverFailure::Other => unnamed_class(phase),
        },
        FailureView::Layer(layer) => match layer {
            LayerFailure::AcquireTimeout => unless_committing(phase, SqlFailureClass::Timeout),
            LayerFailure::AcquireClosed => unless_committing(phase, SqlFailureClass::Unavailable),
            LayerFailure::Connection => unless_committing(phase, SqlFailureClass::Unavailable),
            LayerFailure::Other => unnamed_class(phase),
        },
    }
}

/// A class that turns ambiguous while a commit is in flight.
pub fn commit_or(phase: SqlOperationPhase, otherwise: SqlFailureClass) -> (result: SqlFailureClass)
    ensures
        result@ == unless_committing(phase, otherwise@),
{
    if phase == SqlOperationPhase::Commit {
        SqlFailureClass::AmbiguousCommit
    } else {
        otherwise
    }
}

fn unnamed(phase: SqlOperationPhase) -> (result: SqlFailureClass)
    ensures
        result@ == unnamed_class(phase),
{
    if phase == SqlOperationPhase::DecodeRow {
        SqlFailureClass::Corruption
    } else {
        commit_or(phase, SqlFailureClass::Internal)
    }
}

/// Classifies a database failure by its phase and native details.
pub fn classify_failure(phase: SqlOperationPhase, failure: &DatabaseFailure) -> (result:
    SqlFailureClass)
    ensures
        result@ == failure_class(phase, failure@),
{
    match failure {
        DatabaseFailure::Native(native) => classify_sqlstate(
            phase,
            native.sqlstate(),
            native.constraint(),
        ),
        DatabaseFailure::Driver(driver) => match driver {
            DriverFailure::PoolTimedOut => commit_or(phase, SqlFailureClass::Timeout),
            DriverFailure::Io
            | DriverFailure::Tls
            | DriverFailure::PoolClosed
            | DriverFailure::WorkerCrashed => commit_or(phase, SqlFailureClass::Unavailable),
            DriverFailure::ColumnDecode | DriverFailure::Decode => SqlFailureClass::Corruption,
            DriverFailure::Other => unnamed(phase),
        },
        DatabaseFailure::Layer(layer) => match layer {
            LayerFailure::AcquireTimeout => commit_or(phase, SqlFailureClass::Timeout),
            LayerFailure::AcquireClosed | LayerFailure::Connection => commit_or(
                phase,
                SqlFailureClass::Unavailable,
            ),
            LayerFailure::Other => unnamed(phase),
        },
    }
}

/// The driver failure inside a database failure.
pub uninterp spec fn driver_part(error: DbErr) -> Option<SqlxError>;

/// The native code and constraint name of a driver failure.
pub uninterp spec fn native_part(error: SqlxError) -> Option<(Seq<char>, Option<Seq<char>>)>;

/// The shape of a driver failure.
pub uninterp spec fn driver_shape(error: SqlxError) -> DriverFailure;

/// The shape of a failure of the database layer.
pub uninterp spec fn layer_shape(error: DbErr) -> LayerFailure;

/// The driver failure inside a `sea_orm::DbErr`: the payload of its `Conn`,
/// `Exec` and `Query` variants where that is a `RuntimeErr::SqlxError`. The
/// value is opaque, so which failures hold one stays a name.
#[verifier::external_body]
fn driver_error(error: &DbErr) -> (result: Option<&SqlxError>)
    ensures
        match result {
            Some(driver) => driver_part(*error) == Some(*driver),
            None => driver_part(*error) is None,
        },
{
    match error {
        DbErr::Conn(RuntimeErr::SqlxError(error))
        | DbErr::Exec(RuntimeErr::SqlxError(error))
        | DbErr::Query(RuntimeErr::SqlxError(error)) => Some(error),
        _ => None,
    }
}

/// The details that `sqlx::Error::as_database_error` gives through `code` and
/// `constraint`; there are none without a code. The value is opaque, so the
/// details stay a name.
#[verifier::external_body]
fn native_details(error: &SqlxError) -> (result: Option<NativeSqlError>)
    ensures
        match result {
            Some(native) => native_part(*error) == Some(
                (native.sqlstate@, native.constraint_text()),
            ),
            None => native_part(*error) is None,
        },
{
    let database = error.as_database_error()?;
    Some(
        NativeSqlError {
            sqlstate: database.code()?.into_owned(),
            constraint: database.constraint().map(str::to_owned),
        },
    )
}

/// The variant of a `sqlx::Error`. The value is opaque, so the variant stays a
/// name.
#[verifier::external_body]
fn driver_failure(error: &SqlxError) -> (result: DriverFailure)
    ensures
        result == driver_shape(*error),
{
    match error {
        SqlxError::PoolTimedOut => DriverFailure::PoolTimedOut,
        SqlxError::Io(_) => DriverFailure::Io,
        SqlxError::Tls(_) => DriverFailure::Tls,
        SqlxError::PoolClosed => DriverFailure::PoolClosed,
        SqlxError::WorkerCrashed => DriverFailure::WorkerCrashed,
        SqlxError::ColumnDecode { .. } => DriverFailure::ColumnDecode,
        SqlxError::Decode(_) => DriverFailure::Decode,
        _ => DriverFailure::Other,
    }
}

/// The variant of a `sea_orm::DbErr`. The value is opaque, so the variant
/// stays a name.
#[verifier::external_body]
fn layer_failure(error: &DbErr) -> (result: LayerFailure)
    ensures
        result == layer_shape(*error),
{
    match error {
        DbErr::ConnectionAcquire(ConnAcquireErr::Timeout) => LayerFailure::AcquireTimeout,
        DbErr::ConnectionAcquire(ConnAcquireErr::ConnectionClosed) => LayerFailure::AcquireClosed,
        DbErr::Conn(_) => LayerFailure::Connection,
        _ => LayerFailure::Other,
    }
}

/// A database failure as contracts speak of it.
pub enum FailureView {
    /// PostgreSQL reported an error with a code and perhaps a constraint.
    Native(Seq<char>, Option<Seq<char>>),
    /// The driver failed.
    Driver(DriverFailure),
    /// The database layer failed.
    Layer(LayerFailure),
}

impl View for DatabaseFailure {
    type V = FailureView;

    open spec fn view(&self) -> FailureView {
        match self {
            DatabaseFailure::Native(native) => FailureView::Native(
                native.sqlstate@,
                native.constraint_text(),
            ),
            DatabaseFailure::Driver(driver) => FailureView::Driver(*driver),
            DatabaseFailure::Layer(layer) => FailureView::Layer(*layer),
        }
    }
}

/// What the classification reads of a failure: native details before the
/// driver's failure before the layer's.
pub open spec fn described(error: DbErr) -> FailureView {
    match driver_part(error) {
        Some(driver) => match native_part(driver) {
            Some(native) => FailureView::Native(native.0, native.1),
            None => FailureView::Driver(driver_shape(driver)),
        },
        None => FailureView::Layer(layer_shape(error)),
    }
}

/// The native PostgreSQL details of a failure, where it has any.
pub fn native_sql_error(error: &DbErr) -> (result: Option<NativeSqlError>)
    ensures
        match result {
            Some(native) => described(*error) == FailureView::Native(
                native.sqlstate@,
                native.constraint_text(),
            ),
            None => !(described(*error) is Native),
        },
{
    match driver_error(error) {
        Some(driver) => native_details(driver),
        None => None,
    }
}

/// Reduces a failure to what its classification reads: native details before
/// the driver's failure before the layer's.
pub fn describe_failure(error: &DbErr) -> (result: DatabaseFailure)
    ensures
        result@ == described(*error),
{
    match driver_error(error) {
        Some(driver) => match native_details(driver) {
            Some(native) => DatabaseFailure::Native(native),
            None => DatabaseFailure::Driver(driver_failure(driver)),
        },
        None => DatabaseFailure::Layer(layer_failure(error)),
    }
}

/// Classifies a failure by its phase and native details.
pub fn classify_database_error(phase: SqlOperationPhase, error: &DbErr) -> (result: SqlFailureClass)
    ensures
        result@ == failure_class(phase, described(*error)),
{
    let failure = describe_failure(error);
    classify_failure(phase, &failure)
}

/// Whatever fails outside of a commit, the outcome is not open.
pub proof fn law_only_commit_failures_are_ambiguous(
    phase: SqlOperationPhase,
    failure: FailureView,
)
    requires
        phase != SqlOperationPhase::Commit,
    ensures
        !(failure_class(phase, failure) is AmbiguousCommit),
{
}

/// Checks an affected-row count against an inclusive range.
pub fn validate_rows_affected(actual: u64, least: u64, most: u64) -> (result: Result<u64, u64>)
    ensures
        result == (if least <= actual <= most {
            Ok::<u64, u64>(actual)
        } else {
            Err(actual)
        }),
{
    if least <= actual && actual <= most {
        Ok(actual)
    } else {
        Err(actual)
    }
}

} // verus!
