//! The authoritative lease clock.
use vstd::prelude::*;

use sea_orm::DbErr;

use crate::database;
use crate::failure;
use crate::failure::{
    AdapterFailureKind, FailureCause, PostgresStateError, StateStoreOperation, failure_text,
};
use crate::ids::LeaseDeadline;
use crate::message;
use crate::numeric;
use crate::numeric::{decode_u64, NumericCodecError};
use crate::sqlstate::SqlOperationPhase;
use crate::testing;
use crate::testing::{DatabaseManualClock, DatabaseManualClockError, TestLeaseClockSource};
use crate::text::copy_text;

verus! {

/// Microseconds of one lease tick.
pub const LEASE_TICK_UNIT_MICROSECONDS: u64 = 1;

/// Lease ticks of one second.
pub const LEASE_TICKS_PER_SECOND: u64 = 1_000_000;

/// Text that observes the database clock once, in whole microseconds.
pub const DATABASE_CLOCK_SQL: &'static str =
    "WITH observed_clock AS MATERIALIZED (SELECT pg_catalog.clock_timestamp() AS observed_at) SELECT (pg_catalog.trunc(EXTRACT(EPOCH FROM observed_at) * 1000000::numeric)::numeric(20, 0))::text AS lease_tick FROM observed_clock";

/// Lease clock of one store.
#[derive(Clone, Copy, Debug, PartialEq, Eq)]
pub enum LeaseClockSource {
    /// The clock of the database.
    Database,
    /// A manual clock in the control schema.
    Manual(DatabaseManualClock),
}

/// The lease clock that a selection stands for.
pub open spec fn selected_clock(source: TestLeaseClockSource) -> LeaseClockSource {
    match source {
        TestLeaseClockSource::Database => LeaseClockSource::Database,
        TestLeaseClockSource::Manual(clock) => LeaseClockSource::Manual(clock),
    }
}

impl From<TestLeaseClockSource> for LeaseClockSource {
    fn from(source: TestLeaseClockSource) -> (result: Self) {
        match source {
            TestLeaseClockSource::Database => LeaseClockSource::Database,
            TestLeaseClockSource::Manual(clock) => LeaseClockSource::Manual(clock),
        }
    }
}

impl vstd::std_specs::convert::FromSpecImpl<TestLeaseClockSource> for LeaseClockSource {
    open spec fn obeys_from_spec() -> bool {
        true
    }

    open spec fn from_spec(source: TestLeaseClockSource) -> Self {
        selected_clock(source)
    }
}

/// Why the database clock could not be observed.
#[derive(Debug)]
pub enum DatabaseClockError {
    /// The query failed.
    Query(DbErr),
    /// The tick is no canonical number.
    InvalidTick(NumericCodecError),
}

/// Text of a failed observation, given that of the database failure in it.
pub open spec fn clock_text(error: DatabaseClockError, source: Seq<char>) -> Seq<char> {
    match error {
        DatabaseClockError::Query(_) => "database lease-clock query failed: "@ + source,
        DatabaseClockError::InvalidTick(error) => {
            "invalid database lease tick: "@ + message::numeric_text(error@)
        },
    }
}

impl DatabaseClockError {
    /// The text of the failure.
    pub fn text(&self) -> (result: String)
        ensures
            exists|source: Seq<char>| result@ == #[trigger] clock_text(*self, source),
    {
        match self {
            DatabaseClockError::Query(error) => self.text_with(failure_text(error).as_str()),
            _ => self.text_with(""),
        }
    }

    /// The text of the failure, given that of the database failure in it.
    pub fn text_with(&self, source: &str) -> (result: String)
        ensures
            result@ == clock_text(*self, source@),
    {
        match self {
            DatabaseClockError::Query(_) => copy_text(
                "database lease-clock query failed: ",
            ).concat(source),
            DatabaseClockError::InvalidTick(error) => copy_text(
                "invalid database lease tick: ",
            ).concat(error.text().as_str()),
        }
    }
}

/// Reads an observed tick.
pub fn decode_database_tick(numeric_text: &str) -> (result: Result<
    LeaseDeadline,
    DatabaseClockError,
>)
    ensures
        match result {
            Ok(deadline) => numeric::parses(numeric_text@) && deadline.value == numeric::parsed(
                numeric_text@,
            ),
            Err(error) => {
                &&& !numeric::parses(numeric_text@)
                &&& error matches DatabaseClockError::InvalidTick(invalid) && invalid@ == (
                NumericCodecError { field: "database_lease_tick", value: numeric_text@ })
            },
        },
{
    match decode_u64("database_lease_tick", numeric_text) {
        Ok(value) => Ok(LeaseDeadline { value }),
        Err(error) => Err(DatabaseClockError::InvalidTick(error)),
    }
}

/// The failure of an operation whose clock could not be observed.
pub fn clock_failure(operation: StateStoreOperation, error: DatabaseClockError) -> (result:
    PostgresStateError)
    ensures
        match error {
            DatabaseClockError::Query(source) => failure::reports_database(
                result@,
                operation,
                database::failure_class(
                    SqlOperationPhase::ExecuteStatement,
                    database::described(source),
                ),
                source,
            ),
            DatabaseClockError::InvalidTick(invalid) => result@ == failure::plain_failure(
                operation,
                AdapterFailureKind::Corruption,
                "",
                FailureCause::Numeric(invalid@),
            ),
        },
{
    match error {
        DatabaseClockError::Query(source) => PostgresStateError::from_database(
            operation,
            SqlOperationPhase::ExecuteStatement,
            source,
        ),
        DatabaseClockError::InvalidTick(invalid) => PostgresStateError::new(
            operation,
            AdapterFailureKind::Corruption,
            "",
            FailureCause::Numeric(invalid),
        ),
    }
}

/// The failure of an operation whose manual clock could not be observed.
pub fn manual_clock_failure(operation: StateStoreOperation, error: DatabaseManualClockError) -> (result:
    PostgresStateError)
    ensures
        match error {
            DatabaseManualClockError::Database(source) => failure::reports_database(
                result@,
                operation,
                database::failure_class(
                    SqlOperationPhase::ExecuteStatement,
                    database::described(source),
                ),
                source,
            ),
            _ => result@ == failure::plain_failure(
                operation,
                AdapterFailureKind::Corruption,
                "",
                FailureCause::Control(testing::control_text(error, Seq::empty())),
            ),
        },
{
    match error {
        DatabaseManualClockError::Database(source) => PostgresStateError::from_database(
            operation,
            SqlOperationPhase::ExecuteStatement,
            source,
        ),
        error => PostgresStateError::new(
            operation,
            AdapterFailureKind::Corruption,
            "",
            FailureCause::Control(error.text()),
        ),
    }
}

/// The failure of a test observation of the database clock.
pub fn observation_failure(error: DatabaseClockError) -> (result: DatabaseManualClockError)
    ensures
        result matches DatabaseManualClockError::ProductionClock(detail)
            && exists|source: Seq<char>| detail@ == #[trigger] clock_text(error, source),
{
    DatabaseManualClockError::ProductionClock(error.text())
}

/// The failure of a commit whose injected failure could not be taken.
pub fn injection_failure(error: DatabaseManualClockError) -> (result: PostgresStateError)
    ensures
        exists|source: Seq<char>|
            result@ == failure::plain_failure(
                StateStoreOperation::Commit,
                AdapterFailureKind::Internal,
                "",
                FailureCause::Control(#[trigger] testing::control_text(error, source)),
            ),
{
    PostgresStateError::new(
        StateStoreOperation::Commit,
        AdapterFailureKind::Internal,
        "",
        FailureCause::Control(error.text()),
    )
}

} // verus!
