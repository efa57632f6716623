//! Typed failures of the adapter.
use vstd::prelude::*;

use sea_orm::DbErr;

use crate::database;
use crate::database::{classify_failure, describe_failure};
use crate::ids::{InvalidValue, QidPath};
use crate::key::RecordKey;
use crate::key_codec::KeyCodecError;
use crate::numeric::NumericCodecError;
use crate::query::ScanResume;
use crate::request::MalformedCommit;
use crate::row_codec::RowCodecError;
use crate::sqlstate::{SqlFailureClass, SqlOperationPhase};
use crate::values::BoundedValueError;

verus! {

/// Operation of the state store.
#[derive(Clone, Copy, Debug, PartialEq, Eq, Structural)]
pub enum StateStoreOperation {
    /// Snapshot read.
    Read,
    /// Metadata commit.
    Commit,
    /// Change poll.
    PollChanges,
    /// Lease acquisition.
    AcquireLease,
    /// Lease renewal.
    RenewLease,
    /// Lease release.
    ReleaseLease,
}

/// Kind of a definitive adapter failure.
#[derive(Clone, Copy, Debug, PartialEq, Eq, Structural)]
pub enum AdapterFailureKind {
    /// The transaction lost a race and was aborted.
    Serialization,
    /// A deadline passed.
    Timeout,
    /// The database cannot be reached.
    Unavailable,
    /// The route or request is not supported.
    Unsupported,
    /// Persisted state is corrupt.
    Corruption,
    /// The adapter broke one of its own rules.
    Internal,
}

/// What a failure was about.
#[derive(Clone, Debug, PartialEq, Eq)]
pub enum FailureCause<B = Vec<u8>, T = String> {
    /// No further cause.
    Plain,
    /// A fixed word.
    Word(&'static str),
    /// A number.
    Count(u64),
    /// A signed number.
    Signed(i64),
    /// A signed number that ends the sentence of the context.
    Ending(i64),
    /// A fixed-width identity of another length.
    Width {
        /// Name of the identity.
        field: &'static str,
        /// What was found.
        actual: usize,
    },
    /// A fixed-width identity of a retained grant of another length.
    GrantWidth {
        /// Name of the identity.
        field: &'static str,
        /// What was found.
        actual: usize,
    },
    /// An inode identity of another length.
    InodeWidth(usize),
    /// A change does not follow the one before it.
    Gap {
        /// Revision of the change before it.
        after: u64,
        /// Revision that was found.
        found: u64,
    },
    /// The logged changes end too early.
    HistoryEnd {
        /// Revision of the last one.
        last: u64,
        /// Revision of the authority.
        current: u64,
    },
    /// A change has too few logged keys.
    FewerKeys {
        /// Revision of the change.
        revision: u64,
        /// Number of keys that it announces.
        count: u32,
    },
    /// A logged key stands where another one should.
    UnexpectedKey {
        /// Revision of the key.
        revision: u64,
        /// Ordinal of the key.
        ordinal: u32,
    },
    /// A write of one record affected several rows.
    PointWrite(u64),
    /// A statement on one row did not affect exactly one.
    OneRow {
        /// What was being done.
        action: &'static str,
        /// Affected rows.
        affected: u64,
    },
    /// A number that is not canonical.
    Numeric(NumericCodecError<T>),
    /// A number out of its domain.
    Value(InvalidValue),
    /// A bounded value out of bounds.
    Bounded(BoundedValueError),
    /// A row that is no record.
    Row(RowCodecError<T>),
    /// Components that are no key.
    Key(KeyCodecError),
    /// A record.
    Record(RecordKey<B>),
    /// A record that stands under a path number without being an inode with it.
    Path {
        /// What was asked for.
        path: QidPath,
        /// What was found.
        actual: RecordKey<B>,
    },
    /// A record that stands for another one.
    Mismatch {
        /// What was asked for.
        expected: RecordKey<B>,
        /// What was found.
        actual: RecordKey<B>,
    },
    /// Two sizes of one record that differ.
    Estimate {
        /// The record.
        key: RecordKey<B>,
        /// Size that the database computed.
        stored: usize,
        /// Size of the decoded record.
        decoded: usize,
    },
    /// Two neighbouring positions out of order.
    Order {
        /// The position that came first.
        previous: ScanResume<B>,
        /// The position after it.
        next: ScanResume<B>,
    },
    /// A request that contradicts itself.
    Malformed(MalformedCommit<B>),
    /// The text of a database failure.
    Database(T),
    /// The text of a failed test control.
    Control(T),
    /// Why the rules of the state contract refuse a value.
    Refusal(T),
}

impl View for FailureCause<Vec<u8>, String> {
    type V = FailureCause<Seq<u8>, Seq<char>>;

    open spec fn view(&self) -> FailureCause<Seq<u8>, Seq<char>> {
        match self {
            FailureCause::Plain => FailureCause::Plain,
            FailureCause::Word(cause) => FailureCause::Word(*cause),
            FailureCause::Count(cause) => FailureCause::Count(*cause),
            FailureCause::Signed(cause) => FailureCause::Signed(*cause),
            FailureCause::Ending(cause) => FailureCause::Ending(*cause),
            FailureCause::Width { field, actual } => FailureCause::Width {
                field: *field,
                actual: *actual,
            },
            FailureCause::GrantWidth { field, actual } => FailureCause::GrantWidth {
                field: *field,
                actual: *actual,
            },
            FailureCause::InodeWidth(cause) => FailureCause::InodeWidth(*cause),
            FailureCause::Gap { after, found } => FailureCause::Gap {
                after: *after,
                found: *found,
            },
            FailureCause::HistoryEnd { last, current } => FailureCause::HistoryEnd {
                last: *last,
                current: *current,
            },
            FailureCause::FewerKeys { revision, count } => FailureCause::FewerKeys {
                revision: *revision,
                count: *count,
            },
            FailureCause::UnexpectedKey { revision, ordinal } => FailureCause::UnexpectedKey {
                revision: *revision,
                ordinal: *ordinal,
            },
            FailureCause::PointWrite(cause) => FailureCause::PointWrite(*cause),
            FailureCause::OneRow { action, affected } => FailureCause::OneRow {
                action: *action,
                affected: *affected,
            },
            FailureCause::Numeric(cause) => FailureCause::Numeric(cause@),
            FailureCause::Value(cause) => FailureCause::Value(*cause),
            FailureCause::Bounded(cause) => FailureCause::Bounded(*cause),
            FailureCause::Row(cause) => FailureCause::Row(cause@),
            FailureCause::Key(cause) => FailureCause::Key(*cause),
            FailureCause::Record(cause) => FailureCause::Record(cause@),
            FailureCause::Path { path, actual } => FailureCause::Path {
                path: *path,
                actual: actual@,
            },
            FailureCause::Mismatch { expected, actual } => FailureCause::Mismatch {
                expected: expected@,
                actual: actual@,
            },
            FailureCause::Estimate { key, stored, decoded } => FailureCause::Estimate {
                key: key@,
                stored: *stored,
                decoded: *decoded,
            },
            FailureCause::Order { previous, next } => FailureCause::Order {
                previous: previous@,
                next: next@,
            },
            FailureCause::Malformed(cause) => FailureCause::Malformed(cause@),
            FailureCause::Database(cause) => FailureCause::Database(cause@),
            FailureCause::Control(cause) => FailureCause::Control(cause@),
            FailureCause::Refusal(cause) => FailureCause::Refusal(cause@),
        }
    }
}

/// Detail of a failure: what was being done, and what went wrong.
#[derive(Clone, Debug, PartialEq, Eq)]
pub struct FailureDetail<B = Vec<u8>, T = String> {
    /// What was being done, or the whole detail; empty where the cause says all.
    pub context: &'static str,
    /// What went wrong.
    pub cause: FailureCause<B, T>,
}

impl View for FailureDetail<Vec<u8>, String> {
    type V = FailureDetail<Seq<u8>, Seq<char>>;

    open spec fn view(&self) -> FailureDetail<Seq<u8>, Seq<char>> {
        FailureDetail { context: self.context, cause: self.cause@ }
    }
}

/// Mathematical content of a state-store failure.
pub struct StateFailure {
    /// Operation that failed.
    pub operation: StateStoreOperation,
    /// Kind of failure.
    pub kind: AdapterFailureKind,
    /// Detail.
    pub detail: FailureDetail<Seq<u8>, Seq<char>>,
    /// Class of the database failure, where there was one.
    pub sql_failure: Option<SqlFailureClass<Seq<char>>>,
    /// Underlying database failure.
    pub source: Option<DbErr>,
}

/// Definitive infrastructure failure of a state-store operation.
#[derive(Debug)]
pub struct PostgresStateError {
    /// Operation that failed.
    pub operation: StateStoreOperation,
    /// Kind of failure.
    pub kind: AdapterFailureKind,
    /// Detail.
    pub detail: FailureDetail,
    /// Class of the database failure, where there was one.
    pub sql_failure: Option<SqlFailureClass>,
    /// Underlying database failure.
    pub source: Option<DbErr>,
}

impl View for PostgresStateError {
    type V = StateFailure;

    open spec fn view(&self) -> StateFailure {
        StateFailure {
            operation: self.operation,
            kind: self.kind,
            detail: self.detail@,
            sql_failure: match self.sql_failure {
                Some(class) => Some(class@),
                None => None,
            },
            source: self.source,
        }
    }
}

/// A failure that no database error caused.
pub open spec fn plain_failure(
    operation: StateStoreOperation,
    kind: AdapterFailureKind,
    context: &'static str,
    cause: FailureCause<Seq<u8>, Seq<char>>,
) -> StateFailure {
    StateFailure {
        operation,
        kind,
        detail: FailureDetail { context, cause },
        sql_failure: None,
        source: None,
    }
}

/// A failure that a database error caused, of a class. The error is kept as its
/// source, and its text is the detail.
pub open spec fn database_failure(
    operation: StateStoreOperation,
    class: SqlFailureClass<Seq<char>>,
    error: DbErr,
    text: Seq<char>,
) -> StateFailure {
    StateFailure {
        operation,
        kind: adapter_kind(class),
        detail: FailureDetail {
            context: "",
            cause: FailureCause::Database(text),
        },
        sql_failure: Some(class),
        source: Some(error),
    }
}

/// A failure reports a database error of a class, whatever text the error has.
pub open spec fn reports_database(
    failure: StateFailure,
    operation: StateStoreOperation,
    class: SqlFailureClass<Seq<char>>,
    error: DbErr,
) -> bool {
    exists|text: Seq<char>| failure == #[trigger] database_failure(operation, class, error, text)
}

/// The kind of failure that a class of database errors is reported as.
pub open spec fn adapter_kind(class: SqlFailureClass<Seq<char>>) -> AdapterFailureKind {
    match class {
        SqlFailureClass::RetryIdentical(_) => AdapterFailureKind::Serialization,
        SqlFailureClass::Timeout => AdapterFailureKind::Timeout,
        SqlFailureClass::ReadOnly => AdapterFailureKind::Unsupported,
        SqlFailureClass::Unavailable => AdapterFailureKind::Unavailable,
        SqlFailureClass::AmbiguousCommit => AdapterFailureKind::Unavailable,
        SqlFailureClass::Corruption => AdapterFailureKind::Corruption,
        SqlFailureClass::KnownConstraint(_) => AdapterFailureKind::Internal,
        SqlFailureClass::Internal => AdapterFailureKind::Internal,
    }
}

/// The kind of failure that a class of database errors is reported as.
pub fn failure_kind(class: &SqlFailureClass) -> (result: AdapterFailureKind)
    ensures
        result == adapter_kind(class@),
{
    match class {
        SqlFailureClass::RetryIdentical(_) => AdapterFailureKind::Serialization,
        SqlFailureClass::Timeout => AdapterFailureKind::Timeout,
        SqlFailureClass::ReadOnly => AdapterFailureKind::Unsupported,
        SqlFailureClass::Unavailable => AdapterFailureKind::Unavailable,
        SqlFailureClass::AmbiguousCommit => AdapterFailureKind::Unavailable,
        SqlFailureClass::Corruption => AdapterFailureKind::Corruption,
        SqlFailureClass::KnownConstraint(_) => AdapterFailureKind::Internal,
        SqlFailureClass::Internal => AdapterFailureKind::Internal,
    }
}

/// The text of a `sea_orm::DbErr`, as `Display` writes it. Nothing is claimed of
/// it: an error of the operating system in it may be worded by the machine.
#[verifier::external_body]
pub(crate) fn failure_text(error: &DbErr) -> (result: String) {
    error.to_string()
}

impl PostgresStateError {
    /// A failure without a database error.
    pub fn new(
        operation: StateStoreOperation,
        kind: AdapterFailureKind,
        context: &'static str,
        cause: FailureCause,
    ) -> (result: Self)
        ensures
            result@ == plain_failure(operation, kind, context, cause@),
    {
        PostgresStateError {
            operation,
            kind,
            detail: FailureDetail { context, cause },
            sql_failure: None,
            source: None,
        }
    }

    /// A failure that a database error with a text caused; the error is kept as
    /// its source, and the text is its detail.
    pub fn from_failure(
        operation: StateStoreOperation,
        phase: SqlOperationPhase,
        error: DbErr,
        text: String,
    ) -> (result: Self)
        ensures
            result@ == database_failure(
                operation,
                database::failure_class(phase, database::described(error)),
                error,
                text@,
            ),
    {
        let failure = describe_failure(&error);
        let class = classify_failure(phase, &failure);
        PostgresStateError {
            operation,
            kind: failure_kind(&class),
            detail: FailureDetail { context: "", cause: FailureCause::Database(text) },
            sql_failure: Some(class),
            source: Some(error),
        }
    }

    /// A failure that a database error caused; the error is kept as its source,
    /// and its text is the detail.
    pub fn from_database(
        operation: StateStoreOperation,
        phase: SqlOperationPhase,
        error: DbErr,
    ) -> (result: Self)
        ensures
            reports_database(
                result@,
                operation,
                database::failure_class(phase, database::described(error)),
                error,
            ),
    {
        let text = failure_text(&error);
        PostgresStateError::from_failure(operation, phase, error, text)
    }

    /// The kind of failure.
    pub fn kind(&self) -> (result: AdapterFailureKind)
        ensures
            result == self.kind,
    {
        self.kind
    }

    /// The operation that failed.
    pub fn operation(&self) -> (result: StateStoreOperation)
        ensures
            result == self.operation,
    {
        self.operation
    }

    /// The class of the database failure, where there was one.
    pub fn sql_failure(&self) -> (result: Option<SqlFailureClass>)
        ensures
            result == self.sql_failure,
    {
        self.sql_failure
    }

    /// The same failure of another operation.
    pub fn with_operation(self, operation: StateStoreOperation) -> (result: Self)
        ensures
            result.operation == operation,
            result.kind == self.kind,
            result.detail == self.detail,
            result.sql_failure == self.sql_failure,
            result.source == self.source,
    {
        PostgresStateError {
            operation,
            kind: self.kind,
            detail: self.detail,
            sql_failure: self.sql_failure,
            source: self.source,
        }
    }
}

} // verus!
