//! What failures are reported as: the operation, the kind and what is kept.
use vstd::prelude::*;

use sea_orm::DbErr;

use crate::change;
use crate::change_plan;
use crate::change_plan::WriteExpectation;
use crate::commit;
use crate::commit::{CommitAction, CommitAttempt};
use crate::directory_page;
use crate::directory_page::DirectoryPageRow;
use crate::failure;
use crate::failure::{
    AdapterFailureKind, PostgresStateError, StateFailure, StateStoreOperation,
};
use crate::ids::{FilesystemId, QidPath, WriterScopeId};
use crate::key::RecordKey;
use crate::lease;
use crate::lease::{LeaseRequest, StoredOperationRow};
use crate::lease_attempt;
use crate::lease_staging;
use crate::lease_staging::FenceRow;
use crate::limits::StateLimits;
use crate::message;
use crate::page_law;
use crate::precondition;
use crate::precondition::MutationReplay;
use crate::publish;
use crate::query::ScanBounds;
use crate::read;
use crate::record::StateRecord;
use crate::record_write;
use crate::record_write::RecordWritePrepareError;
use crate::request::CommitRequest;
use crate::rows::SqlStateRecord;
use crate::scan;
use crate::scan::Candidate;
use crate::sqlstate::SqlFailureClass;

verus! {

/// A failure of an operation that no database error caused.
pub open spec fn is_own(
    failure: StateFailure,
    operation: StateStoreOperation,
    kind: AdapterFailureKind,
) -> bool {
    &&& failure.operation == operation
    &&& failure.kind == kind
    &&& failure.sql_failure is None
    &&& failure.source is None
}

/// Stored state that cannot be read fails the read as corruption.
pub proof fn law_unreadable_state_fails_reads(
    key: RecordKey<Seq<u8>>,
    filesystem_id: FilesystemId,
    path: QidPath,
    row: Option<SqlStateRecord<Seq<u8>, Seq<char>>>,
    text: Option<Seq<char>>,
    candidate: Candidate,
    found: Option<StateRecord<Seq<u8>, Seq<char>>>,
    limits: StateLimits,
)
    ensures
        read::point_failure(key, row, limits) matches Some(failure) ==> is_own(
            failure,
            StateStoreOperation::Read,
            AdapterFailureKind::Corruption,
        ),
        read::path_failure(filesystem_id, path, row, limits) matches Some(failure) ==> is_own(
            failure,
            StateStoreOperation::Read,
            AdapterFailureKind::Corruption,
        ),
        read::authority_failure(text) matches Some(failure) ==> is_own(
            failure,
            StateStoreOperation::Read,
            AdapterFailureKind::Corruption,
        ),
        scan::announced_failure(candidate, found) matches Some(failure) ==> is_own(
            failure,
            StateStoreOperation::Read,
            AdapterFailureKind::Corruption,
        ),
{
}

/// What a poll cannot read fails the poll as corruption, with the detail that
/// was found.
pub proof fn law_unreadable_state_fails_polls(detail: change::DetailView)
    ensures
        is_own(
            change::poll_corruption(detail),
            StateStoreOperation::PollChanges,
            AdapterFailureKind::Corruption,
        ),
        change::poll_corruption(detail).detail == detail,
{
}

/// What a commit reads and cannot make sense of fails it as corruption.
pub proof fn law_unreadable_state_fails_commits(
    request: CommitRequest,
    records: crate::table::Records,
    stored: StateRecord<Seq<u8>, Seq<char>>,
    replay: MutationReplay,
    field: &'static str,
    text: Seq<char>,
    index: int,
    rows: u64,
)
    ensures
        precondition::ledger_answer(stored, replay) matches Err(failure) ==> is_own(
            failure,
            StateStoreOperation::Commit,
            AdapterFailureKind::Corruption,
        ),
        publish::revision_failure(field, text) matches Some(failure) ==> is_own(
            failure,
            StateStoreOperation::Commit,
            AdapterFailureKind::Corruption,
        ),
        precondition::pin_answer(request, records, index, text) matches Err(failure) ==> is_own(
            failure,
            StateStoreOperation::Commit,
            AdapterFailureKind::Corruption,
        ),
        is_own(
            commit::several_rows(rows),
            StateStoreOperation::Commit,
            AdapterFailureKind::Corruption,
        ),
{
}

/// A write that should have affected one row fails as corruption where it
/// affected several, and as a fault of the store's own where an insertion
/// affected none; an update that affected another number is a conflict.
pub proof fn law_miscounted_writes_fail(
    request: CommitRequest,
    key: RecordKey<Seq<u8>>,
    expect: WriteExpectation,
    rows: u64,
)
    ensures
        match change_plan::concluded(request, key, expect, rows) {
            Err(failure) => {
                &&& expect != WriteExpectation::Update
                &&& rows > 1 && is_own(
                    failure,
                    StateStoreOperation::Commit,
                    AdapterFailureKind::Corruption,
                ) || rows == 0 && expect == WriteExpectation::Insert && is_own(
                    failure,
                    StateStoreOperation::Commit,
                    AdapterFailureKind::Internal,
                )
            },
            Ok(None) => rows == 1,
            Ok(Some(_)) => rows != 1 && expect != WriteExpectation::Insert,
        },
{
}

/// What a request must not ask for by the time it is written fails as a fault of
/// the store's own.
pub proof fn law_faulty_requests_fail_as_faults(
    target: RecordKey<Seq<u8>>,
    error: RecordWritePrepareError<Seq<char>>,
)
    ensures
        is_own(
            publish::twice_failure(target),
            StateStoreOperation::Commit,
            AdapterFailureKind::Internal,
        ),
        is_own(
            publish::ledger_failure(),
            StateStoreOperation::Commit,
            AdapterFailureKind::Internal,
        ),
        is_own(
            publish::count_failure(),
            StateStoreOperation::Commit,
            AdapterFailureKind::Internal,
        ),
        is_own(
            record_write::prepare_failure(error),
            StateStoreOperation::Commit,
            AdapterFailureKind::Internal,
        ),
{
}

/// A record can be written as a change exactly where it stands under its key
/// and is neither a retained mutation nor a writer lease.
pub proof fn law_writable_records_stand_under_their_key(
    filesystem_id: FilesystemId,
    key: RecordKey<Seq<u8>>,
    record: StateRecord<Seq<u8>, Seq<char>>,
)
    requires
        crate::key::key_filesystem(key) == filesystem_id,
    ensures
        record_write::prepare_refusal(key, record) is None <==> page_law::stands_under(
            filesystem_id,
            key,
            record,
        ) && !(record is Mutation) && !(record is WriterLease),
{
}

/// An attempt without a following revision fails as corruption, and one that
/// gave up for an injected failure as unavailable.
pub proof fn law_attempts_without_an_answer_fail(
    before: CommitAttempt,
    after: CommitAttempt,
    result: Result<CommitAction, PostgresStateError>,
)
    ensures
        after.searches(result) && after.search.index >= after.search.locks@.len()
            && after.search.found is None && after.current.value == u64::MAX ==> result is Err
            && is_own(
            result->Err_0@,
            StateStoreOperation::Commit,
            AdapterFailureKind::Corruption,
        ),
        before.outcome is None && before.after_rollback(after, result) ==> result is Err && is_own(
            result->Err_0@,
            StateStoreOperation::Commit,
            AdapterFailureKind::Unavailable,
        ),
{
}

/// What a lease operation cannot read fails that operation as corruption, and
/// so does a statement that did not affect its one row; rules that change their
/// mind are a fault.
pub proof fn law_lease_failures_are_of_their_operation(
    request: LeaseRequest,
    filesystem_id: FilesystemId,
    scope: WriterScopeId,
    stored: StoredOperationRow,
    row: FenceRow,
    text: Seq<char>,
    operation: StateStoreOperation,
    affected: u64,
    action: &'static str,
    limits: StateLimits,
)
    ensures
        lease::stored_failure(stored, operation) matches Some(failure) ==> is_own(
            failure,
            operation,
            AdapterFailureKind::Corruption,
        ),
        lease_staging::fence_failure(filesystem_id, scope, row, limits, operation) matches Some(
            failure,
        ) ==> is_own(failure, operation, AdapterFailureKind::Corruption),
        lease_staging::head_failure(text, operation) matches Some(failure) ==> is_own(
            failure,
            operation,
            AdapterFailureKind::Corruption,
        ),
        lease_staging::row_count_failure(affected, operation, action) is Some <==> affected != 1,
        lease_staging::row_count_failure(affected, operation, action) matches Some(failure)
            ==> is_own(failure, operation, AdapterFailureKind::Corruption),
        is_own(
            lease_attempt::wavering(request),
            match request {
                LeaseRequest::Acquire(_) => StateStoreOperation::AcquireLease,
                LeaseRequest::Renew(_) => StateStoreOperation::RenewLease,
                LeaseRequest::Release(_) => StateStoreOperation::ReleaseLease,
            },
            AdapterFailureKind::Internal,
        ),
        is_own(
            lease_attempt::family_failure(operation),
            operation,
            AdapterFailureKind::Internal,
        ),
{
}

/// A failure that a database error caused keeps the operation, the class and
/// the error itself.
pub proof fn law_database_errors_are_kept(
    reported: StateFailure,
    operation: StateStoreOperation,
    class: SqlFailureClass<Seq<char>>,
    error: DbErr,
)
    requires
        failure::reports_database(reported, operation, class, error),
    ensures
        reported.operation == operation,
        reported.sql_failure == Some(class),
        reported.source == Some(error),
        reported.kind == failure::adapter_kind(class),
{
}

proof fn lemma_page_failures(
    rows: Seq<DirectoryPageRow>,
    limits: StateLimits,
    from: int,
    count: int,
)
    requires
        0 <= from,
    ensures
        directory_page::first_failure(rows, limits, from, count) matches Some(failure) ==> is_own(
            failure,
            StateStoreOperation::Read,
            AdapterFailureKind::Corruption,
        ),
    decreases count - from,
{
    if from < count {
        lemma_page_failures(rows, limits, from + 1, count);
    }
}

/// A directory page whose rows cannot be read fails the read as corruption.
pub proof fn law_unreadable_pages_fail_reads(
    rows: Seq<DirectoryPageRow>,
    bounds: ScanBounds,
    limits: StateLimits,
)
    ensures
        directory_page::page_failure(rows, bounds, limits) matches Some(failure) ==> is_own(
            failure,
            StateStoreOperation::Read,
            AdapterFailureKind::Corruption,
        ),
{
    lemma_page_failures(rows, limits, 0, directory_page::examined(rows, bounds));
}

/// The word for a kind of failure.
pub open spec fn kind_word(kind: AdapterFailureKind) -> Seq<char> {
    match kind {
        AdapterFailureKind::Serialization => "Serialization"@,
        AdapterFailureKind::Timeout => "Timeout"@,
        AdapterFailureKind::Unavailable => "Unavailable"@,
        AdapterFailureKind::Unsupported => "Unsupported"@,
        AdapterFailureKind::Corruption => "Corruption"@,
        AdapterFailureKind::Internal => "Internal"@,
    }
}

/// The word for an operation.
pub open spec fn operation_word(operation: StateStoreOperation) -> Seq<char> {
    match operation {
        StateStoreOperation::Read => "Read"@,
        StateStoreOperation::Commit => "Commit"@,
        StateStoreOperation::PollChanges => "PollChanges"@,
        StateStoreOperation::AcquireLease => "AcquireLease"@,
        StateStoreOperation::RenewLease => "RenewLease"@,
        StateStoreOperation::ReleaseLease => "ReleaseLease"@,
    }
}

/// The text of a failure names its kind and its operation and ends with its
/// detail; a detail without a further cause is its context alone.
pub proof fn law_failure_texts_say_what_failed(reported: StateFailure)
    ensures
        message::state_text(reported) == "PostgreSQL "@ + kind_word(reported.kind)
            + " failure during "@ + operation_word(reported.operation) + ": "@
            + message::detail_text(reported.detail),
        reported.detail.cause is Plain ==> message::detail_text(reported.detail)
            == reported.detail.context@,
{
}

} // verus!
