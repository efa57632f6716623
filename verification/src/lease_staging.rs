//! Writer fences as rows, and the statements that a lease operation runs.
use vstd::prelude::*;

use crate::bytes;
use crate::bytes::{copy_bytes, id_vec};
use crate::failure;
use crate::failure::{
    AdapterFailureKind, FailureCause, PostgresStateError, StateFailure, StateStoreOperation,
};
use crate::ids::{
    FencingToken, FilesystemId, InvalidValue, RecordRevision, StateRevision, WriterScopeId,
};
use crate::lease;
use crate::lease::{
    corruption, internal, retained_outcome, LeaseOperationOutcome, LeaseRequest, RetainedOutcome,
    WriterLeaseGrant, LEASE_CHANGE_ORIGIN_KIND, WRITER_LEASE_FAMILY_TAG,
};
use crate::limits::StateLimits;
use crate::numeric;
use crate::numeric::{decode_u64, NumericCodecError};
use crate::publish;
use crate::publish::{
    retained_change_cursor, ADVANCE_HEAD_SQL, DROP_COMMITS_SQL, DROP_KEYS_SQL,
};
use crate::record::{StateRecord, WriterLeaseRecord};
use crate::request::WriterFence;
use crate::row_codec;
use crate::rows::{SqlStateRecord, WriterLeaseRow};
use crate::statement;
use crate::statement::{query, PostgresQuery, SqlValue, StatementView};
use crate::text::copy_text;

verus! {

/// Text that reads a retained operation.
pub const LOAD_OPERATION_SQL: &'static str =
    "SELECT \"operation_kind\", \"request_fingerprint\", \"outcome_tag\", \"grant_scope_id\", \"grant_holder_id\", \"grant_lease_id\", \"grant_deadline_tick\"::text AS \"grant_deadline_tick\", \"grant_fencing_token\"::text AS \"grant_fencing_token\" FROM \"public\".\"w9pt_fs_state_writer_lease_operations\" WHERE \"filesystem_id\" = $1 AND \"lease_operation_id\" = $2";

/// Text that counts retained operations, up to a bound.
pub const COUNT_OPERATIONS_SQL: &'static str =
    "SELECT count(*)::bigint FROM (SELECT 1 FROM \"public\".\"w9pt_fs_state_writer_lease_operations\" WHERE \"filesystem_id\" = $1 LIMIT $2) AS \"bounded_history\"";

/// Text that locks and reads a writer fence.
pub const LOAD_FENCE_SQL: &'static str =
    "SELECT \"greatest_fencing_token\"::text AS \"greatest_fencing_token\", \"active_holder_id\", \"active_lease_id\", \"active_deadline_tick\"::text AS \"active_deadline_tick\", \"active_record_revision\"::text AS \"active_record_revision\" FROM \"public\".\"w9pt_fs_state_writer_fences\" WHERE \"filesystem_id\" = $1 AND \"writer_scope_id\" = $2 FOR UPDATE";

/// Text that writes a granted fence.
pub const WRITE_FENCE_SQL: &'static str =
    "INSERT INTO \"public\".\"w9pt_fs_state_writer_fences\" (\"filesystem_id\", \"writer_scope_id\", \"greatest_fencing_token\", \"active_holder_id\", \"active_lease_id\", \"active_deadline_tick\", \"active_record_revision\") VALUES ($1, $2, $3::numeric, $4, $5, $6::numeric, $7::numeric) ON CONFLICT (\"filesystem_id\", \"writer_scope_id\") DO UPDATE SET \"greatest_fencing_token\" = EXCLUDED.\"greatest_fencing_token\", \"active_holder_id\" = EXCLUDED.\"active_holder_id\", \"active_lease_id\" = EXCLUDED.\"active_lease_id\", \"active_deadline_tick\" = EXCLUDED.\"active_deadline_tick\", \"active_record_revision\" = EXCLUDED.\"active_record_revision\"";

/// Text that renews an active fence.
pub const RENEW_FENCE_SQL: &'static str =
    "UPDATE \"public\".\"w9pt_fs_state_writer_fences\" SET \"active_holder_id\" = $3, \"active_lease_id\" = $4, \"active_deadline_tick\" = $5::numeric, \"active_record_revision\" = $6::numeric WHERE \"filesystem_id\" = $1 AND \"writer_scope_id\" = $2";

/// Text that ends an active fence and keeps its greatest token.
pub const CLEAR_FENCE_SQL: &'static str =
    "UPDATE \"public\".\"w9pt_fs_state_writer_fences\" SET \"active_holder_id\" = NULL, \"active_lease_id\" = NULL, \"active_deadline_tick\" = NULL, \"active_record_revision\" = NULL WHERE \"filesystem_id\" = $1 AND \"writer_scope_id\" = $2";

/// Text that retains an operation.
pub const RETAIN_OPERATION_SQL: &'static str =
    "INSERT INTO \"public\".\"w9pt_fs_state_writer_lease_operations\" (\"filesystem_id\", \"lease_operation_id\", \"operation_kind\", \"request_fingerprint\", \"outcome_tag\", \"grant_scope_id\", \"grant_holder_id\", \"grant_lease_id\", \"grant_deadline_tick\", \"grant_fencing_token\") VALUES ($1, $2, $3, $4, $5, $6, $7, $8, $9::numeric, $10::numeric)";

/// Text that logs the change of a lease operation.
pub const LOG_LEASE_SQL: &'static str =
    "INSERT INTO \"public\".\"w9pt_fs_state_change_commits\" (\"filesystem_id\", \"revision\", \"origin_kind\", \"origin_id\", \"key_count\") VALUES ($1, $2::numeric, $3, $4, 1)";

/// Text that logs the key of a lease operation.
pub const LOG_LEASE_KEY_SQL: &'static str =
    "INSERT INTO \"public\".\"w9pt_fs_state_change_keys\" (\"filesystem_id\", \"revision\", \"ordinal\", \"family_tag\", \"component_a\", \"component_b\") VALUES ($1, $2::numeric, 0, $3, $4, NULL)";

/// Columns of a writer fence.
#[derive(Clone, Debug, PartialEq, Eq)]
pub struct FenceRow {
    /// Column `greatest_fencing_token`.
    pub greatest_fencing_token: String,
    /// Column `active_holder_id`.
    pub active_holder_id: Option<Vec<u8>>,
    /// Column `active_lease_id`.
    pub active_lease_id: Option<Vec<u8>>,
    /// Column `active_deadline_tick`.
    pub active_deadline_tick: Option<String>,
    /// Column `active_record_revision`.
    pub active_record_revision: Option<String>,
}

/// A locked writer fence.
#[derive(Clone, Copy, Debug, PartialEq, Eq, Structural)]
pub struct LockedFenceState {
    /// Greatest token ever granted.
    pub greatest: Option<FencingToken>,
    /// Active lease.
    pub current: Option<WriterLeaseRecord>,
}

/// The active lease that a fence row spells, as columns of a record.
pub open spec fn active_row(filesystem_id: FilesystemId, scope: WriterScopeId, row: FenceRow) -> Option<
    WriterLeaseRow<Seq<u8>, Seq<char>>,
> {
    match (
        row.active_holder_id,
        row.active_lease_id,
        row.active_deadline_tick,
        row.active_record_revision,
    ) {
        (Some(holder), Some(lease), Some(deadline), Some(revision)) => Some(
            WriterLeaseRow {
                filesystem_id: bytes::id_bytes(filesystem_id.value),
                writer_scope_id: bytes::id_bytes(scope.value),
                greatest_fencing_token: row.greatest_fencing_token@,
                active_holder_id: holder@,
                active_lease_id: lease@,
                active_deadline_tick: deadline@,
                active_record_revision: revision@,
            },
        ),
        _ => None,
    }
}

/// No lease is active in a fence row.
pub open spec fn inactive(row: FenceRow) -> bool {
    row.active_holder_id is None && row.active_lease_id is None && row.active_deadline_tick is None
        && row.active_record_revision is None
}

/// Why a fence row is corrupt.
pub open spec fn fence_failure(
    filesystem_id: FilesystemId,
    scope: WriterScopeId,
    row: FenceRow,
    limits: StateLimits,
    operation: StateStoreOperation,
) -> Option<StateFailure> {
    let token = row.greatest_fencing_token@;
    match lease::nonzero_cause("writer_fences.greatest_fencing_token", token) {
        Some(cause) => Some(
            lease::lease_corruption(operation, "", cause),
        ),
        None => if inactive(row) {
            None
        } else {
            match active_row(filesystem_id, scope, row) {
                None => Some(
                    lease::lease_corruption(
                        operation,
                        "writer-fence active fields are only partially present",
                        FailureCause::Plain,
                    ),
                ),
                Some(active) => match row_codec::row_failure(
                    SqlStateRecord::WriterLease(active),
                    limits,
                ) {
                    Some(error) => Some(
                        lease::lease_corruption(
                            operation,
                            "",
                            FailureCause::Row(error),
                        ),
                    ),
                    None => None,
                },
            }
        },
    }
}

/// The fence that an optional row spells.
pub open spec fn fence_state(
    filesystem_id: FilesystemId,
    scope: WriterScopeId,
    row: Option<FenceRow>,
) -> LockedFenceState {
    match row {
        Some(row) => LockedFenceState {
            greatest: Some(FencingToken { value: numeric::parsed(row.greatest_fencing_token@) }),
            current: match active_row(filesystem_id, scope, row) {
                Some(active) => Some(row_codec::writer_lease_row_record(active)),
                None => None,
            },
        },
        None => LockedFenceState { greatest: None, current: None },
    }
}

/// Reads a locked writer fence; without a row nothing was ever granted.
pub fn decode_fence(
    filesystem_id: FilesystemId,
    scope: WriterScopeId,
    row: Option<&FenceRow>,
    limits: StateLimits,
    operation: StateStoreOperation,
) -> (result: Result<LockedFenceState, PostgresStateError>)
    ensures
        match row {
            None => result == Ok::<LockedFenceState, PostgresStateError>(
                fence_state(filesystem_id, scope, None),
            ),
            Some(row) => match result {
                Ok(state) => fence_failure(filesystem_id, scope, *row, limits, operation) is None
                    && state == fence_state(filesystem_id, scope, Some(*row)),
                Err(error) => fence_failure(filesystem_id, scope, *row, limits, operation) == Some(
                    error@,
                ),
            },
        },
{
    let row = match row {
        Some(row) => row,
        None => {
            return Ok(LockedFenceState { greatest: None, current: None });
        },
    };
    let greatest: u64 = match decode_u64(
        "writer_fences.greatest_fencing_token",
        row.greatest_fencing_token.as_str(),
    ) {
        Ok(value) => value,
        Err(error) => {
            return Err(
                corruption(
                    operation,
                    "",
                    FailureCause::Numeric(error),
                ),
            );
        },
    };
    if greatest == 0 {
        return Err(
            corruption(
                operation,
                "",
                FailureCause::Value(InvalidValue::Zero),
            ),
        );
    }
    let current = match (
        &row.active_holder_id,
        &row.active_lease_id,
        &row.active_deadline_tick,
        &row.active_record_revision,
    ) {
        (None, None, None, None) => None,
        (Some(holder), Some(lease_id), Some(deadline), Some(revision)) => {
            let stored = SqlStateRecord::WriterLease(
                WriterLeaseRow {
                    filesystem_id: id_vec(filesystem_id.value),
                    writer_scope_id: id_vec(scope.value),
                    greatest_fencing_token: copy_text(row.greatest_fencing_token.as_str()),
                    active_holder_id: copy_bytes(holder),
                    active_lease_id: copy_bytes(lease_id),
                    active_deadline_tick: copy_text(deadline.as_str()),
                    active_record_revision: copy_text(revision.as_str()),
                },
            );
            match stored.decode(limits) {
                Ok((_, StateRecord::WriterLease(record))) => Some(record),
                Ok(_) => {
                    return Err(
                        internal(
                            operation,
                            "writer-fence row decoded to another record family",
                            FailureCause::Plain,
                        ),
                    );
                },
                Err(error) => {
                    return Err(
                        corruption(operation, "", FailureCause::Row(error)),
                    );
                },
            }
        },
        _ => {
            return Err(
                corruption(
                    operation,
                    "writer-fence active fields are only partially present",
                    FailureCause::Plain,
                ),
            );
        },
    };
    Ok(LockedFenceState { greatest: Some(FencingToken { value: greatest }), current })
}

/// Why the text of a locked authority head is no revision.
pub open spec fn head_failure(text: Seq<char>, operation: StateStoreOperation) -> Option<
    StateFailure,
> {
    if numeric::parses(text) && numeric::parsed(text) != 0 {
        None
    } else {
        Some(
            lease::lease_corruption(
                operation,
                "",
                FailureCause::Numeric(
                    NumericCodecError { field: "authority_head.current_revision", value: text },
                ),
            ),
        )
    }
}

/// Reads the revision of a locked authority head.
pub fn decode_head(text: &String, operation: StateStoreOperation) -> (result: Result<
    StateRevision,
    PostgresStateError,
>)
    ensures
        match result {
            Ok(revision) => head_failure(text@, operation) is None && revision.value
                == numeric::parsed(text@),
            Err(error) => head_failure(text@, operation) == Some(error@),
        },
{
    match decode_u64("authority_head.current_revision", text.as_str()) {
        Ok(value) => if value == 0 {
            let error = NumericCodecError {
                field: "authority_head.current_revision",
                value: copy_text(text.as_str()),
            };
            Err(corruption(operation, "", FailureCause::Numeric(error)))
        } else {
            Ok(StateRevision { value })
        },
        Err(error) => Err(
            corruption(operation, "", FailureCause::Numeric(error)),
        ),
    }
}

/// The statement that reads what is retained under an identity.
pub open spec fn load_operation(request: LeaseRequest) -> StatementView {
    statement::text_only(LOAD_OPERATION_SQL@).with_id(request.authority().value).with_id(
        request.identity().value,
    )
}

/// The statement that reads what is retained under an identity.
pub fn load_operation_statement(request: LeaseRequest) -> (result: PostgresQuery)
    ensures
        result@ == load_operation(request),
{
    query(LOAD_OPERATION_SQL).bind_id(request.filesystem_id().value).bind_id(
        request.operation_id().value,
    )
}

/// The statement that counts retained operations up to the limit.
pub open spec fn count_operations(filesystem_id: FilesystemId, limits: StateLimits) -> StatementView {
    statement::text_only(COUNT_OPERATIONS_SQL@).with_id(filesystem_id.value).with(
        SqlValue::Int8(Some(limits.values.max_lease_operation_history as i64)),
    )
}

/// The statement that counts retained operations up to the limit.
pub fn count_operations_statement(filesystem_id: FilesystemId, limits: StateLimits) -> (result:
    PostgresQuery)
    ensures
        result@ == count_operations(filesystem_id, limits),
{
    let maximum: i64 = limits.max_lease_operation_history() as i64;
    query(COUNT_OPERATIONS_SQL).bind_id(filesystem_id.value).bind(SqlValue::Int8(Some(maximum)))
}

/// Whether no further operation can be retained.
pub fn lease_history_full(retained: i64, limits: StateLimits) -> (result: bool)
    ensures
        result == (retained >= limits.values.max_lease_operation_history),
{
    retained >= limits.max_lease_operation_history() as i64
}

/// The statement that locks and reads a writer fence.
pub open spec fn load_fence(filesystem_id: FilesystemId, scope: WriterScopeId) -> StatementView {
    statement::text_only(LOAD_FENCE_SQL@).with_id(filesystem_id.value).with_id(scope.value)
}

/// The statement that locks and reads the fence of a request.
pub open spec fn locked_fence(request: LeaseRequest) -> StatementView {
    load_fence(request.authority(), request.scope_of())
}

/// The statement that locks and reads a writer fence.
pub fn load_fence_statement(filesystem_id: FilesystemId, scope: WriterScopeId) -> (result: PostgresQuery)
    ensures
        result@ == load_fence(filesystem_id, scope),
{
    query(LOAD_FENCE_SQL).bind_id(filesystem_id.value).bind_id(scope.value)
}

/// The grant that a lease record stands for.
pub open spec fn record_grant(record: WriterLeaseRecord) -> WriterLeaseGrant {
    WriterLeaseGrant {
        fence: WriterFence {
            scope: record.scope,
            holder: record.holder,
            lease_id: record.lease_id,
            fencing_token: record.fencing_token,
        },
        deadline: record.deadline,
    }
}

/// The grant that a lease record stands for.
pub fn grant(record: &WriterLeaseRecord) -> (result: WriterLeaseGrant)
    ensures
        result == record_grant(*record),
{
    WriterLeaseGrant {
        fence: WriterFence {
            scope: record.scope,
            holder: record.holder,
            lease_id: record.lease_id,
            fencing_token: record.fencing_token,
        },
        deadline: record.deadline,
    }
}

/// The revision that follows an authority revision, as both kinds of number.
pub fn next_revision(current: StateRevision, operation: StateStoreOperation) -> (result: Result<
    (StateRevision, RecordRevision),
    PostgresStateError,
>)
    ensures
        match result {
            Ok(pair) => current.next() == Some(pair.0) && pair.1.value == pair.0.value,
            Err(error) => current.next() is None && error@ == failure::plain_failure(
                operation,
                AdapterFailureKind::Internal,
                "",
                FailureCause::Value(InvalidValue::Exhausted),
            ),
        },
{
    match current.checked_next() {
        Ok(next) => Ok((next, RecordRevision { value: next.value })),
        Err(error) => Err(
            internal(operation, "", FailureCause::Value(error)),
        ),
    }
}

/// Why a statement that must affect one row failed to.
pub open spec fn row_count_failure(
    affected: u64,
    operation: StateStoreOperation,
    action: &'static str,
) -> Option<StateFailure> {
    if affected == 1 {
        None
    } else {
        Some(lease::lease_corruption(operation, "", FailureCause::OneRow { action, affected }))
    }
}

/// Checks that a statement affected exactly one row.
pub fn require_one_row(affected: u64, operation: StateStoreOperation, action: &'static str) -> (result:
    Result<(), PostgresStateError>)
    ensures
        match result {
            Ok(()) => row_count_failure(affected, operation, action) is None,
            Err(error) => row_count_failure(affected, operation, action) == Some(error@),
        },
{
    if affected == 1 {
        Ok(())
    } else {
        Err(corruption(operation, "", FailureCause::OneRow { action, affected }))
    }
}

/// One statement of a lease operation.
pub struct LeaseStep {
    /// The statement.
    pub statement: PostgresQuery,
    /// What it does, where it must affect exactly one row.
    pub action: Option<&'static str>,
}

/// A step as contracts speak of it.
#[verifier::ext_equal]
pub struct StepView {
    /// The statement.
    pub statement: StatementView,
    /// What it does, where it must affect exactly one row.
    pub action: Option<&'static str>,
}

impl View for LeaseStep {
    type V = StepView;

    open spec fn view(&self) -> StepView {
        StepView { statement: self.statement@, action: self.action }
    }
}

/// Steps as contracts speak of them.
pub open spec fn step_views(steps: Seq<LeaseStep>) -> Seq<StepView> {
    steps.map_values(|step: LeaseStep| step@)
}

/// The statement that writes a granted fence.
pub open spec fn write_fence(record: WriterLeaseRecord) -> StatementView {
    statement::text_only(WRITE_FENCE_SQL@).with_id(record.filesystem_id.value).with_id(
        record.scope.value,
    ).with_number(record.fencing_token.value).with_id(record.holder.value).with_id(
        record.lease_id.value,
    ).with_number(record.deadline.value).with_number(record.revision.value)
}

/// The statement that writes a granted fence.
pub fn write_active_fence(record: &WriterLeaseRecord) -> (result: PostgresQuery)
    ensures
        result@ == write_fence(*record),
{
    query(WRITE_FENCE_SQL).bind_id(record.filesystem_id.value).bind_id(
        record.scope.value,
    ).bind_number(record.fencing_token.value).bind_id(record.holder.value).bind_id(
        record.lease_id.value,
    ).bind_number(record.deadline.value).bind_number(record.revision.value)
}

/// The statement that renews an active fence.
pub open spec fn renew_fence(record: WriterLeaseRecord) -> StatementView {
    statement::text_only(RENEW_FENCE_SQL@).with_id(record.filesystem_id.value).with_id(
        record.scope.value,
    ).with_id(record.holder.value).with_id(record.lease_id.value).with_number(
        record.deadline.value,
    ).with_number(record.revision.value)
}

/// The statement that renews an active fence.
pub fn update_active_fence(record: &WriterLeaseRecord) -> (result: PostgresQuery)
    ensures
        result@ == renew_fence(*record),
{
    query(RENEW_FENCE_SQL).bind_id(record.filesystem_id.value).bind_id(
        record.scope.value,
    ).bind_id(record.holder.value).bind_id(record.lease_id.value).bind_number(
        record.deadline.value,
    ).bind_number(record.revision.value)
}

/// The statement that ends an active fence.
pub fn clear_active_fence(filesystem_id: FilesystemId, scope: WriterScopeId) -> (result: PostgresQuery)
    ensures
        result@ == statement::text_only(CLEAR_FENCE_SQL@).with_id(filesystem_id.value).with_id(
            scope.value,
        ),
{
    query(CLEAR_FENCE_SQL).bind_id(filesystem_id.value).bind_id(scope.value)
}

/// The statement that retains an operation with its outcome.
pub open spec fn retain_statement(request: LeaseRequest, retained: RetainedOutcome) -> StatementView {
    let grant = retained.grant;
    let head = statement::text_only(RETAIN_OPERATION_SQL@).with_id(
        request.authority().value,
    ).with_id(request.identity().value).with(SqlValue::Int2(Some(request.kind_of()))).with(
        SqlValue::Bytes(Some(request.fingerprint_of().bytes())),
    ).with(SqlValue::Int2(Some(retained.tag)));
    match grant {
        Some(grant) => head.with_id(grant.fence.scope.value).with_id(
            grant.fence.holder.value,
        ).with_id(grant.fence.lease_id.value).with_number(grant.deadline.value).with_number(
            grant.fence.fencing_token.value,
        ),
        None => head.with(SqlValue::Bytes(None)).with(SqlValue::Bytes(None)).with(
            SqlValue::Bytes(None),
        ).with(SqlValue::Text(None)).with(SqlValue::Text(None)),
    }
}

/// The statement that retains an operation with its outcome.
pub fn retain_operation(request: LeaseRequest, outcome: LeaseOperationOutcome) -> (result: Result<
    PostgresQuery,
    PostgresStateError,
>)
    ensures
        match lease::retained(request, outcome) {
            Ok(retained) => result is Ok && result->Ok_0@ == retain_statement(request, retained),
            Err(text) => result is Err && result->Err_0@ == failure::plain_failure(
                request.operation_of(),
                AdapterFailureKind::Internal,
                text,
                FailureCause::Plain,
            ),
        },
{
    let retained = match retained_outcome(request, outcome) {
        Ok(retained) => retained,
        Err(text) => {
            return Err(internal(request.operation(), text, FailureCause::Plain));
        },
    };
    let head = query(RETAIN_OPERATION_SQL).bind_id(request.filesystem_id().value).bind_id(
        request.operation_id().value,
    ).bind(SqlValue::Int2(Some(request.kind()))).bind(
        SqlValue::Bytes(Some(request.fingerprint().to_vec())),
    ).bind(SqlValue::Int2(Some(retained.tag)));
    Ok(
        match retained.grant {
            Some(grant) => head.bind_id(grant.fence.scope.value).bind_id(
                grant.fence.holder.value,
            ).bind_id(grant.fence.lease_id.value).bind_number(grant.deadline.value).bind_number(
                grant.fence.fencing_token.value,
            ),
            None => head.bind(SqlValue::Bytes(None)).bind(SqlValue::Bytes(None)).bind(
                SqlValue::Bytes(None),
            ).bind(SqlValue::Text(None)).bind(SqlValue::Text(None)),
        },
    )
}

/// The steps that publish the revision of a lease operation: advance the head,
/// log the change and its one key, drop what is no longer retained.
pub open spec fn publication(request: LeaseRequest, revision: u64, maximum: u32) -> Seq<StepView> {
    let fs = request.authority();
    let oldest = publish::oldest_retained(revision, maximum);
    let logged = seq![
        StepView {
            statement: publish::head_statement(fs, revision, oldest),
            action: Some("advancing authority revision"),
        },
        StepView {
            statement: publish::revision_statement(LOG_LEASE_SQL, fs, revision).with(
                SqlValue::Int2(Some(LEASE_CHANGE_ORIGIN_KIND)),
            ).with_id(request.identity().value),
            action: None,
        },
        StepView {
            statement: publish::revision_statement(LOG_LEASE_KEY_SQL, fs, revision).with(
                SqlValue::Int2(Some(WRITER_LEASE_FAMILY_TAG)),
            ).with_id(request.scope_of().value),
            action: None,
        },
    ];
    if oldest > 1 {
        logged + seq![
            StepView {
                statement: publish::revision_statement(DROP_KEYS_SQL, fs, oldest),
                action: None,
            },
            StepView {
                statement: publish::revision_statement(DROP_COMMITS_SQL, fs, oldest),
                action: None,
            },
        ]
    } else {
        logged
    }
}

/// Adds the steps that publish the revision of a lease operation.
pub fn publish_lease_revision(
    steps: &mut Vec<LeaseStep>,
    request: LeaseRequest,
    revision: StateRevision,
    max_change_history: u32,
)
    ensures
        step_views(final(steps)@) == step_views(old(steps)@) + publication(
            request,
            revision.value,
            max_change_history,
        ),
{
    let fs = request.filesystem_id();
    let oldest: u64 = retained_change_cursor(revision, max_change_history);
    let ghost before = step_views(steps@);
    steps.push(
        LeaseStep {
            statement: query(ADVANCE_HEAD_SQL).bind_id(fs.value).bind_number(
                revision.value,
            ).bind_number(oldest),
            action: Some("advancing authority revision"),
        },
    );
    steps.push(
        LeaseStep {
            statement: query(LOG_LEASE_SQL).bind_id(fs.value).bind_number(revision.value).bind(
                SqlValue::Int2(Some(LEASE_CHANGE_ORIGIN_KIND)),
            ).bind_id(request.operation_id().value),
            action: None,
        },
    );
    steps.push(
        LeaseStep {
            statement: query(LOG_LEASE_KEY_SQL).bind_id(fs.value).bind_number(revision.value).bind(
                SqlValue::Int2(Some(WRITER_LEASE_FAMILY_TAG)),
            ).bind_id(request.scope().value),
            action: None,
        },
    );
    if oldest > 1 {
        steps.push(
            LeaseStep {
                statement: query(DROP_KEYS_SQL).bind_id(fs.value).bind_number(oldest),
                action: None,
            },
        );
        steps.push(
            LeaseStep {
                statement: query(DROP_COMMITS_SQL).bind_id(fs.value).bind_number(oldest),
                action: None,
            },
        );
    }
    assert(step_views(steps@) =~= before + publication(
        request,
        revision.value,
        max_change_history,
    ));
}

/// A change of a writer fence.
#[derive(Clone, Copy, Debug, PartialEq, Eq, Structural)]
pub enum FenceTransition {
    /// A lease is granted.
    Grant(WriterLeaseRecord),
    /// The active lease is renewed.
    Renew(WriterLeaseRecord),
    /// The active lease ends.
    Release,
}

/// The step that changes a writer fence.
pub open spec fn fence_step(request: LeaseRequest, transition: FenceTransition) -> StepView {
    match transition {
        FenceTransition::Grant(record) => StepView { statement: write_fence(record), action: None },
        FenceTransition::Renew(record) => StepView {
            statement: renew_fence(record),
            action: Some("renewing active writer fence"),
        },
        FenceTransition::Release => StepView {
            statement: statement::text_only(CLEAR_FENCE_SQL@).with_id(
                request.authority().value,
            ).with_id(request.scope_of().value),
            action: Some("releasing active writer fence"),
        },
    }
}

/// The outcome of a change of a writer fence.
pub open spec fn transition_outcome(transition: FenceTransition) -> LeaseOperationOutcome {
    match transition {
        FenceTransition::Grant(record) => LeaseOperationOutcome::Acquire(
            lease::AcquireLeaseOutcome::Granted(record_grant(record)),
        ),
        FenceTransition::Renew(record) => LeaseOperationOutcome::Renew(
            lease::RenewLeaseOutcome::Renewed(record_grant(record)),
        ),
        FenceTransition::Release => LeaseOperationOutcome::Release(
            lease::ReleaseLeaseOutcome::Released,
        ),
    }
}

/// A change is one that the request asks for.
pub open spec fn asks_for(request: LeaseRequest, transition: FenceTransition) -> bool {
    match request {
        LeaseRequest::Acquire(_) => transition is Grant,
        LeaseRequest::Renew(_) => transition is Renew,
        LeaseRequest::Release(_) => transition is Release,
    }
}

/// The steps of a granted operation: change the fence, publish the revision,
/// retain the operation.
pub open spec fn transition_steps(
    request: LeaseRequest,
    transition: FenceTransition,
    revision: u64,
    maximum: u32,
) -> Seq<StepView> {
    seq![fence_step(request, transition)] + publication(request, revision, maximum) + seq![
        StepView {
            statement: retain_statement(
                request,
                lease::retained(request, transition_outcome(transition))->Ok_0,
            ),
            action: None,
        },
    ]
}

/// Stages a granted operation.
pub fn stage_transition(
    request: LeaseRequest,
    transition: FenceTransition,
    revision: StateRevision,
    max_change_history: u32,
) -> (result: Result<(Vec<LeaseStep>, LeaseOperationOutcome), PostgresStateError>)
    requires
        asks_for(request, transition),
    ensures
        result is Ok,
        step_views(result->Ok_0.0@) == transition_steps(
            request,
            transition,
            revision.value,
            max_change_history,
        ),
        result->Ok_0.1 == transition_outcome(transition),
{
    let mut steps: Vec<LeaseStep> = Vec::new();
    let outcome = match transition {
        FenceTransition::Grant(record) => {
            steps.push(LeaseStep { statement: write_active_fence(&record), action: None });
            LeaseOperationOutcome::Acquire(lease::AcquireLeaseOutcome::Granted(grant(&record)))
        },
        FenceTransition::Renew(record) => {
            steps.push(
                LeaseStep {
                    statement: update_active_fence(&record),
                    action: Some("renewing active writer fence"),
                },
            );
            LeaseOperationOutcome::Renew(lease::RenewLeaseOutcome::Renewed(grant(&record)))
        },
        FenceTransition::Release => {
            steps.push(
                LeaseStep {
                    statement: clear_active_fence(request.filesystem_id(), request.scope()),
                    action: Some("releasing active writer fence"),
                },
            );
            LeaseOperationOutcome::Release(lease::ReleaseLeaseOutcome::Released)
        },
    };
    assert(step_views(steps@) =~= seq![fence_step(request, transition)]);
    publish_lease_revision(&mut steps, request, revision, max_change_history);
    let ghost before = step_views(steps@);
    let retained = retain_operation(request, outcome)?;
    let ghost added = StepView { statement: retained@, action: None };
    steps.push(LeaseStep { statement: retained, action: None });
    proof {
        assert(step_views(steps@) =~= before.push(added));
        assert(before.push(added) =~= transition_steps(
            request,
            transition,
            revision.value,
            max_change_history,
        ));
    }
    Ok((steps, outcome))
}

/// Every granted operation is retained with its outcome, so that its
/// repetition is answered from what was retained.
pub proof fn law_granted_operations_are_retained(
    request: LeaseRequest,
    transition: FenceTransition,
    revision: u64,
    maximum: u32,
)
    requires
        asks_for(request, transition),
    ensures
        ({
            let outcome = transition_outcome(transition);
            let retained = lease::retained(request, outcome);
            &&& retained is Ok
            &&& transition_steps(request, transition, revision, maximum).last().statement
                == retain_statement(request, retained->Ok_0)
            &&& lease::replayed(
                request,
                request.kind_of(),
                request.fingerprint_of().bytes(),
                retained->Ok_0.tag,
                retained->Ok_0.grant,
            ) == Ok::<LeaseOperationOutcome, &'static str>(lease::repeated(outcome))
        }),
{
    lease::law_retained_operations_replay(request, transition_outcome(transition));
}

} // verus!
