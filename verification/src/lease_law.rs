//! What a succession of lease operations keeps.
//!
//! The lease rules decide; a succession is one whose decisions keep what the
//! rules owe: a grant has a token above the greatest one that they were shown,
//! and a renewal leaves the fence as it is and its deadline no earlier.
use vstd::prelude::*;

use crate::bytes;
use crate::failure::StateStoreOperation;
use crate::ids::{FilesystemId, WriterScopeId};
use crate::lease;
use crate::lease::{
    AcquireLeaseOutcome, LeaseOperationOutcome, LeaseRequest, StoredOperationRow, WriterLeaseGrant,
};
use crate::lease_staging;
use crate::lease_staging::{FenceRow, FenceTransition, LockedFenceState};
use crate::limits::StateLimits;
use crate::numeric;
use crate::record::WriterLeaseRecord;
use crate::statement::ValueView;
use crate::write_law;

verus! {

/// The lease record that a change of a fence writes.
pub open spec fn written(transition: FenceTransition) -> Option<WriterLeaseRecord> {
    match transition {
        FenceTransition::Grant(record) => Some(record),
        FenceTransition::Renew(record) => Some(record),
        FenceTransition::Release => None,
    }
}

/// A change of a fence is one that the lease rules may decide on, given the
/// locked fence.
pub open spec fn owed(
    filesystem_id: FilesystemId,
    scope: WriterScopeId,
    fence: LockedFenceState,
    transition: FenceTransition,
) -> bool {
    &&& written(transition) matches Some(record) ==> {
        &&& record.filesystem_id == filesystem_id
        &&& record.scope == scope
        &&& record.fencing_token.valid()
        &&& record.revision.valid()
    }
    &&& match transition {
        FenceTransition::Grant(record) => fence.greatest matches Some(greatest) ==> greatest.value
            < record.fencing_token.value,
        FenceTransition::Renew(record) => {
            &&& fence.current is Some
            &&& lease_staging::record_grant(record).fence == lease_staging::record_grant(
                fence.current->0,
            ).fence
            &&& fence.current->0.deadline.value <= record.deadline.value
        },
        FenceTransition::Release => fence.current is Some,
    }
}

/// A fence row after the statement of a change ran on it.
pub open spec fn applied(
    before: Option<FenceRow>,
    transition: FenceTransition,
    after: FenceRow,
) -> bool {
    match transition {
        FenceTransition::Grant(record) => write_law::holds_grant(
            after,
            lease_staging::write_fence(record).values,
        ),
        FenceTransition::Renew(record) => {
            &&& before is Some
            &&& after.greatest_fencing_token@ == before->0.greatest_fencing_token@
            &&& write_law::holds_renewal(after, lease_staging::renew_fence(record).values)
        },
        FenceTransition::Release => {
            &&& before is Some
            &&& after.greatest_fencing_token@ == before->0.greatest_fencing_token@
            &&& lease_staging::inactive(after)
        },
    }
}

/// Rows of one fence, from its absence on, and the changes between them.
pub open spec fn succession(
    filesystem_id: FilesystemId,
    scope: WriterScopeId,
    rows: Seq<Option<FenceRow>>,
    transitions: Seq<FenceTransition>,
) -> bool {
    &&& rows.len() == transitions.len() + 1
    &&& rows[0] is None
    &&& forall|k: int|
        #![trigger transitions[k]]
        0 <= k < transitions.len() ==> {
            &&& rows[k + 1] is Some
            &&& owed(
                filesystem_id,
                scope,
                lease_staging::fence_state(filesystem_id, scope, rows[k]),
                transitions[k],
            )
            &&& applied(rows[k], transitions[k], rows[k + 1]->0)
        }
}

/// What the changes leave of a fence: the greatest token is the last granted
/// one, and the active lease is the last written one.
pub open spec fn outcome_state(before: LockedFenceState, transition: FenceTransition) -> LockedFenceState {
    match transition {
        FenceTransition::Grant(record) => LockedFenceState {
            greatest: Some(record.fencing_token),
            current: Some(record),
        },
        FenceTransition::Renew(record) => LockedFenceState {
            greatest: before.greatest,
            current: Some(record),
        },
        FenceTransition::Release => LockedFenceState { greatest: before.greatest, current: None },
    }
}

/// Every row of a succession can be read, and holds what the change before it
/// left of the fence.
pub proof fn law_fences_follow_their_changes(
    filesystem_id: FilesystemId,
    scope: WriterScopeId,
    rows: Seq<Option<FenceRow>>,
    transitions: Seq<FenceTransition>,
    index: int,
    limits: StateLimits,
    operation: StateStoreOperation,
)
    requires
        succession(filesystem_id, scope, rows, transitions),
        0 <= index < transitions.len(),
    ensures
        lease_staging::fence_failure(
            filesystem_id,
            scope,
            rows[index + 1]->0,
            limits,
            operation,
        ) is None,
        lease_staging::fence_state(filesystem_id, scope, rows[index + 1]) == outcome_state(
            lease_staging::fence_state(filesystem_id, scope, rows[index]),
            transitions[index],
        ),
    decreases index,
{
    let transition = transitions[index];
    if index > 0 {
        law_fences_follow_their_changes(
            filesystem_id,
            scope,
            rows,
            transitions,
            index - 1,
            limits,
            operation,
        );
        assert(rows[index - 1 + 1] == rows[index]);
        let previous = transitions[index - 1];
        assert(rows[index] is Some);
    }
    let after = rows[index + 1]->0;
    match transition {
        FenceTransition::Grant(record) => {
            write_law::law_granted_fences_are_read_back(record, after, limits, operation);
        },
        FenceTransition::Renew(record) => {
            write_law::law_renewed_fences_keep_their_token(
                record,
                rows[index]->0,
                after,
                limits,
                operation,
            );
        },
        FenceTransition::Release => {
            write_law::law_released_fences_keep_their_token(
                filesystem_id,
                scope,
                rows[index]->0,
                after,
                limits,
                operation,
            );
        },
    }
}

proof fn lemma_greatest_never_falls(
    filesystem_id: FilesystemId,
    scope: WriterScopeId,
    rows: Seq<Option<FenceRow>>,
    transitions: Seq<FenceTransition>,
    granted: int,
    index: int,
    limits: StateLimits,
    operation: StateStoreOperation,
)
    requires
        succession(filesystem_id, scope, rows, transitions),
        0 <= granted < index < rows.len(),
        transitions[granted] is Grant,
    ensures
        ({
            let fence = lease_staging::fence_state(filesystem_id, scope, rows[index]);
            &&& fence.greatest is Some
            &&& written(transitions[granted])->0.fencing_token.value <= fence.greatest->0.value
        }),
    decreases index,
{
    law_fences_follow_their_changes(
        filesystem_id,
        scope,
        rows,
        transitions,
        index - 1,
        limits,
        operation,
    );
    let last = transitions[index - 1];
    assert(rows[index - 1 + 1] == rows[index]);
    if granted < index - 1 {
        lemma_greatest_never_falls(
            filesystem_id,
            scope,
            rows,
            transitions,
            granted,
            index - 1,
            limits,
            operation,
        );
    }
}

/// Fences are never reused: in a succession of grants, renewals and releases of
/// one scope, a later grant has a token above that of every earlier one.
pub proof fn law_tokens_are_never_reused(
    filesystem_id: FilesystemId,
    scope: WriterScopeId,
    rows: Seq<Option<FenceRow>>,
    transitions: Seq<FenceTransition>,
    earlier: int,
    later: int,
    limits: StateLimits,
    operation: StateStoreOperation,
)
    requires
        succession(filesystem_id, scope, rows, transitions),
        0 <= earlier < later < transitions.len(),
        transitions[earlier] is Grant,
        transitions[later] is Grant,
    ensures
        written(transitions[earlier])->0.fencing_token.value < written(
            transitions[later],
        )->0.fencing_token.value,
{
    lemma_greatest_never_falls(
        filesystem_id,
        scope,
        rows,
        transitions,
        earlier,
        later,
        limits,
        operation,
    );
}

/// Renewals keep the fence of the lease that they renew and never move its
/// deadline back, however many follow each other.
pub proof fn law_renewals_keep_the_fence(
    filesystem_id: FilesystemId,
    scope: WriterScopeId,
    rows: Seq<Option<FenceRow>>,
    transitions: Seq<FenceTransition>,
    first: int,
    last: int,
    limits: StateLimits,
    operation: StateStoreOperation,
)
    requires
        succession(filesystem_id, scope, rows, transitions),
        0 <= first <= last < transitions.len(),
        !(transitions[first] is Release),
        forall|k: int| first < k <= last ==> (#[trigger] transitions[k]) is Renew,
    ensures
        ({
            let before = lease_staging::record_grant(written(transitions[first])->0);
            let after = lease_staging::record_grant(written(transitions[last])->0);
            &&& after.fence == before.fence
            &&& before.deadline.value <= after.deadline.value
        }),
    decreases last - first,
{
    if first < last {
        law_renewals_keep_the_fence(
            filesystem_id,
            scope,
            rows,
            transitions,
            first,
            last - 1,
            limits,
            operation,
        );
        law_fences_follow_their_changes(
            filesystem_id,
            scope,
            rows,
            transitions,
            last - 1,
            limits,
            operation,
        );
        let renewed = transitions[last];
        assert(rows[last - 1 + 1] == rows[last]);
        assert(transitions[last - 1] is Grant || transitions[last - 1] is Renew);
    }
}

/// A row holds the columns that retaining an operation binds.
pub open spec fn holds_operation(row: StoredOperationRow, values: Seq<ValueView>) -> bool {
    &&& values[2] == ValueView::Int2(Some(row.kind))
    &&& values[3] == ValueView::Bytes(Some(row.fingerprint@))
    &&& values[4] == ValueView::Int2(Some(row.outcome_tag))
    &&& values[5] == ValueView::Bytes(bytes::optional_bytes(row.scope))
    &&& values[6] == ValueView::Bytes(bytes::optional_bytes(row.holder))
    &&& values[7] == ValueView::Bytes(bytes::optional_bytes(row.lease))
    &&& values[8] == ValueView::Text(bytes::optional_text(row.deadline))
    &&& values[9] == ValueView::Text(bytes::optional_text(row.token))
}

proof fn lemma_grant_is_read_back(grant: WriterLeaseGrant)
    requires
        grant.fence.fencing_token.valid(),
    ensures
        ({
            let scope = bytes::id_bytes(grant.fence.scope.value);
            let holder = bytes::id_bytes(grant.fence.holder.value);
            let lease_id = bytes::id_bytes(grant.fence.lease_id.value);
            let deadline = numeric::decimal(grant.deadline.value as nat);
            let token = numeric::decimal(grant.fence.fencing_token.value as nat);
            &&& lease::grant_cause(scope, holder, lease_id, deadline, token) is None
            &&& lease::grant_of(scope, holder, lease_id, deadline, token) == grant
        }),
{
    bytes::lemma_id_round_trip(grant.fence.scope.value);
    bytes::lemma_id_round_trip(grant.fence.holder.value);
    bytes::lemma_id_round_trip(grant.fence.lease_id.value);
    numeric::law_decimal_round_trip(grant.deadline.value);
    numeric::law_decimal_round_trip(grant.fence.fencing_token.value);
}

/// An operation that is sent again is answered from the row that its first run
/// retained, with the same grant or the same rejection.
pub proof fn law_sent_again_answers_the_same(
    request: LeaseRequest,
    outcome: LeaseOperationOutcome,
    row: StoredOperationRow,
)
    requires
        lease::retained(request, outcome) is Ok,
        lease::retained(request, outcome)->Ok_0.grant matches Some(grant)
            ==> grant.fence.fencing_token.valid(),
        holds_operation(
            row,
            lease_staging::retain_statement(
                request,
                lease::retained(request, outcome)->Ok_0,
            ).values,
        ),
    ensures
        lease::stored_failure(row, request.operation_of()) is None,
        lease::replayed(
            request,
            row.kind,
            row.fingerprint@,
            row.outcome_tag,
            lease::stored_grant(row),
        ) == Ok::<LeaseOperationOutcome, &'static str>(lease::repeated(outcome)),
{
    let retained = lease::retained(request, outcome)->Ok_0;
    bytes::lemma_id_round_trip(request.fingerprint_of().high);
    bytes::lemma_id_round_trip(request.fingerprint_of().low);
    match retained.grant {
        Some(grant) => {
            lemma_grant_is_read_back(grant);
            assert(row.scope is Some && row.holder is Some && row.lease is Some && row.deadline
                is Some && row.token is Some);
        },
        None => {
            assert(row.scope is None && row.holder is None && row.lease is None && row.deadline
                is None && row.token is None);
        },
    }
    assert(lease::stored_grant(row) == retained.grant);
    assert(row.fingerprint@ == request.fingerprint_of().bytes());
    lease::law_retained_operations_replay(request, outcome);
}

/// An acquisition that was granted and is sent again is answered with the very
/// grant of its first run.
pub proof fn law_granted_lease_is_already_applied(
    request: LeaseRequest,
    record: WriterLeaseRecord,
    row: StoredOperationRow,
)
    requires
        request is Acquire,
        record.fencing_token.valid(),
        lease::retained(
            request,
            lease_staging::transition_outcome(FenceTransition::Grant(record)),
        ) matches Ok(retained) && holds_operation(
            row,
            lease_staging::retain_statement(request, retained).values,
        ),
    ensures
        lease::replayed(
            request,
            row.kind,
            row.fingerprint@,
            row.outcome_tag,
            lease::stored_grant(row),
        ) == Ok::<LeaseOperationOutcome, &'static str>(
            LeaseOperationOutcome::Acquire(
                AcquireLeaseOutcome::AlreadyApplied(lease_staging::record_grant(record)),
            ),
        ),
{
    law_sent_again_answers_the_same(
        request,
        lease_staging::transition_outcome(FenceTransition::Grant(record)),
        row,
    );
}

} // verus!
