//! Which row of the fences a lease operation changes, and what it leaves there
//! and among the retained operations.
use vstd::prelude::*;

use crate::bytes;
use crate::lease;
use crate::lease::{
    AcquireLeaseOutcome, LeaseOperationOutcome, LeaseRejection, LeaseRequest, ReleaseLeaseOutcome,
    RenewLeaseOutcome, RetainedOutcome, WriterLeaseGrant,
};
use crate::lease_staging;
use crate::lease_staging::FenceTransition;
use crate::limits::StateLimits;
use crate::log_law;
use crate::numeric;
use crate::publish;
use crate::record::WriterLeaseRecord;
use crate::statement::{StatementView, ValueView};

verus! {

/// The columns of one fence behind its key.
pub struct FenceColumns {
    /// Greatest token.
    pub token: Seq<char>,
    /// Active holder.
    pub holder: Option<Seq<u8>>,
    /// Active lease.
    pub lease: Option<Seq<u8>>,
    /// Deadline of the active lease.
    pub deadline: Option<Seq<char>>,
    /// Revision of the active lease.
    pub revision: Option<Seq<char>>,
}

/// All fences, by filesystem and scope.
pub type Fences = Map<(Seq<u8>, Seq<u8>), FenceColumns>;

/// A statement names one row of the fences by its filesystem and scope.
pub open spec fn names_fence(statement: StatementView, filesystem: u128, scope: u128) -> bool {
    &&& statement.values.len() >= 2
    &&& statement.values[0] == ValueView::Bytes(Some(bytes::id_bytes(filesystem)))
    &&& statement.values[1] == ValueView::Bytes(Some(bytes::id_bytes(scope)))
}

/// Running the statement turns the fences into others.
pub open spec fn runs_on_fences(statement: StatementView, before: Fences, after: Fences) -> bool {
    let v = statement.values;
    let row = (v[0]->Bytes_0->0, v[1]->Bytes_0->0);
    &&& v.len() >= 2
    &&& v[0] is Bytes && v[0]->Bytes_0 is Some
    &&& v[1] is Bytes && v[1]->Bytes_0 is Some
    &&& {
        ||| {
            &&& statement.sql
                == "INSERT INTO \"public\".\"w9pt_fs_state_writer_fences\" (\"filesystem_id\", \"writer_scope_id\", \"greatest_fencing_token\", \"active_holder_id\", \"active_lease_id\", \"active_deadline_tick\", \"active_record_revision\") VALUES ($1, $2, $3::numeric, $4, $5, $6::numeric, $7::numeric) ON CONFLICT (\"filesystem_id\", \"writer_scope_id\") DO UPDATE SET \"greatest_fencing_token\" = EXCLUDED.\"greatest_fencing_token\", \"active_holder_id\" = EXCLUDED.\"active_holder_id\", \"active_lease_id\" = EXCLUDED.\"active_lease_id\", \"active_deadline_tick\" = EXCLUDED.\"active_deadline_tick\", \"active_record_revision\" = EXCLUDED.\"active_record_revision\""@
            &&& v.len() == 7
            &&& v[2] is Text && v[2]->Text_0 is Some
            &&& v[3] is Bytes && v[4] is Bytes && v[5] is Text && v[6] is Text
            &&& after == before.insert(
                row,
                FenceColumns {
                    token: v[2]->Text_0->0,
                    holder: v[3]->Bytes_0,
                    lease: v[4]->Bytes_0,
                    deadline: v[5]->Text_0,
                    revision: v[6]->Text_0,
                },
            )
        }
        ||| {
            &&& statement.sql
                == "UPDATE \"public\".\"w9pt_fs_state_writer_fences\" SET \"active_holder_id\" = $3, \"active_lease_id\" = $4, \"active_deadline_tick\" = $5::numeric, \"active_record_revision\" = $6::numeric WHERE \"filesystem_id\" = $1 AND \"writer_scope_id\" = $2"@
            &&& v.len() == 6
            &&& v[2] is Bytes && v[3] is Bytes && v[4] is Text && v[5] is Text
            &&& after == if before.dom().contains(row) {
                before.insert(
                    row,
                    FenceColumns {
                        token: before[row].token,
                        holder: v[2]->Bytes_0,
                        lease: v[3]->Bytes_0,
                        deadline: v[4]->Text_0,
                        revision: v[5]->Text_0,
                    },
                )
            } else {
                before
            }
        }
        ||| {
            &&& statement.sql
                == "UPDATE \"public\".\"w9pt_fs_state_writer_fences\" SET \"active_holder_id\" = NULL, \"active_lease_id\" = NULL, \"active_deadline_tick\" = NULL, \"active_record_revision\" = NULL WHERE \"filesystem_id\" = $1 AND \"writer_scope_id\" = $2"@
            &&& v.len() == 2
            &&& after == if before.dom().contains(row) {
                before.insert(
                    row,
                    FenceColumns {
                        token: before[row].token,
                        holder: None,
                        lease: None,
                        deadline: None,
                        revision: None,
                    },
                )
            } else {
                before
            }
        }
    }
}

/// The columns of an active lease under a token.
pub open spec fn active_columns(record: WriterLeaseRecord, token: Seq<char>) -> FenceColumns {
    FenceColumns {
        token,
        holder: Some(bytes::id_bytes(record.holder.value)),
        lease: Some(bytes::id_bytes(record.lease_id.value)),
        deadline: Some(numeric::decimal(record.deadline.value as nat)),
        revision: Some(numeric::decimal(record.revision.value as nat)),
    }
}

/// A change of a fence is of the authority and the scope of a request: a lease
/// that it writes belongs to both.
pub open spec fn of_request(request: LeaseRequest, transition: FenceTransition) -> bool {
    let (authority, _, scope) = log_law::lease_names(request);
    match transition {
        FenceTransition::Grant(record) => record.filesystem_id.value == authority
            && record.scope.value == scope,
        FenceTransition::Renew(record) => record.filesystem_id.value == authority
            && record.scope.value == scope,
        FenceTransition::Release => true,
    }
}

/// The step that changes a fence names the row of the request's authority and
/// of the scope of its own fence, which is the row that was locked and read for
/// the request; no other fence changes. A grant writes the whole lease with its
/// token, a renewal leaves the greatest token, and a release leaves that token
/// alone. Every change of a fence that must be there already has to affect one
/// row.
pub proof fn law_fence_changes_stay_in_the_locked_row(
    request: LeaseRequest,
    transition: FenceTransition,
    fences: Fences,
)
    requires
        of_request(request, transition),
    ensures
        ({
            let (authority, _, scope) = log_law::lease_names(request);
            let row = (bytes::id_bytes(authority), bytes::id_bytes(scope));
            let step = lease_staging::fence_step(request, transition);
            &&& names_fence(step.statement, authority, scope)
            &&& names_fence(lease_staging::locked_fence(request), authority, scope)
            &&& lease_staging::locked_fence(request).values == step.statement.values.take(2)
            &&& lease_staging::locked_fence(request).sql
                == "SELECT \"greatest_fencing_token\"::text AS \"greatest_fencing_token\", \"active_holder_id\", \"active_lease_id\", \"active_deadline_tick\"::text AS \"active_deadline_tick\", \"active_record_revision\"::text AS \"active_record_revision\" FROM \"public\".\"w9pt_fs_state_writer_fences\" WHERE \"filesystem_id\" = $1 AND \"writer_scope_id\" = $2 FOR UPDATE"@
            &&& step.action is Some <==> !(transition is Grant)
            &&& transition is Grant || fences.dom().contains(row) ==> runs_on_fences(
                step.statement,
                fences,
                fences.insert(
                    row,
                    match transition {
                        FenceTransition::Grant(record) => active_columns(
                            record,
                            numeric::decimal(record.fencing_token.value as nat),
                        ),
                        FenceTransition::Renew(record) => active_columns(record, fences[row].token),
                        FenceTransition::Release => FenceColumns {
                            token: fences[row].token,
                            holder: None,
                            lease: None,
                            deadline: None,
                            revision: None,
                        },
                    },
                ),
            )
        }),
{
    let (authority, _, scope) = log_law::lease_names(request);
    let step = lease_staging::fence_step(request, transition);
    assert(lease_staging::locked_fence(request).values =~= step.statement.values.take(2));
}

/// The first step of a granted operation changes the fence, the last one
/// retains the operation, and those between publish the revision.
pub proof fn law_granted_operations_change_fence_log_and_history(
    request: LeaseRequest,
    transition: FenceTransition,
    revision: u64,
    maximum: u32,
)
    requires
        lease_staging::asks_for(request, transition),
    ensures
        ({
            let steps = lease_staging::transition_steps(request, transition, revision, maximum);
            let outcome = lease_staging::transition_outcome(transition);
            &&& steps.first() == lease_staging::fence_step(request, transition)
            &&& steps.subrange(1, steps.len() - 1) == lease_staging::publication(
                request,
                revision,
                maximum,
            )
            &&& lease::retained(request, outcome) matches Ok(retained)
            &&& steps.last().statement == lease_staging::retain_statement(request, retained)
        }),
{
    let steps = lease_staging::transition_steps(request, transition, revision, maximum);
    let middle = lease_staging::publication(request, revision, maximum);
    assert(steps.subrange(1, steps.len() - 1) =~= middle);
}

/// What a changed fence is answered with names exactly the lease that was
/// written: its scope, holder, lease, token and deadline.
pub proof fn law_granted_leases_are_answered_as_written(transition: FenceTransition)
    ensures
        match transition {
            FenceTransition::Grant(record) => {
                &&& lease_staging::transition_outcome(transition)
                    matches LeaseOperationOutcome::Acquire(AcquireLeaseOutcome::Granted(grant))
                &&& grants(grant, record)
            },
            FenceTransition::Renew(record) => {
                &&& lease_staging::transition_outcome(transition)
                    matches LeaseOperationOutcome::Renew(RenewLeaseOutcome::Renewed(grant))
                &&& grants(grant, record)
            },
            FenceTransition::Release => lease_staging::transition_outcome(transition)
                == LeaseOperationOutcome::Release(ReleaseLeaseOutcome::Released),
        },
{
}

/// A grant names a lease field by field.
pub open spec fn grants(grant: WriterLeaseGrant, record: WriterLeaseRecord) -> bool {
    &&& grant.fence.scope.value == record.scope.value
    &&& grant.fence.holder.value == record.holder.value
    &&& grant.fence.lease_id.value == record.lease_id.value
    &&& grant.fence.fencing_token.value == record.fencing_token.value
    &&& grant.deadline.value == record.deadline.value
}

/// The number that an operation of a kind is retained under.
pub open spec fn kind_number(request: LeaseRequest) -> i16 {
    match request {
        LeaseRequest::Acquire(_) => 1,
        LeaseRequest::Renew(_) => 2,
        LeaseRequest::Release(_) => 3,
    }
}

/// The fingerprint of a request, as bytes.
pub open spec fn fingerprint(request: LeaseRequest) -> Seq<u8> {
    let print = match request {
        LeaseRequest::Acquire(r) => r.fingerprint,
        LeaseRequest::Renew(r) => r.fingerprint,
        LeaseRequest::Release(r) => r.fingerprint,
    };
    bytes::id_bytes(print.high) + bytes::id_bytes(print.low)
}

/// A retained operation binds the request's authority, identity, kind and
/// fingerprint and the tag of its outcome, then the grant column by column or
/// nothing in all of its columns. It is read back by authority and identity.
pub proof fn law_operations_are_retained_under_their_identity(
    request: LeaseRequest,
    retained: RetainedOutcome,
)
    ensures
        ({
            let (authority, operation, _) = log_law::lease_names(request);
            let statement = lease_staging::retain_statement(request, retained);
            let read = lease_staging::load_operation(request);
            let v = statement.values;
            &&& statement.sql
                == "INSERT INTO \"public\".\"w9pt_fs_state_writer_lease_operations\" (\"filesystem_id\", \"lease_operation_id\", \"operation_kind\", \"request_fingerprint\", \"outcome_tag\", \"grant_scope_id\", \"grant_holder_id\", \"grant_lease_id\", \"grant_deadline_tick\", \"grant_fencing_token\") VALUES ($1, $2, $3, $4, $5, $6, $7, $8, $9::numeric, $10::numeric)"@
            &&& v.len() == 10
            &&& v[0] == ValueView::Bytes(Some(bytes::id_bytes(authority)))
            &&& v[1] == ValueView::Bytes(Some(bytes::id_bytes(operation)))
            &&& v[2] == ValueView::Int2(Some(kind_number(request)))
            &&& v[3] == ValueView::Bytes(Some(fingerprint(request)))
            &&& v[4] == ValueView::Int2(Some(retained.tag))
            &&& match retained.grant {
                Some(grant) => {
                    &&& v[5] == ValueView::Bytes(Some(bytes::id_bytes(grant.fence.scope.value)))
                    &&& v[6] == ValueView::Bytes(Some(bytes::id_bytes(grant.fence.holder.value)))
                    &&& v[7] == ValueView::Bytes(Some(bytes::id_bytes(grant.fence.lease_id.value)))
                    &&& v[8] == log_law::number(grant.deadline.value as int)
                    &&& v[9] == log_law::number(grant.fence.fencing_token.value as int)
                },
                None => {
                    &&& v[5] == ValueView::Bytes(None)
                    &&& v[6] == ValueView::Bytes(None)
                    &&& v[7] == ValueView::Bytes(None)
                    &&& v[8] == ValueView::Text(None)
                    &&& v[9] == ValueView::Text(None)
                },
            }
            &&& read.sql
                == "SELECT \"operation_kind\", \"request_fingerprint\", \"outcome_tag\", \"grant_scope_id\", \"grant_holder_id\", \"grant_lease_id\", \"grant_deadline_tick\"::text AS \"grant_deadline_tick\", \"grant_fencing_token\"::text AS \"grant_fencing_token\" FROM \"public\".\"w9pt_fs_state_writer_lease_operations\" WHERE \"filesystem_id\" = $1 AND \"lease_operation_id\" = $2"@
            &&& read.values == v.take(2)
        }),
{
    let statement = lease_staging::retain_statement(request, retained);
    assert(lease_staging::load_operation(request).values =~= statement.values.take(2));
}

/// What a retained tag and grant stand for, by kind of request. A pair that is
/// none of these is corrupt.
pub open spec fn stands_for(
    request: LeaseRequest,
    tag: i16,
    grant: Option<WriterLeaseGrant>,
) -> Option<LeaseOperationOutcome> {
    match (request, grant) {
        (LeaseRequest::Acquire(_), Some(grant)) => match tag {
            1 => Some(LeaseOperationOutcome::Acquire(AcquireLeaseOutcome::AlreadyApplied(grant))),
            2 => Some(
                LeaseOperationOutcome::Acquire(
                    AcquireLeaseOutcome::Rejected(LeaseRejection::Busy(grant)),
                ),
            ),
            _ => None,
        },
        (LeaseRequest::Acquire(_), None) => match tag {
            3 => Some(request.rejected(LeaseRejection::InvalidWriterScope)),
            4 => Some(request.rejected(LeaseRejection::InvalidDuration)),
            5 => Some(request.rejected(LeaseRejection::FencingTokenExhausted)),
            _ => None,
        },
        (LeaseRequest::Renew(_), Some(grant)) => match tag {
            1 => Some(LeaseOperationOutcome::Renew(RenewLeaseOutcome::AlreadyApplied(grant))),
            _ => None,
        },
        (LeaseRequest::Renew(_), None) => match tag {
            2 => Some(request.rejected(LeaseRejection::StaleFence)),
            3 => Some(request.rejected(LeaseRejection::Expired)),
            4 => Some(request.rejected(LeaseRejection::InvalidWriterScope)),
            5 => Some(request.rejected(LeaseRejection::InvalidDuration)),
            _ => None,
        },
        (LeaseRequest::Release(_), Some(_)) => None,
        (LeaseRequest::Release(_), None) => match tag {
            1 => Some(LeaseOperationOutcome::Release(ReleaseLeaseOutcome::AlreadyApplied)),
            2 => Some(request.rejected(LeaseRejection::StaleFence)),
            3 => Some(request.rejected(LeaseRejection::Expired)),
            4 => Some(request.rejected(LeaseRejection::InvalidWriterScope)),
            _ => None,
        },
    }
}

/// A rejection of a request is an outcome of the request's own kind.
pub proof fn law_rejections_are_of_the_own_kind(request: LeaseRequest, rejection: LeaseRejection)
    ensures
        match request {
            LeaseRequest::Acquire(_) => request.rejected(rejection)
                == LeaseOperationOutcome::Acquire(AcquireLeaseOutcome::Rejected(rejection)),
            LeaseRequest::Renew(_) => request.rejected(rejection) == LeaseOperationOutcome::Renew(
                RenewLeaseOutcome::Rejected(rejection),
            ),
            LeaseRequest::Release(_) => request.rejected(rejection)
                == LeaseOperationOutcome::Release(ReleaseLeaseOutcome::Rejected(rejection)),
        },
{
}

/// A retained operation answers only a request of its own kind and fingerprint,
/// and with what its tag and grant stand for; any other request under its
/// identity is told that the identity belongs to another operation.
pub proof fn law_retained_operations_answer_their_own_request(
    request: LeaseRequest,
    kind: i16,
    print: Seq<u8>,
    tag: i16,
    grant: Option<WriterLeaseGrant>,
)
    ensures
        ({
            let answer = lease::replayed(request, kind, print, tag, grant);
            if kind == kind_number(request) && print == fingerprint(request) {
                match stands_for(request, tag, grant) {
                    Some(outcome) => answer == Ok::<LeaseOperationOutcome, &'static str>(outcome),
                    None => answer is Err,
                }
            } else {
                answer == Ok::<LeaseOperationOutcome, &'static str>(
                    request.rejected(LeaseRejection::OperationMismatch),
                )
            }
        }),
{
}

/// The authority head of a filesystem is created at the first revision where it
/// is missing, and locked and read by the filesystem alone. The fence that a
/// commit claims is locked by its filesystem and scope. Retained operations are
/// counted by filesystem, up to the configured number.
pub proof fn law_heads_and_fences_are_locked_by_their_key(
    filesystem_id: crate::ids::FilesystemId,
    scope: crate::ids::WriterScopeId,
    limits: StateLimits,
)
    ensures
        publish::ensure_head(filesystem_id).sql
            == "INSERT INTO \"public\".\"w9pt_fs_state_authority_heads\" (\"filesystem_id\", \"current_revision\", \"oldest_retained_revision\") VALUES ($1, 1, 1) ON CONFLICT (\"filesystem_id\") DO NOTHING"@,
        publish::ensure_head(filesystem_id).values == seq![
            ValueView::Bytes(Some(bytes::id_bytes(filesystem_id.value))),
        ],
        publish::lock_head(filesystem_id).sql
            == "SELECT \"current_revision\"::text FROM \"public\".\"w9pt_fs_state_authority_heads\" WHERE \"filesystem_id\" = $1 FOR UPDATE"@,
        publish::lock_head(filesystem_id).values == seq![
            ValueView::Bytes(Some(bytes::id_bytes(filesystem_id.value))),
        ],
        publish::lock_fence(filesystem_id, scope).sql
            == "SELECT 1 FROM \"public\".\"w9pt_fs_state_writer_fences\" WHERE \"filesystem_id\" = $1 AND \"writer_scope_id\" = $2 FOR UPDATE"@,
        publish::lock_fence(filesystem_id, scope).values == seq![
            ValueView::Bytes(Some(bytes::id_bytes(filesystem_id.value))),
            ValueView::Bytes(Some(bytes::id_bytes(scope.value))),
        ],
        lease_staging::count_operations(filesystem_id, limits).sql
            == "SELECT count(*)::bigint FROM (SELECT 1 FROM \"public\".\"w9pt_fs_state_writer_lease_operations\" WHERE \"filesystem_id\" = $1 LIMIT $2) AS \"bounded_history\""@,
        lease_staging::count_operations(filesystem_id, limits).values == seq![
            ValueView::Bytes(Some(bytes::id_bytes(filesystem_id.value))),
            ValueView::Int8(Some(limits.values.max_lease_operation_history as i64)),
        ],
{
}

} // verus!
