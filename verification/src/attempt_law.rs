//! How one attempt at a lease operation gets from its request to its answer.
use vstd::prelude::*;

use crate::failure::PostgresStateError;
use crate::lease::{
    AcquireLeaseOutcome, LeaseOperationOutcome, LeaseRejection, LeaseRequest, ReleaseLeaseOutcome,
    RenewLeaseOutcome, StoredOperationRow, WriterLeaseGrant,
};
use crate::lease_attempt::{LeaseAction, LeaseAttempt, LeasePhase};
use crate::lease_staging;
use crate::lease_staging::{FenceRow, FenceTransition};
use crate::numeric;
use crate::record::WriterLeaseRecord;

verus! {

/// What a step makes the caller do, or why it fails.
pub type Stepped = Result<LeaseAction, PostgresStateError>;

/// An outcome rejects the kind of operation that a request asks for.
pub open spec fn turns_down(
    request: LeaseRequest,
    outcome: LeaseOperationOutcome,
    rejection: LeaseRejection,
) -> bool {
    match request {
        LeaseRequest::Acquire(_) => outcome == LeaseOperationOutcome::Acquire(
            AcquireLeaseOutcome::Rejected(rejection),
        ),
        LeaseRequest::Renew(_) => outcome == LeaseOperationOutcome::Renew(
            RenewLeaseOutcome::Rejected(rejection),
        ),
        LeaseRequest::Release(_) => outcome == LeaseOperationOutcome::Release(
            ReleaseLeaseOutcome::Rejected(rejection),
        ),
    }
}

/// An attempt that only has to commit, and then answers an outcome.
pub open spec fn settles(after: LeaseAttempt, result: Stepped) -> bool {
    &&& result matches Ok(LeaseAction::Commit)
    &&& after.phase == LeasePhase::Committing
    &&& after.outcome is Some
}

/// An operation that is retained is answered without another look at anything;
/// one that is not goes on to the history, unless it asks for a duration that
/// is not taken.
pub proof fn law_retained_operations_settle(
    before: LeaseAttempt,
    after: LeaseAttempt,
    result: Stepped,
    row: Option<&StoredOperationRow>,
)
    requires
        before.after_stored(after, result, row),
    ensures
        row is Some ==> result is Err || settles(after, result),
        row is None ==> match before.request {
            LeaseRequest::Acquire(asked) => if asked.duration == 0 || asked.duration
                > before.limits.values.max_lease_duration_ticks {
                settles(after, result) && turns_down(
                    before.request,
                    after.outcome->0,
                    LeaseRejection::InvalidDuration,
                )
            } else {
                after.phase == LeasePhase::History && (result matches Ok(
                    LeaseAction::CountHistory(_),
                ))
            },
            LeaseRequest::Renew(asked) => if asked.duration == 0 || asked.duration
                > before.limits.values.max_lease_duration_ticks {
                settles(after, result) && turns_down(
                    before.request,
                    after.outcome->0,
                    LeaseRejection::InvalidDuration,
                )
            } else {
                after.phase == LeasePhase::History && (result matches Ok(
                    LeaseAction::CountHistory(_),
                ))
            },
            LeaseRequest::Release(_) => after.phase == LeasePhase::History && (result matches Ok(
                LeaseAction::CountHistory(_),
            )),
        },
{
}

/// A history that is full takes no further operation; one with room for one
/// more does.
pub proof fn law_full_histories_take_nothing(
    before: LeaseAttempt,
    after: LeaseAttempt,
    result: Stepped,
    retained: i64,
)
    requires
        before.after_history(after, result, retained),
    ensures
        retained >= before.limits.values.max_lease_operation_history ==> settles(after, result)
            && turns_down(
            before.request,
            after.outcome->0,
            LeaseRejection::OperationHistoryFull,
        ),
        retained < before.limits.values.max_lease_operation_history ==> after.phase
            == LeasePhase::Head && (result matches Ok(LeaseAction::LockHead { .. })),
{
}

/// The revision that an operation follows is the one that the locked head
/// spells, and it is never zero.
pub proof fn law_operations_follow_the_locked_head(
    before: LeaseAttempt,
    after: LeaseAttempt,
    result: Stepped,
    revision: u64,
)
    requires
        before.after_head(after, result, numeric::decimal(revision as nat)),
    ensures
        revision > 0 ==> {
            &&& result matches Ok(LeaseAction::LoadFence(_))
            &&& after.phase == LeasePhase::Fence
            &&& after.current.value == revision
        },
        revision == 0 ==> result is Err,
{
    numeric::law_decimal_round_trip(revision);
}

/// The rules of leases are asked about the locked fence as it stands: with no
/// row nothing was ever granted; a row keeps the greatest token, and an active
/// lease exactly where it holds one whole.
pub proof fn law_locked_fences_are_judged(
    before: LeaseAttempt,
    after: LeaseAttempt,
    result: Stepped,
    row: Option<&FenceRow>,
)
    requires
        before.after_fence(after, result, row),
    ensures
        result is Ok ==> {
            &&& result matches Ok(LeaseAction::Decide)
            &&& after.phase == LeasePhase::Deciding
            &&& match row {
                None => after.fence.greatest is None && after.fence.current is None,
                Some(row) => {
                    &&& after.fence.greatest matches Some(token) && token.value == numeric::parsed(
                        row.greatest_fencing_token@,
                    ) && token.value > 0
                    &&& after.fence.current is Some <==> row.active_lease_id is Some
                    &&& row.active_lease_id is Some <==> row.active_holder_id is Some
                    &&& row.active_lease_id is Some <==> row.active_deadline_tick is Some
                    &&& row.active_lease_id is Some <==> row.active_record_revision is Some
                    &&& after.fence.current matches Some(record) ==> {
                        &&& record.fencing_token == after.fence.greatest->0
                        &&& record.deadline.value == numeric::parsed(row.active_deadline_tick->0@)
                        &&& record.revision.value == numeric::parsed(row.active_record_revision->0@)
                    }
                },
            }
        },
{
}

/// A rejected operation is retained and nothing else is written: neither the
/// fence nor the log. It is answered with the rejection itself.
pub proof fn law_rejections_are_only_retained(
    before: LeaseAttempt,
    after: LeaseAttempt,
    result: Stepped,
    rejection: LeaseRejection,
)
    requires
        before.after_decision(after, result, Err(rejection)),
    ensures
        result is Ok ==> {
            &&& after.steps@.len() == 1
            &&& after.steps@[0].action is None
            &&& after.outcome is Some && turns_down(before.request, after.outcome->0, rejection)
            &&& result matches Ok(LeaseAction::Execute(statement)) && statement@
                == after.steps@[0].statement@
            &&& after.phase == LeasePhase::Staging(0)
        },
{
    if result is Ok {
        let views = lease_staging::step_views(after.steps@);
        assert(views.len() == 1);
        assert(views[0] == after.steps@[0]@);
    }
}

/// An operation that is not rejected is decided at the revision that follows
/// the head's, and fails where there is none: a release is staged at once,
/// anything else is asked for at that revision.
pub proof fn law_decisions_are_at_the_next_revision(
    before: LeaseAttempt,
    after: LeaseAttempt,
    result: Stepped,
)
    requires
        before.after_decision(after, result, Ok(())),
    ensures
        before.current.value == u64::MAX ==> result is Err,
        before.current.value < u64::MAX ==> {
            &&& after.next.value == before.current.value + 1
            &&& !(before.request is Release) ==> after.phase == LeasePhase::Granting && (result
                matches Ok(LeaseAction::Grant(revision)) && revision.value == before.current.value
                + 1)
            &&& before.request is Release ==> after.outcome == Some(
                LeaseOperationOutcome::Release(ReleaseLeaseOutcome::Released),
            ) && lease_staging::step_views(after.steps@) == lease_staging::transition_steps(
                after.request,
                FenceTransition::Release,
                (before.current.value + 1) as u64,
                after.limits.values.max_change_history_commits,
            )
        },
{
}

/// A grant names the scope, the holder, the lease, the token and the deadline of
/// a record.
pub open spec fn is_grant_of(grant: WriterLeaseGrant, record: WriterLeaseRecord) -> bool {
    &&& grant.fence.scope == record.scope
    &&& grant.fence.holder == record.holder
    &&& grant.fence.lease_id == record.lease_id
    &&& grant.fence.fencing_token == record.fencing_token
    &&& grant.deadline == record.deadline
}

/// A lease that was granted is staged as the change that the request asks for,
/// with the granted record, and answered with that record's fence and deadline.
pub proof fn law_granted_leases_are_staged(
    before: LeaseAttempt,
    after: LeaseAttempt,
    result: Stepped,
    record: WriterLeaseRecord,
)
    requires
        !(before.request is Release),
        before.after_grant(after, result, Ok(record)),
    ensures
        lease_staging::step_views(after.steps@) == lease_staging::transition_steps(
            after.request,
            match before.request {
                LeaseRequest::Acquire(_) => FenceTransition::Grant(record),
                _ => FenceTransition::Renew(record),
            },
            after.next.value,
            after.limits.values.max_change_history_commits,
        ),
        match (before.request, after.outcome) {
            (
                LeaseRequest::Acquire(_),
                Some(LeaseOperationOutcome::Acquire(AcquireLeaseOutcome::Granted(grant))),
            ) => is_grant_of(grant, record),
            (
                LeaseRequest::Renew(_),
                Some(LeaseOperationOutcome::Renew(RenewLeaseOutcome::Renewed(grant))),
            ) => is_grant_of(grant, record),
            _ => false,
        },
{
}

/// Rules that grant and then reject within one transaction fail the attempt.
pub proof fn law_wavering_rules_fail(
    before: LeaseAttempt,
    after: LeaseAttempt,
    result: Stepped,
    rejection: LeaseRejection,
)
    requires
        before.after_grant(after, result, Err(rejection)),
    ensures
        result is Err,
{
}

/// The staged statements run one after the other, each that must affect one
/// row goes on only where it did, and the transaction commits behind the last.
pub proof fn law_staged_statements_run_in_order(
    before: LeaseAttempt,
    after: LeaseAttempt,
    result: Stepped,
    affected: u64,
)
    requires
        before.phase is Staging,
        before.phase->Staging_0 < before.steps.len(),
        after.steps == before.steps,
        before.after_execution(after, result, affected),
    ensures
        ({
            let index = before.phase->Staging_0 as int;
            let step = before.steps@[index];
            &&& step.action is Some && affected != 1 ==> result is Err
            &&& step.action is None || affected == 1 ==> if index + 1 < before.steps@.len() {
                &&& after.phase == LeasePhase::Staging((index + 1) as usize)
                &&& result matches Ok(LeaseAction::Execute(statement)) && statement@
                    == before.steps@[index + 1].statement@
            } else {
                &&& after.phase == LeasePhase::Committing
                &&& result matches Ok(LeaseAction::Commit)
            }
        }),
{
}

} // verus!
