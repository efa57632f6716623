//! One attempt at a lease operation, from decision to decision.
//!
//! An attempt answers from what is retained under its identity, if anything
//! is. Otherwise it checks the receiver's limits and the history, locks the
//! authority head and the fence, lets the lease rules decide, and stages the
//! change and its retained outcome.
use vstd::prelude::*;

use sea_orm::DbErr;

use crate::database;
use crate::database::{classify_database_error, FailureView};
use crate::failure;
use crate::failure::{
    AdapterFailureKind, FailureCause, PostgresStateError, StateFailure, StateStoreOperation,
};
use crate::ids::{RecordRevision, StateRevision};
use crate::lease;
use crate::lease::{
    corruption, decode_stored_operation, internal, replay_stored_operation, AcquireLeaseOutcome,
    LeaseOperationOutcome, LeaseRejection, LeaseRequest, ReleaseLeaseOutcome, RenewLeaseOutcome,
    StoredOperationRow,
};
use crate::lease_staging;
use crate::lease_staging::{
    count_operations_statement, decode_fence, decode_head, lease_history_full,
    load_fence_statement, load_operation_statement, next_revision, require_one_row,
    retain_operation, stage_transition, FenceRow, FenceTransition, LeaseStep, LockedFenceState,
};
use crate::limits::StateLimits;
use crate::publish;
use crate::publish::{ensure_head_statement, lock_head_statement};
use crate::record::WriterLeaseRecord;
use crate::retry::{RetryBounds, RetryState};
use crate::sqlstate::{ConstraintAction, SqlFailureClass, SqlOperationPhase};
use crate::statement::PostgresQuery;

verus! {

/// Where an attempt stands.
#[derive(Clone, Copy, Debug, PartialEq, Eq, Structural)]
pub enum LeasePhase {
    /// The retained operation is read.
    Stored,
    /// The history is counted.
    History,
    /// The authority head is locked.
    Head,
    /// The fence is locked.
    Fence,
    /// The lease rules decide.
    Deciding,
    /// The lease rules decide at the revision to be published.
    Granting,
    /// A staged statement runs.
    Staging(usize),
    /// The transaction commits.
    Committing,
    /// The attempt is over.
    Finished,
}

/// What an attempt wants done next.
#[derive(Clone, Debug)]
pub enum LeaseAction {
    /// Read the retained operation.
    LoadOperation(PostgresQuery),
    /// Count the retained operations.
    CountHistory(PostgresQuery),
    /// Create the missing authority head, then lock and read it.
    LockHead {
        /// Creates the head.
        ensure: PostgresQuery,
        /// Locks and reads the head.
        lock: PostgresQuery,
    },
    /// Lock and read the fence.
    LoadFence(PostgresQuery),
    /// Observe the clock and let the lease rules decide.
    Decide,
    /// Let the lease rules decide again, at this revision.
    Grant(RecordRevision),
    /// Execute a statement and report the affected rows.
    Execute(PostgresQuery),
    /// Commit the transaction.
    Commit,
    /// Answer the request.
    Finish,
}

/// One attempt at a lease operation.
pub struct LeaseAttempt {
    /// The request.
    pub request: LeaseRequest,
    /// Limits of the receiver.
    pub limits: StateLimits,
    /// Revision of the locked authority head.
    pub current: StateRevision,
    /// Revision that the attempt publishes.
    pub next: StateRevision,
    /// The locked fence.
    pub fence: LockedFenceState,
    /// Staged statements.
    pub steps: Vec<LeaseStep>,
    /// Answer, once there is one.
    pub outcome: Option<LeaseOperationOutcome>,
    /// Where the attempt stands.
    pub phase: LeasePhase,
}

/// An outcome answers the kind of request.
pub open spec fn same_family(request: LeaseRequest, outcome: LeaseOperationOutcome) -> bool {
    match request {
        LeaseRequest::Acquire(_) => outcome is Acquire,
        LeaseRequest::Renew(_) => outcome is Renew,
        LeaseRequest::Release(_) => outcome is Release,
    }
}

/// What the receiver's limits reject.
pub open spec fn limit_rejection(request: LeaseRequest, limits: StateLimits) -> Option<
    LeaseOperationOutcome,
> {
    match request.duration_of() {
        Some(duration) => if 1 <= duration <= limits.values.max_lease_duration_ticks {
            None
        } else {
            Some(request.rejected(LeaseRejection::InvalidDuration))
        },
        None => None,
    }
}

/// The failure of lease rules that change their mind within one transaction.
pub open spec fn wavering(request: LeaseRequest) -> StateFailure {
    failure::plain_failure(
        request.operation_of(),
        AdapterFailureKind::Internal,
        if request is Acquire {
            "lease grant changed outcome during one transaction"
        } else {
            "lease renewal changed outcome during one transaction"
        },
        FailureCause::Plain,
    )
}

/// The change that a lease record brings about.
pub open spec fn record_transition(request: LeaseRequest, record: WriterLeaseRecord) -> FenceTransition {
    if request is Acquire {
        FenceTransition::Grant(record)
    } else {
        FenceTransition::Renew(record)
    }
}

impl LeaseAttempt {
    /// The attempt is consistent: it commits only with an answer of the
    /// request's kind.
    pub open spec fn well_formed(self) -> bool {
        &&& self.outcome is Some ==> same_family(self.request, self.outcome->0)
        &&& match self.phase {
            LeasePhase::Granting => !(self.request is Release) && self.current.next() == Some(
                self.next,
            ),
            LeasePhase::Staging(index) => index < self.steps@.len() && self.outcome is Some,
            LeasePhase::Committing => self.outcome is Some,
            LeasePhase::Finished => self.outcome is Some,
            _ => true,
        }
    }

    /// Two states of one attempt serve the same request.
    pub open spec fn same_request(self, other: Self) -> bool {
        self.request == other.request && self.limits == other.limits
    }

    /// The attempt commits with an answer.
    pub open spec fn commits(
        self,
        result: Result<LeaseAction, PostgresStateError>,
        outcome: LeaseOperationOutcome,
    ) -> bool {
        &&& result matches Ok(LeaseAction::Commit)
        &&& self.well_formed()
        &&& self.phase == LeasePhase::Committing
        &&& self.outcome == Some(outcome)
    }

    /// The attempt fails.
    pub open spec fn fails(
        result: Result<LeaseAction, PostgresStateError>,
        failure: StateFailure,
    ) -> bool {
        result is Err && result->Err_0@ == failure
    }

    /// The attempt runs its staged statements from an index on.
    pub open spec fn runs(
        self,
        result: Result<LeaseAction, PostgresStateError>,
        index: int,
    ) -> bool {
        &&& self.well_formed()
        &&& if index < self.steps@.len() {
            &&& self.phase == LeasePhase::Staging(index as usize)
            &&& result matches Ok(LeaseAction::Execute(statement)) && statement@
                == self.steps@[index].statement@
        } else {
            &&& self.phase == LeasePhase::Committing
            &&& result matches Ok(LeaseAction::Commit)
        }
    }

    /// The attempt stages a granted operation and runs it.
    pub open spec fn stages(
        self,
        result: Result<LeaseAction, PostgresStateError>,
        transition: FenceTransition,
    ) -> bool {
        &&& lease_staging::step_views(self.steps@) == lease_staging::transition_steps(
            self.request,
            transition,
            self.next.value,
            self.limits.values.max_change_history_commits,
        )
        &&& self.outcome == Some(lease_staging::transition_outcome(transition))
        &&& self.runs(result, 0)
    }

    /// Starts an attempt.
    pub fn new(request: LeaseRequest, limits: StateLimits) -> (result: (Self, LeaseAction))
        ensures
            result.0.well_formed(),
            result.0.request == request,
            result.0.limits == limits,
            result.0.phase == LeasePhase::Stored,
            result.0.steps@.len() == 0,
            result.0.outcome is None,
            result.1 matches LeaseAction::LoadOperation(statement) && statement@
                == lease_staging::load_operation(request),
    {
        (
            LeaseAttempt {
                request,
                limits,
                current: StateRevision { value: 1 },
                next: StateRevision { value: 1 },
                fence: LockedFenceState { greatest: None, current: None },
                steps: Vec::new(),
                outcome: None,
                phase: LeasePhase::Stored,
            },
            LeaseAction::LoadOperation(load_operation_statement(request)),
        )
    }

    fn commit_with(&mut self, outcome: LeaseOperationOutcome) -> (result: LeaseAction)
        requires
            same_family(old(self).request, outcome),
        ensures
            final(self).same_request(*old(self)),
            final(self).steps == old(self).steps,
            final(self).commits(Ok(result), outcome),
    {
        self.outcome = Some(outcome);
        self.phase = LeasePhase::Committing;
        LeaseAction::Commit
    }

    fn run_from(&mut self, index: usize) -> (result: LeaseAction)
        requires
            old(self).outcome is Some,
            same_family(old(self).request, old(self).outcome->0),
        ensures
            final(self).same_request(*old(self)),
            final(self).steps == old(self).steps,
            final(self).outcome == old(self).outcome,
            final(self).next == old(self).next,
            final(self).current == old(self).current,
            final(self).fence == old(self).fence,
            final(self).runs(Ok(result), index as int),
    {
        if index < self.steps.len() {
            self.phase = LeasePhase::Staging(index);
            LeaseAction::Execute(self.steps[index].statement.copied())
        } else {
            self.phase = LeasePhase::Committing;
            LeaseAction::Commit
        }
    }

    /// The attempt answers from a retained operation, or goes on to count.
    pub open spec fn after_stored(
        self,
        after: Self,
        result: Result<LeaseAction, PostgresStateError>,
        row: Option<&StoredOperationRow>,
    ) -> bool {
        match row {
            Some(row) => match lease::stored_failure(*row, self.request.operation_of()) {
                Some(failure) => Self::fails(result, failure),
                None => match lease::replayed(
                    self.request,
                    row.kind,
                    row.fingerprint@,
                    row.outcome_tag,
                    lease::stored_grant(*row),
                ) {
                    Ok(outcome) => after.commits(result, outcome),
                    Err(text) => Self::fails(
                        result,
                        lease::lease_corruption(
                            self.request.operation_of(),
                            text,
                            FailureCause::Plain,
                        ),
                    ),
                },
            },
            None => match limit_rejection(self.request, self.limits) {
                Some(outcome) => after.commits(result, outcome),
                None => {
                    &&& after.well_formed()
                    &&& after.phase == LeasePhase::History
                    &&& result matches Ok(LeaseAction::CountHistory(statement)) && statement@
                        == lease_staging::count_operations(
                        self.request.authority(),
                        self.limits,
                    )
                },
            },
        }
    }

    /// Takes what is retained under the identity of the operation: a retained
    /// operation answers, and without one the receiver's limits are checked.
    /// Either way nothing is staged: an answered operation commits at once.
    pub fn stored(&mut self, row: Option<&StoredOperationRow>) -> (result: Result<
        LeaseAction,
        PostgresStateError,
    >)
        requires
            old(self).well_formed(),
            old(self).phase == LeasePhase::Stored,
        ensures
            final(self).same_request(*old(self)),
            final(self).steps == old(self).steps,
            old(self).after_stored(*final(self), result, row),
    {
        let request = self.request;
        match row {
            Some(row) => {
                let stored = decode_stored_operation(row, request.operation())?;
                match replay_stored_operation(request, &stored) {
                    Ok(outcome) => Ok(self.commit_with(outcome)),
                    Err(text) => Err(
                        corruption(request.operation(), text, FailureCause::Plain),
                    ),
                }
            },
            None => match request.validate_receiver_limits(self.limits) {
                Some(outcome) => Ok(self.commit_with(outcome)),
                None => {
                    self.phase = LeasePhase::History;
                    Ok(
                        LeaseAction::CountHistory(
                            count_operations_statement(request.filesystem_id(), self.limits),
                        ),
                    )
                },
            },
        }
    }

    /// The attempt locks the head while there is room for another operation.
    pub open spec fn after_history(
        self,
        after: Self,
        result: Result<LeaseAction, PostgresStateError>,
        retained: i64,
    ) -> bool {
        if retained >= self.limits.values.max_lease_operation_history {
            after.commits(
                result,
                self.request.rejected(LeaseRejection::OperationHistoryFull),
            )
        } else {
            &&& after.well_formed()
            &&& after.phase == LeasePhase::Head
            &&& result matches Ok(LeaseAction::LockHead { ensure, lock }) && ensure@
                == publish::ensure_head(self.request.authority()) && lock@
                == publish::lock_head(self.request.authority())
        }
    }

    /// Takes the number of retained operations.
    pub fn history(&mut self, retained: i64) -> (result: Result<LeaseAction, PostgresStateError>)
        requires
            old(self).well_formed(),
            old(self).phase == LeasePhase::History,
        ensures
            final(self).same_request(*old(self)),
            old(self).after_history(*final(self), result, retained),
    {
        let request = self.request;
        if lease_history_full(retained, self.limits) {
            return Ok(self.commit_with(request.history_full()));
        }
        self.phase = LeasePhase::Head;
        Ok(
            LeaseAction::LockHead {
                ensure: ensure_head_statement(request.filesystem_id()),
                lock: lock_head_statement(request.filesystem_id()),
            },
        )
    }

    /// The attempt knows the revision of the head and reads its fence.
    pub open spec fn after_head(
        self,
        after: Self,
        result: Result<LeaseAction, PostgresStateError>,
        revision: Seq<char>,
    ) -> bool {
        match lease_staging::head_failure(revision, self.request.operation_of()) {
            Some(failure) => Self::fails(result, failure),
            None => {
                &&& after.well_formed()
                &&& after.phase == LeasePhase::Fence
                &&& after.current.value == crate::numeric::parsed(revision)
                &&& result matches Ok(LeaseAction::LoadFence(statement)) && statement@
                    == lease_staging::locked_fence(self.request)
            },
        }
    }

    /// Takes the revision of the locked authority head.
    pub fn head(&mut self, revision: &String) -> (result: Result<LeaseAction, PostgresStateError>)
        requires
            old(self).well_formed(),
            old(self).phase == LeasePhase::Head,
        ensures
            final(self).same_request(*old(self)),
            old(self).after_head(*final(self), result, revision@),
    {
        let request = self.request;
        self.current = decode_head(revision, request.operation())?;
        self.phase = LeasePhase::Fence;
        Ok(
            LeaseAction::LoadFence(load_fence_statement(request.filesystem_id(), request.scope())),
        )
    }

    /// The attempt knows its fence and asks the rules of leases.
    pub open spec fn after_fence(
        self,
        after: Self,
        result: Result<LeaseAction, PostgresStateError>,
        row: Option<&FenceRow>,
    ) -> bool {
        let request = self.request;
        let fs = request.authority();
        let scope = request.scope_of();
        let failure = match row {
            Some(row) => lease_staging::fence_failure(
                fs,
                scope,
                *row,
                self.limits,
                request.operation_of(),
            ),
            None => None,
        };
        match failure {
            Some(failure) => Self::fails(result, failure),
            None => {
                &&& after.well_formed()
                &&& after.phase == LeasePhase::Deciding
                &&& after.fence == lease_staging::fence_state(
                    fs,
                    scope,
                    match row {
                        Some(row) => Some(*row),
                        None => None,
                    },
                )
                &&& result matches Ok(LeaseAction::Decide)
            },
        }
    }

    /// Takes the locked fence row, if there is one.
    pub fn fence(&mut self, row: Option<&FenceRow>) -> (result: Result<
        LeaseAction,
        PostgresStateError,
    >)
        requires
            old(self).well_formed(),
            old(self).phase == LeasePhase::Fence,
        ensures
            final(self).same_request(*old(self)),
            final(self).current == old(self).current,
            old(self).after_fence(*final(self), result, row),
    {
        let request = self.request;
        self.fence = decode_fence(
            request.filesystem_id(),
            request.scope(),
            row,
            self.limits,
            request.operation(),
        )?;
        self.phase = LeasePhase::Deciding;
        Ok(LeaseAction::Decide)
    }

    /// The attempt retains a rejection, releases, or asks for the lease.
    pub open spec fn after_decision(
        self,
        after: Self,
        result: Result<LeaseAction, PostgresStateError>,
        verdict: Result<(), LeaseRejection>,
    ) -> bool {
        match verdict {
            Err(rejection) => {
                let request = self.request;
                let outcome = request.rejected(rejection);
                match lease::retained(request, outcome) {
                    Err(text) => Self::fails(
                        result,
                        failure::plain_failure(
                            request.operation_of(),
                            AdapterFailureKind::Internal,
                            text,
                            FailureCause::Plain,
                        ),
                    ),
                    Ok(retained) => {
                        &&& after.outcome == Some(outcome)
                        &&& lease_staging::step_views(after.steps@) == seq![
                            lease_staging::StepView {
                                statement: lease_staging::retain_statement(request, retained),
                                action: None,
                            },
                        ]
                        &&& after.runs(result, 0)
                    },
                }
            },
            Ok(()) => match self.current.next() {
                None => Self::fails(
                    result,
                    failure::plain_failure(
                        self.request.operation_of(),
                        AdapterFailureKind::Internal,
                        "",
                        FailureCause::Value(crate::ids::InvalidValue::Exhausted),
                    ),
                ),
                Some(next) => {
                    &&& after.next == next
                    &&& if self.request is Release {
                        after.stages(result, FenceTransition::Release)
                    } else {
                        &&& after.well_formed()
                        &&& after.phase == LeasePhase::Granting
                        &&& result matches Ok(LeaseAction::Grant(revision)) && revision.value
                            == next.value
                    }
                },
            },
        }
    }

    /// Takes what the lease rules decided. A rejection is retained; a release
    /// is staged; a grant is decided again at the revision to be published.
    pub fn decided(&mut self, verdict: Result<(), LeaseRejection>) -> (result: Result<
        LeaseAction,
        PostgresStateError,
    >)
        requires
            old(self).well_formed(),
            old(self).phase == LeasePhase::Deciding,
        ensures
            final(self).same_request(*old(self)),
            final(self).current == old(self).current,
            final(self).fence == old(self).fence,
            old(self).after_decision(*final(self), result, verdict),
    {
        let request = self.request;
        match verdict {
            Err(rejection) => {
                let outcome = match request {
                    LeaseRequest::Acquire(_) => LeaseOperationOutcome::Acquire(
                        AcquireLeaseOutcome::Rejected(rejection),
                    ),
                    LeaseRequest::Renew(_) => LeaseOperationOutcome::Renew(
                        RenewLeaseOutcome::Rejected(rejection),
                    ),
                    LeaseRequest::Release(_) => LeaseOperationOutcome::Release(
                        ReleaseLeaseOutcome::Rejected(rejection),
                    ),
                };
                let statement = retain_operation(request, outcome)?;
                let ghost added = lease_staging::StepView { statement: statement@, action: None };
                let mut steps: Vec<LeaseStep> = Vec::new();
                steps.push(LeaseStep { statement, action: None });
                assert(lease_staging::step_views(steps@) =~= seq![added]);
                self.steps = steps;
                self.outcome = Some(outcome);
                Ok(self.run_from(0))
            },
            Ok(()) => {
                let (next, revision) = next_revision(self.current, request.operation())?;
                self.next = next;
                match request {
                    LeaseRequest::Release(_) => {
                        let (steps, outcome) = stage_transition(
                            request,
                            FenceTransition::Release,
                            next,
                            self.limits.values.max_change_history_commits,
                        )?;
                        self.steps = steps;
                        self.outcome = Some(outcome);
                        Ok(self.run_from(0))
                    },
                    _ => {
                        self.phase = LeasePhase::Granting;
                        Ok(LeaseAction::Grant(revision))
                    },
                }
            },
        }
    }

    /// The attempt stages a lease that was granted.
    pub open spec fn after_grant(
        self,
        after: Self,
        result: Result<LeaseAction, PostgresStateError>,
        verdict: Result<WriterLeaseRecord, LeaseRejection>,
    ) -> bool {
        match verdict {
            Err(_) => Self::fails(result, wavering(self.request)),
            Ok(record) => after.stages(
                result,
                record_transition(self.request, record),
            ),
        }
    }

    /// Takes the lease record that the lease rules grant at the revision to be
    /// published. That they now reject what they granted is an internal
    /// failure.
    pub fn granted(&mut self, verdict: Result<WriterLeaseRecord, LeaseRejection>) -> (result: Result<
        LeaseAction,
        PostgresStateError,
    >)
        requires
            old(self).well_formed(),
            old(self).phase == LeasePhase::Granting,
        ensures
            final(self).same_request(*old(self)),
            final(self).next == old(self).next,
            final(self).fence == old(self).fence,
            old(self).after_grant(*final(self), result, verdict),
    {
        let request = self.request;
        let transition = match (request, verdict) {
            (LeaseRequest::Acquire(_), Ok(record)) => FenceTransition::Grant(record),
            (_, Ok(record)) => FenceTransition::Renew(record),
            (LeaseRequest::Acquire(_), Err(_)) => {
                return Err(
                    internal(
                        request.operation(),
                        "lease grant changed outcome during one transaction",
                        FailureCause::Plain,
                    ),
                );
            },
            (_, Err(_)) => {
                return Err(
                    internal(
                        request.operation(),
                        "lease renewal changed outcome during one transaction",
                        FailureCause::Plain,
                    ),
                );
            },
        };
        let (steps, outcome) = stage_transition(
            request,
            transition,
            self.next,
            self.limits.values.max_change_history_commits,
        )?;
        self.steps = steps;
        self.outcome = Some(outcome);
        Ok(self.run_from(0))
    }

    /// The attempt runs its next step, or commits.
    pub open spec fn after_execution(
        self,
        after: Self,
        result: Result<LeaseAction, PostgresStateError>,
        affected: u64,
    ) -> bool {
        let index = self.phase->Staging_0 as int;
        let failure = match self.steps@[index].action {
            Some(action) => lease_staging::row_count_failure(
                affected,
                self.request.operation_of(),
                action,
            ),
            None => None,
        };
        match failure {
            Some(failure) => Self::fails(result, failure),
            None => after.runs(result, index + 1),
        }
    }

    /// Takes the number of rows that a staged statement affected.
    pub fn executed(&mut self, affected: u64) -> (result: Result<LeaseAction, PostgresStateError>)
        requires
            old(self).well_formed(),
            old(self).phase is Staging,
        ensures
            final(self).same_request(*old(self)),
            final(self).steps == old(self).steps,
            final(self).outcome == old(self).outcome,
            old(self).after_execution(*final(self), result, affected),
    {
        let index: usize = match self.phase {
            LeasePhase::Staging(index) => index,
            _ => 0,
        };
        let count: usize = self.steps.len();
        assert(index < count);
        match self.steps[index].action {
            Some(action) => {
                require_one_row(affected, self.request.operation(), action)?;
            },
            None => {},
        }
        Ok(self.run_from(index + 1))
    }

    /// The transaction is committed: the answer may be given.
    pub fn committed(&mut self) -> (result: LeaseOperationOutcome)
        requires
            old(self).well_formed(),
            old(self).phase == LeasePhase::Committing,
        ensures
            final(self).same_request(*old(self)),
            final(self).well_formed(),
            final(self).phase == LeasePhase::Finished,
            final(self).outcome == old(self).outcome,
            old(self).outcome == Some(result),
            same_family(old(self).request, result),
    {
        self.phase = LeasePhase::Finished;
        match self.outcome {
            Some(outcome) => outcome,
            None => self.request.history_full(),
        }
    }
}

/// The failure of an answer of another kind than its request.
pub open spec fn family_failure(operation: StateStoreOperation) -> StateFailure {
    failure::plain_failure(
        operation,
        AdapterFailureKind::Internal,
        "lease executor returned the wrong outcome family",
        FailureCause::Plain,
    )
}

/// The answer to an acquisition.
pub fn acquire_outcome(outcome: LeaseOperationOutcome) -> (result: Result<
    AcquireLeaseOutcome,
    PostgresStateError,
>)
    ensures
        match outcome {
            LeaseOperationOutcome::Acquire(acquire) => result == Ok::<
                AcquireLeaseOutcome,
                PostgresStateError,
            >(acquire),
            _ => result is Err && result->Err_0@ == family_failure(
                StateStoreOperation::AcquireLease,
            ),
        },
{
    match outcome {
        LeaseOperationOutcome::Acquire(acquire) => Ok(acquire),
        _ => Err(
            internal(
                StateStoreOperation::AcquireLease,
                "lease executor returned the wrong outcome family",
                FailureCause::Plain,
            ),
        ),
    }
}

/// The answer to a renewal.
pub fn renew_outcome(outcome: LeaseOperationOutcome) -> (result: Result<
    RenewLeaseOutcome,
    PostgresStateError,
>)
    ensures
        match outcome {
            LeaseOperationOutcome::Renew(renew) => result == Ok::<
                RenewLeaseOutcome,
                PostgresStateError,
            >(renew),
            _ => result is Err && result->Err_0@ == family_failure(StateStoreOperation::RenewLease),
        },
{
    match outcome {
        LeaseOperationOutcome::Renew(renew) => Ok(renew),
        _ => Err(
            internal(
                StateStoreOperation::RenewLease,
                "lease executor returned the wrong outcome family",
                FailureCause::Plain,
            ),
        ),
    }
}

/// The answer to a release.
pub fn release_outcome(outcome: LeaseOperationOutcome) -> (result: Result<
    ReleaseLeaseOutcome,
    PostgresStateError,
>)
    ensures
        match outcome {
            LeaseOperationOutcome::Release(release) => result == Ok::<
                ReleaseLeaseOutcome,
                PostgresStateError,
            >(release),
            _ => result is Err && result->Err_0@ == family_failure(
                StateStoreOperation::ReleaseLease,
            ),
        },
{
    match outcome {
        LeaseOperationOutcome::Release(release) => Ok(release),
        _ => Err(
            internal(
                StateStoreOperation::ReleaseLease,
                "lease executor returned the wrong outcome family",
                FailureCause::Plain,
            ),
        ),
    }
}

/// Why a lease attempt may run again.
#[derive(Clone, Copy, Debug, PartialEq, Eq, Structural)]
pub enum RetryReason {
    /// The attempt was aborted without effect.
    DefinitiveAbort,
    /// Another attempt retained the same operation.
    ResolveLedger,
    /// The attempt may have taken effect; what it retained will tell.
    AmbiguousCommit,
}

/// Why an attempt with a class of failure may run again.
pub open spec fn retry_reason(class: SqlFailureClass<Seq<char>>) -> Option<RetryReason> {
    match class {
        SqlFailureClass::RetryIdentical(_) => Some(RetryReason::DefinitiveAbort),
        SqlFailureClass::KnownConstraint(violation) => if violation.action
            == ConstraintAction::ResolveLedger {
            Some(RetryReason::ResolveLedger)
        } else {
            None
        },
        SqlFailureClass::AmbiguousCommit => Some(RetryReason::AmbiguousCommit),
        _ => None,
    }
}

/// Why an attempt with a class of failure may run again.
pub fn retry_reason_for_class(class: &SqlFailureClass) -> (result: Option<RetryReason>)
    ensures
        result == retry_reason(class@),
{
    match class {
        SqlFailureClass::RetryIdentical(_) => Some(RetryReason::DefinitiveAbort),
        SqlFailureClass::KnownConstraint(violation) => match violation.action {
            ConstraintAction::ResolveLedger => Some(RetryReason::ResolveLedger),
            _ => None,
        },
        SqlFailureClass::AmbiguousCommit => Some(RetryReason::AmbiguousCommit),
        _ => None,
    }
}

/// Why an attempt that a database failure ended may run again.
pub fn classify_retry(phase: SqlOperationPhase, error: &DbErr) -> (result: Option<RetryReason>)
    ensures
        result == retry_reason(database::failure_class(phase, database::described(*error))),
{
    let class = classify_database_error(phase, error);
    retry_reason_for_class(&class)
}

/// Why an attempt that a reported failure ended may run again.
pub fn reported_retry(error: &PostgresStateError) -> (result: Option<RetryReason>)
    ensures
        result == (if error.kind == AdapterFailureKind::Serialization {
            Some(RetryReason::DefinitiveAbort)
        } else {
            None
        }),
{
    if error.kind == AdapterFailureKind::Serialization {
        Some(RetryReason::DefinitiveAbort)
    } else {
        None
    }
}

/// What is counted where an attempt may be made again.
pub open spec fn spends(
    before: RetryState,
    after: RetryState,
    reason: Option<RetryReason>,
    bounds: RetryBounds,
    result: bool,
) -> bool {
    match reason {
        None => !result && after == before,
        Some(RetryReason::DefinitiveAbort) => {
            &&& result == (before.definitive < bounds.definitive)
            &&& after.recovery == before.recovery
            &&& after.definitive == before.definitive + (if result {
                1int
            } else {
                0
            })
        },
        Some(_) => {
            &&& result == (before.recovery < bounds.recovery)
            &&& after.definitive == before.definitive
            &&& after.recovery == before.recovery + (if result {
                1int
            } else {
                0
            })
        },
    }
}

/// Whether an attempt runs again for a reason; if so, the retry counts.
pub fn try_again(retries: &mut RetryState, reason: Option<RetryReason>, bounds: RetryBounds) -> (result:
    bool)
    requires
        old(retries).within(bounds),
    ensures
        final(retries).within(bounds),
        spends(*old(retries), *final(retries), reason, bounds, result),
        result ==> final(retries).left(bounds) < old(retries).left(bounds),
{
    match reason {
        None => false,
        Some(RetryReason::DefinitiveAbort) => {
            if retries.definitive < bounds.definitive {
                retries.definitive = retries.definitive + 1;
                true
            } else {
                false
            }
        },
        Some(_) => {
            if retries.recovery < bounds.recovery {
                retries.recovery = retries.recovery + 1;
                true
            } else {
                false
            }
        },
    }
}

/// Outside of `COMMIT` no failure leaves the outcome of a lease operation
/// open.
pub proof fn law_open_outcomes_come_from_commits(phase: SqlOperationPhase, failure: FailureView)
    ensures
        retry_reason(database::failure_class(phase, failure)) == Some(RetryReason::AmbiguousCommit)
            ==> phase == SqlOperationPhase::Commit,
{
}

} // verus!
