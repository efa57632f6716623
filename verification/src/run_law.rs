//! How a commit is tried, tried again and answered.
use vstd::prelude::*;

use crate::commit_run::{AttemptEnd, CommitRun, RunPhase, RunStep};
use crate::database;
use crate::failure::{AdapterFailureKind, PostgresStateError};
use crate::lease_attempt;
use crate::lease_attempt::RetryReason;
use crate::request::CommitOutcome;
use crate::retry::{RetryBounds, RetryState};
use crate::sqlstate::{ConstraintAction, SqlFailureClass};

verus! {

/// What a step makes the caller do, or why it fails.
pub type Stepped = Result<RunStep, PostgresStateError>;

/// A run that answers an outcome.
pub open spec fn ends_with(after: CommitRun, result: Stepped, outcome: CommitOutcome) -> bool {
    &&& result matches Ok(RunStep::Answer)
    &&& after.phase == RunPhase::Answered
    &&& after.outcome == Some(outcome)
}

/// A run that makes another attempt, after so many more that are counted.
pub open spec fn tries(before: CommitRun, after: CommitRun, result: Stepped, more: int) -> bool {
    &&& result matches Ok(RunStep::Attempt)
    &&& after.phase == RunPhase::Attempting
    &&& after.retries.definitive == before.retries.definitive + more
    &&& after.retries.recovery == before.retries.recovery
}

/// A run whose commit is open: it asks the ledger once more while it may, and
/// answers that its own mutation is open once it may not.
pub open spec fn stays_open(before: CommitRun, after: CommitRun, result: Stepped) -> bool {
    if before.retries.recovery >= before.bounds.recovery {
        ends_with(after, result, CommitOutcome::Ambiguous(before.mutation))
    } else {
        &&& result matches Ok(RunStep::Probe)
        &&& after.phase == RunPhase::Recovering
        &&& after.retries.recovery == before.retries.recovery + 1
        &&& after.retries.definitive == before.retries.definitive
    }
}

/// What the ledger holds is answered before anything else, then what the rules
/// of requests refuse; only then is an attempt made, and none is counted.
pub proof fn law_ledgers_are_asked_before_attempts(
    before: CommitRun,
    after: CommitRun,
    result: Stepped,
    found: Result<Option<CommitOutcome>, PostgresStateError>,
    refusal: Option<CommitOutcome>,
)
    requires
        before.after_probe(after, result, found, refusal),
    ensures
        found matches Ok(Some(outcome)) ==> ends_with(after, result, outcome),
        found matches Ok(None) ==> match refusal {
            Some(outcome) => ends_with(after, result, outcome),
            None => tries(before, after, result, 0),
        },
        found matches Err(error) ==> result == Err::<RunStep, PostgresStateError>(error),
{
}

/// The answer of an attempt is the answer of the run.
pub proof fn law_attempted_outcomes_are_answered(
    before: CommitRun,
    after: CommitRun,
    result: Stepped,
    outcome: CommitOutcome,
)
    requires
        before.after_attempt(after, result, AttemptEnd::Outcome(outcome)),
    ensures
        ends_with(after, result, outcome),
{
}

/// A reported failure is the failure of the run, unless it may be tried again
/// and has not been too often; one that names no class is tried again exactly
/// where it is a serialization failure.
pub proof fn law_reported_failures_end_the_run(
    before: CommitRun,
    after: CommitRun,
    result: Stepped,
    error: PostgresStateError,
)
    requires
        before.after_attempt(after, result, AttemptEnd::Failed(error)),
    ensures
        result == Err::<RunStep, PostgresStateError>(error) || tries(before, after, result, 1),
        before.retries.definitive >= before.bounds.definitive ==> result == Err::<
            RunStep,
            PostgresStateError,
        >(error),
        error.sql_failure is None && before.retries.definitive < before.bounds.definitive ==> (tries(
            before,
            after,
            result,
            1,
        ) <==> error.kind == AdapterFailureKind::Serialization),
{
}

/// A database failure is tried again within bounds where it left nothing open
/// and decided nothing, or where the ledger decides it; a commit that it left
/// open is looked up; and anything else ends the run.
pub proof fn law_database_failures_are_told_apart(
    before: CommitRun,
    after: CommitRun,
    result: Stepped,
    end: AttemptEnd,
)
    requires
        end is Database,
        before.after_attempt(after, result, end),
    ensures
        ({
            let class = database::failure_class(
                end->phase,
                database::described(end->source),
            );
            let bounded = before.retries.definitive < before.bounds.definitive;
            match class {
                SqlFailureClass::AmbiguousCommit => stays_open(before, after, result),
                SqlFailureClass::RetryIdentical(_) => if bounded {
                    tries(before, after, result, 1)
                } else {
                    result is Err
                },
                SqlFailureClass::KnownConstraint(violation) => if bounded && violation.action
                    != ConstraintAction::InvariantFailure {
                    tries(before, after, result, 1)
                } else {
                    result is Err
                },
                _ => result is Err,
            }
        }),
{
}

/// An open commit is answered with what the ledger holds of it; where the
/// ledger holds nothing, the commit is tried again; and where the ledger cannot
/// be read, it stays open.
pub proof fn law_open_commits_are_looked_up(
    before: CommitRun,
    after: CommitRun,
    result: Stepped,
    found: Result<Option<CommitOutcome>, PostgresStateError>,
)
    requires
        before.after_recovery(after, result, found),
    ensures
        found matches Ok(Some(outcome)) ==> ends_with(after, result, outcome),
        found matches Ok(None) ==> tries(before, after, result, 0),
        found is Err ==> stays_open(before, after, result),
{
}

/// A lease operation is tried again only for a reason and only within the bound
/// of that reason: one that was aborted counts against one bound, one that is
/// open or left to the ledger against the other, and nothing else is counted.
pub proof fn law_further_attempts_are_counted(
    before: RetryState,
    after: RetryState,
    reason: Option<RetryReason>,
    bounds: RetryBounds,
    again: bool,
)
    requires
        before.within(bounds),
        lease_attempt::spends(before, after, reason, bounds, again),
    ensures
        reason is None ==> !again,
        !again ==> after.definitive == before.definitive && after.recovery == before.recovery,
        again ==> after.definitive + after.recovery == before.definitive + before.recovery + 1,
        again && reason == Some(RetryReason::DefinitiveAbort) ==> before.definitive
            < bounds.definitive && after.recovery == before.recovery,
        again && reason != Some(RetryReason::DefinitiveAbort) ==> before.recovery < bounds.recovery
            && after.definitive == before.definitive,
        !again && reason == Some(RetryReason::DefinitiveAbort) ==> before.definitive
            >= bounds.definitive,
        !again && reason is Some && reason != Some(RetryReason::DefinitiveAbort)
            ==> before.recovery >= bounds.recovery,
{
}

} // verus!
