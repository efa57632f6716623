//! Attempts at one metadata commit, until it is answered.
//!
//! The ledger is asked before the first attempt. A failed attempt runs again
//! only where its failure permits it, and one whose commit may have taken
//! effect only after the ledger has said that it did not.
use vstd::prelude::*;

use sea_orm::DbErr;

use crate::database;
use crate::failure;
use crate::failure::{PostgresStateError, StateStoreOperation};
use crate::request::{CommitOutcome, CommitRequest, MutationContext};
use crate::retry;
use crate::retry::{retry_action, state_retry_action, RetryAction, RetryBounds, RetryState};
use crate::sqlstate::SqlOperationPhase;

verus! {

/// Where a commit stands.
#[derive(Clone, Copy, Debug, PartialEq, Eq, Structural)]
pub enum RunPhase {
    /// The ledger is asked whether the mutation is known.
    Probing,
    /// An attempt runs.
    Attempting,
    /// The ledger is asked what became of an attempt.
    Recovering,
    /// The commit is answered.
    Answered,
}

/// What a commit wants done next.
#[derive(Clone, Copy, Debug, PartialEq, Eq, Structural)]
pub enum RunStep {
    /// Ask the ledger.
    Probe,
    /// Run an attempt.
    Attempt,
    /// Answer the request.
    Answer,
}

/// How an attempt ended.
#[derive(Debug)]
pub enum AttemptEnd {
    /// With an answer.
    Outcome(CommitOutcome),
    /// With a reported failure.
    Failed(PostgresStateError),
    /// With a database failure in a phase.
    Database {
        /// The phase.
        phase: SqlOperationPhase,
        /// The failure.
        source: DbErr,
    },
}

/// One commit.
pub struct CommitRun {
    /// The mutation.
    pub mutation: MutationContext,
    /// How often it may be tried again.
    pub bounds: RetryBounds,
    /// How often it has been tried again.
    pub retries: RetryState,
    /// Answer, once there is one.
    pub outcome: Option<CommitOutcome>,
    /// Where the commit stands.
    pub phase: RunPhase,
}

impl CommitRun {
    /// The commit is consistent: it keeps its bounds, and one that is answered
    /// has an answer.
    pub open spec fn well_formed(self) -> bool {
        self.retries.within(self.bounds) && (self.phase == RunPhase::Answered
            ==> self.outcome is Some)
    }

    /// Two states of one commit serve the same mutation.
    pub open spec fn same_commit(self, other: Self) -> bool {
        self.mutation == other.mutation && self.bounds == other.bounds
    }

    /// The commit is answered.
    pub open spec fn answers(
        self,
        before: Self,
        result: Result<RunStep, PostgresStateError>,
        outcome: CommitOutcome,
    ) -> bool {
        &&& result == Ok::<RunStep, PostgresStateError>(RunStep::Answer)
        &&& self.well_formed()
        &&& self.phase == RunPhase::Answered
        &&& self.outcome == Some(outcome)
        &&& self.retries.definitive == before.retries.definitive
    }

    /// An attempt runs.
    pub open spec fn attempts(
        self,
        before: Self,
        result: Result<RunStep, PostgresStateError>,
        definitive: int,
    ) -> bool {
        &&& result == Ok::<RunStep, PostgresStateError>(RunStep::Attempt)
        &&& self.well_formed()
        &&& self.phase == RunPhase::Attempting
        &&& self.retries.definitive == before.retries.definitive + definitive
        &&& self.retries.recovery == before.retries.recovery
    }

    /// The ledger is asked what became of an attempt, as often as that is
    /// still permitted; then the answer stays open.
    pub open spec fn recovers(
        self,
        before: Self,
        result: Result<RunStep, PostgresStateError>,
    ) -> bool {
        if before.retries.recovery < before.bounds.recovery {
            &&& result == Ok::<RunStep, PostgresStateError>(RunStep::Probe)
            &&& self.well_formed()
            &&& self.phase == RunPhase::Recovering
            &&& self.retries.definitive == before.retries.definitive
            &&& self.retries.recovery == before.retries.recovery + 1
        } else {
            self.answers(before, result, CommitOutcome::Ambiguous(before.mutation))
        }
    }

    /// Starts a commit.
    pub fn start(request: &CommitRequest, bounds: RetryBounds) -> (result: (Self, RunStep))
        ensures
            result.0.well_formed(),
            result.0.mutation == request.mutation,
            result.0.bounds == bounds,
            result.0.retries.definitive == 0,
            result.0.retries.recovery == 0,
            result.0.phase == RunPhase::Probing,
            result.1 == RunStep::Probe,
    {
        (
            CommitRun {
                mutation: request.mutation,
                bounds,
                retries: RetryState::new(),
                outcome: None,
                phase: RunPhase::Probing,
            },
            RunStep::Probe,
        )
    }

    fn answer(&mut self, outcome: CommitOutcome) -> (result: Result<RunStep, PostgresStateError>)
        requires
            old(self).well_formed(),
        ensures
            final(self).same_commit(*old(self)),
            final(self).retries == old(self).retries,
            final(self).answers(*old(self), result, outcome),
    {
        self.outcome = Some(outcome);
        self.phase = RunPhase::Answered;
        Ok(RunStep::Answer)
    }

    fn recover(&mut self) -> (result: Result<RunStep, PostgresStateError>)
        requires
            old(self).well_formed(),
        ensures
            final(self).same_commit(*old(self)),
            final(self).recovers(*old(self), result),
    {
        let bounds = self.bounds;
        if self.retries.next_recovery(bounds) {
            self.phase = RunPhase::Recovering;
            Ok(RunStep::Probe)
        } else {
            let mutation = self.mutation;
            self.answer(CommitOutcome::Ambiguous(mutation))
        }
    }

    /// The run answers what the ledger or the rules say, or makes an attempt.
    pub open spec fn after_probe(
        self,
        after: Self,
        result: Result<RunStep, PostgresStateError>,
        found: Result<Option<CommitOutcome>, PostgresStateError>,
        refusal: Option<CommitOutcome>,
    ) -> bool {
        match found {
            Err(error) => result == Err::<RunStep, PostgresStateError>(error),
            Ok(Some(outcome)) => after.answers(self, result, outcome),
            Ok(None) => match refusal {
                Some(outcome) => after.answers(self, result, outcome),
                None => after.attempts(self, result, 0),
            },
        }
    }

    /// Takes what the ledger said before the first attempt, and the refusal of
    /// the request, if it is refused. A known mutation is answered even where
    /// the request would be refused.
    pub fn probed(
        &mut self,
        found: Result<Option<CommitOutcome>, PostgresStateError>,
        refusal: Option<CommitOutcome>,
    ) -> (result: Result<RunStep, PostgresStateError>)
        requires
            old(self).well_formed(),
            old(self).phase == RunPhase::Probing,
        ensures
            final(self).same_commit(*old(self)),
            old(self).after_probe(*final(self), result, found, refusal),
    {
        match found {
            Err(error) => Err(error),
            Ok(Some(outcome)) => self.answer(outcome),
            Ok(None) => match refusal {
                Some(outcome) => self.answer(outcome),
                None => {
                    self.phase = RunPhase::Attempting;
                    Ok(RunStep::Attempt)
                },
            },
        }
    }

    /// The run goes on from how an attempt ended.
    pub open spec fn after_attempt(
        self,
        after: Self,
        result: Result<RunStep, PostgresStateError>,
        end: AttemptEnd,
    ) -> bool {
        match end {
            AttemptEnd::Outcome(outcome) => after.answers(self, result, outcome),
            AttemptEnd::Failed(error) => if retry::state_retry(
                error.sql_failure,
                error.kind,
            ) is Some && self.retries.definitive < self.bounds.definitive {
                after.attempts(self, result, 1)
            } else {
                result == Err::<RunStep, PostgresStateError>(error)
            },
            AttemptEnd::Database { phase, source } => {
                let class = database::failure_class(phase, database::described(source));
                match retry::class_retry(class) {
                    Some(RetryAction::AmbiguousCommit) => after.recovers(
                        self,
                        result,
                    ),
                    permitted => if permitted is Some && self.retries.definitive < self.bounds.definitive {
                        after.attempts(self, result, 1)
                    } else {
                        &&& result is Err
                        &&& failure::reports_database(
                            result->Err_0@,
                            StateStoreOperation::Commit,
                            class,
                            source,
                        )
                    },
                }
            },
        }
    }

    /// Takes how an attempt ended.
    pub fn attempted(&mut self, end: AttemptEnd) -> (result: Result<RunStep, PostgresStateError>)
        requires
            old(self).well_formed(),
            old(self).phase == RunPhase::Attempting,
        ensures
            final(self).same_commit(*old(self)),
            old(self).after_attempt(*final(self), result, end),
    {
        match end {
            AttemptEnd::Outcome(outcome) => self.answer(outcome),
            AttemptEnd::Failed(error) => {
                if state_retry_action(&error).is_some() && self.retries.definitive
                    < self.bounds.definitive {
                    self.retries.definitive = self.retries.definitive + 1;
                    Ok(RunStep::Attempt)
                } else {
                    Err(error)
                }
            },
            AttemptEnd::Database { phase, source } => {
                match retry_action(phase, &source) {
                    Some(RetryAction::AmbiguousCommit) => {
                        return self.recover();
                    },
                    Some(_) => {
                        if self.retries.definitive < self.bounds.definitive {
                            self.retries.definitive = self.retries.definitive + 1;
                            return Ok(RunStep::Attempt);
                        }
                    },
                    None => {},
                }
                Err(PostgresStateError::from_database(StateStoreOperation::Commit, phase, source))
            },
        }
    }

    /// The run goes on from what the ledger says of an open commit.
    pub open spec fn after_recovery(
        self,
        after: Self,
        result: Result<RunStep, PostgresStateError>,
        found: Result<Option<CommitOutcome>, PostgresStateError>,
    ) -> bool {
        match found {
            Ok(Some(outcome)) => after.answers(self, result, outcome),
            Ok(None) => after.attempts(self, result, 0),
            Err(_) => after.recovers(self, result),
        }
    }

    /// Takes what the ledger said of an attempt whose commit may have taken
    /// effect. Only where the ledger does not know the mutation does it run
    /// again; a failed probe is repeated.
    pub fn recovered(&mut self, found: Result<Option<CommitOutcome>, PostgresStateError>) -> (result:
        Result<RunStep, PostgresStateError>)
        requires
            old(self).well_formed(),
            old(self).phase == RunPhase::Recovering,
        ensures
            final(self).same_commit(*old(self)),
            old(self).after_recovery(*final(self), result, found),
    {
        match found {
            Ok(Some(outcome)) => self.answer(outcome),
            Ok(None) => {
                self.phase = RunPhase::Attempting;
                Ok(RunStep::Attempt)
            },
            Err(_) => self.recover(),
        }
    }
}

/// A repeated attempt and a repeated probe each use up one of the tries that
/// are left: what follows a failed attempt or probe is less and less.
pub proof fn law_commits_end(
    before: CommitRun,
    after: CommitRun,
    result: Result<RunStep, PostgresStateError>,
)
    requires
        before.well_formed(),
        after.same_commit(before),
        after.attempts(before, result, 1) || (after.recovers(before, result) && result == Ok::<
            RunStep,
            PostgresStateError,
        >(RunStep::Probe)),
    ensures
        0 <= after.retries.left(after.bounds) < before.retries.left(before.bounds),
{
}

/// An attempt whose commit may have taken effect never runs again without
/// asking the ledger: it is followed by a probe or stays open.
pub proof fn law_open_commits_are_probed(
    before: CommitRun,
    after: CommitRun,
    result: Result<RunStep, PostgresStateError>,
)
    requires
        before.well_formed(),
        after.recovers(before, result),
    ensures
        result != Ok::<RunStep, PostgresStateError>(RunStep::Attempt),
        after.phase == RunPhase::Recovering || after.outcome == Some(
            CommitOutcome::<Vec<u8>>::Ambiguous(before.mutation),
        ),
{
}

} // verus!
