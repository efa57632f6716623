//! Bounded retries and recovery of commits.
use vstd::prelude::*;

use sea_orm::DbErr;

use crate::database;
use crate::database::{classify_database_error, FailureView};
use crate::failure::{AdapterFailureKind, PostgresStateError};
use crate::sqlstate::{ConstraintAction, SqlFailureClass, SqlOperationPhase};

verus! {

/// What a failed attempt permits.
#[derive(Clone, Copy, Debug, PartialEq, Eq, Structural)]
pub enum RetryAction {
    /// The identical attempt may run again.
    RetryIdentical,
    /// The attempt may run again, and will then meet the ledger.
    ResolveLedger,
    /// Only the ledger tells what became of the attempt.
    AmbiguousCommit,
}

/// What a class of failures permits.
pub open spec fn class_retry(class: SqlFailureClass<Seq<char>>) -> Option<RetryAction> {
    match class {
        SqlFailureClass::RetryIdentical(_) => Some(RetryAction::RetryIdentical),
        SqlFailureClass::KnownConstraint(violation) => if violation.action
            == ConstraintAction::InvariantFailure {
            None
        } else {
            Some(RetryAction::ResolveLedger)
        },
        SqlFailureClass::AmbiguousCommit => Some(RetryAction::AmbiguousCommit),
        _ => None,
    }
}

/// What a class of failures permits.
pub fn retry_for_class(class: &SqlFailureClass) -> (result: Option<RetryAction>)
    ensures
        result == class_retry(class@),
{
    match class {
        SqlFailureClass::RetryIdentical(_) => Some(RetryAction::RetryIdentical),
        SqlFailureClass::KnownConstraint(violation) => match violation.action {
            ConstraintAction::InvariantFailure => None,
            _ => Some(RetryAction::ResolveLedger),
        },
        SqlFailureClass::AmbiguousCommit => Some(RetryAction::AmbiguousCommit),
        _ => None,
    }
}

/// What a database failure in a phase permits.
pub fn retry_action(phase: SqlOperationPhase, error: &DbErr) -> (result: Option<RetryAction>)
    ensures
        result == class_retry(database::failure_class(phase, database::described(*error))),
{
    let class = classify_database_error(phase, error);
    retry_for_class(&class)
}

/// What a reported failure permits: nothing that leaves the outcome open.
pub open spec fn state_retry(
    sql_failure: Option<SqlFailureClass>,
    kind: AdapterFailureKind,
) -> Option<RetryAction> {
    let by_class = match sql_failure {
        Some(class) => class_retry(class@),
        None => None,
    };
    if by_class is Some && by_class != Some(RetryAction::AmbiguousCommit) {
        by_class
    } else if kind == AdapterFailureKind::Serialization {
        Some(RetryAction::RetryIdentical)
    } else {
        None
    }
}

/// What a reported failure permits.
pub fn state_retry_action(error: &PostgresStateError) -> (result: Option<RetryAction>)
    ensures
        result == state_retry(error.sql_failure, error.kind),
{
    let by_class = match &error.sql_failure {
        Some(class) => retry_for_class(class),
        None => None,
    };
    match by_class {
        Some(RetryAction::RetryIdentical) => Some(RetryAction::RetryIdentical),
        Some(RetryAction::ResolveLedger) => Some(RetryAction::ResolveLedger),
        _ => if error.kind == AdapterFailureKind::Serialization {
            Some(RetryAction::RetryIdentical)
        } else {
            None
        },
    }
}

/// How often an operation may be tried again.
#[derive(Clone, Copy, Debug, PartialEq, Eq, Structural)]
pub struct RetryBounds {
    /// Retries after definitive aborts.
    pub definitive: u32,
    /// Attempts to learn what became of an ambiguous commit.
    pub recovery: u32,
}

/// Retries used so far.
#[derive(Clone, Copy, Debug, PartialEq, Eq, Structural)]
pub struct RetryState {
    /// Retries after definitive aborts.
    pub definitive: u32,
    /// Attempts to learn what became of an ambiguous commit.
    pub recovery: u32,
}

impl RetryState {
    /// Tries and recoveries that are left.
    pub open spec fn left(self, bounds: RetryBounds) -> int {
        (bounds.definitive - self.definitive) + (bounds.recovery - self.recovery)
    }

    /// No bound has been passed.
    pub open spec fn within(self, bounds: RetryBounds) -> bool {
        self.definitive <= bounds.definitive && self.recovery <= bounds.recovery
    }

    /// Nothing has been retried.
    pub fn new() -> (result: Self)
        ensures
            result.definitive == 0,
            result.recovery == 0,
    {
        RetryState { definitive: 0, recovery: 0 }
    }

    /// Whether the ledger may be asked once more; if so, the attempt counts.
    pub fn next_recovery(&mut self, bounds: RetryBounds) -> (result: bool)
        requires
            old(self).within(bounds),
        ensures
            final(self).within(bounds),
            final(self).definitive == old(self).definitive,
            result == (old(self).recovery < bounds.recovery),
            final(self).recovery == old(self).recovery + (if result {
                1int
            } else {
                0
            }),
    {
        if self.recovery < bounds.recovery {
            self.recovery = self.recovery + 1;
            true
        } else {
            false
        }
    }
}

/// A retried attempt and a recovery each use up one of the tries that are
/// left, so that an operation is tried only finitely often.
pub proof fn law_retries_are_bounded(before: RetryState, after: RetryState, bounds: RetryBounds)
    requires
        before.within(bounds),
        after.within(bounds),
        (after.definitive == before.definitive + 1 && after.recovery == before.recovery) || (
        after.definitive == before.definitive && after.recovery == before.recovery + 1),
    ensures
        0 <= after.left(bounds) < before.left(bounds) <= bounds.definitive + bounds.recovery,
{
}

/// A commit that may have taken effect is never simply run again: outside of
/// `COMMIT` no failure asks for recovery, and within it only a definitive
/// abort or a known constraint permits a retry.
pub proof fn law_ambiguity_is_never_retried(phase: SqlOperationPhase, failure: FailureView)
    ensures
        database::failure_class(phase, failure) is AmbiguousCommit <==> class_retry(
            database::failure_class(phase, failure),
        ) == Some(RetryAction::AmbiguousCommit),
        phase != SqlOperationPhase::Commit ==> class_retry(
            database::failure_class(phase, failure),
        ) != Some(RetryAction::AmbiguousCommit),
{
}

} // verus!
