//! How one attempt at a commit gets from its request to its answer.
use vstd::prelude::*;

use crate::change_plan::ChangePlan;
use crate::commit::{
    CommitAction, CommitAttempt, CommitFailureTiming, CommitPhase, FenceValidation,
};
use crate::failure::PostgresStateError;
use crate::ids::LockId;
use crate::invariants::{RelationFacts, Stage};
use crate::key::RecordKey;
use crate::numeric;
use crate::precondition::{MutationReplay, PreconditionProgress};
use crate::publish;
use crate::record::StateRecord;
use crate::request::{CommitConflictKind, CommitOutcome, StateChange};
use crate::request_law;

verus! {

/// What a step makes the caller do, or why it fails.
pub type Stepped = Result<CommitAction, PostgresStateError>;

/// An attempt that is about to answer with an outcome and keeps nothing.
pub open spec fn gives_up(
    after: CommitAttempt,
    result: Stepped,
    outcome: CommitOutcome<Seq<u8>>,
) -> bool {
    &&& result matches Ok(CommitAction::Rollback)
    &&& after.phase == CommitPhase::RollingBack
    &&& after.outcome matches Some(kept) && kept@ == outcome
}

/// A conflict that no precondition names: it is counted behind them all.
pub open spec fn conflicts(
    before: CommitAttempt,
    outcome: CommitOutcome<Seq<u8>>,
    kind: CommitConflictKind<Seq<u8>>,
) -> bool {
    outcome matches CommitOutcome::Conflict(conflict) && conflict.precondition_index
        == before.request.preconditions.len() && conflict.kind == kind
}

/// A request that is refused because the record under a key is not there.
pub open spec fn misses(
    before: CommitAttempt,
    after: CommitAttempt,
    result: Stepped,
    key: RecordKey<Seq<u8>>,
) -> bool {
    &&& result matches Ok(CommitAction::Rollback)
    &&& after.outcome matches Some(kept) && conflicts(
        before,
        kept@,
        CommitConflictKind::RecordMissing(key),
    )
}

/// A request whose mutation is retained is answered from what was retained and
/// writes nothing; only one that is not goes on, to the head.
pub proof fn law_retained_mutations_are_answered_first(
    before: CommitAttempt,
    after: CommitAttempt,
    result: Stepped,
    stored: Option<&StateRecord>,
    replay: MutationReplay,
)
    requires
        before.after_ledger(after, result, stored, replay),
    ensures
        stored is None <==> result matches Ok(CommitAction::LockHead),
        stored is None ==> after.phase == CommitPhase::Head,
        stored matches Some(found) ==> match found@ {
            StateRecord::Mutation(record) => replay is Exact ==> {
                &&& result matches Ok(CommitAction::Rollback)
                &&& after.phase == CommitPhase::RollingBack
                &&& after.outcome matches Some(kept) && kept@
                    matches CommitOutcome::AlreadyCommitted(committed) && committed.revision
                    == record.committed_revision && committed.result == record.result
            },
            _ => result is Err,
        },
{
}

/// The revision that a commit follows is the one that the locked head spells,
/// and it is never zero.
pub proof fn law_commits_follow_the_locked_head(
    before: CommitAttempt,
    after: CommitAttempt,
    result: Stepped,
    revision: u64,
)
    requires
        before.after_head(after, result, numeric::decimal(revision as nat)),
    ensures
        revision > 0 ==> {
            &&& result matches Ok(CommitAction::CheckFence)
            &&& after.phase == CommitPhase::Fence
            &&& after.current.value == revision
        },
        revision == 0 ==> result is Err,
{
    numeric::law_decimal_round_trip(revision);
}

/// Only a current fence lets an attempt read: a stale one is answered as stale,
/// one of an expired lease as expired, and neither reads anything.
pub proof fn law_only_current_fences_commit(
    before: CommitAttempt,
    after: CommitAttempt,
    result: Stepped,
    fence: FenceValidation,
)
    requires
        before.after_fence(after, result, fence),
    ensures
        fence == FenceValidation::Stale ==> gives_up(after, result, CommitOutcome::StaleFence),
        fence == FenceValidation::Expired ==> gives_up(after, result, CommitOutcome::ExpiredLease),
        fence == FenceValidation::Current && before.keys@.len() > 0 ==> {
            &&& after.phase == CommitPhase::Reading(0)
            &&& result matches Ok(CommitAction::LockAndFetch(key)) && key@ == before.keys@[0]@
        },
{
}

/// Records are locked and read one after the other, each under its own key.
pub proof fn law_records_are_read_one_by_one(
    before: CommitAttempt,
    after: CommitAttempt,
    result: Stepped,
    index: int,
)
    requires
        0 <= index < before.keys@.len(),
        before.goes_on_reading(after, result, index),
    ensures
        after.phase == CommitPhase::Reading(index as usize),
        result matches Ok(CommitAction::LockAndFetch(key)) && key@ == before.keys@[index]@,
{
}

/// What the preconditions come to decides how an attempt goes on: a conflict is
/// its answer, pins are counted of the inode that is asked about, and writing
/// starts only behind preconditions that all hold, at the revision that
/// follows the head's.
pub proof fn law_preconditions_decide(
    after: CommitAttempt,
    result: Stepped,
    progress: PreconditionProgress<Seq<u8>>,
)
    requires
        after.decides(result, progress),
    ensures
        match progress {
            PreconditionProgress::Conflict(conflict) => gives_up(
                after,
                result,
                CommitOutcome::Conflict(conflict),
            ),
            PreconditionProgress::CountPins { index, .. } => after.phase == CommitPhase::Pins(index)
                && result matches Ok(CommitAction::CountPins(_)),
            PreconditionProgress::Hold => result is Ok && (after.phase is Writing || after.phase
                is Judging || after.phase is Relations) ==> after.revision.value
                == after.current.value + 1,
        },
        result matches Ok(CommitAction::Execute(_)) ==> progress is Hold,
        result matches Ok(CommitAction::Judge(_)) ==> progress is Hold,
{
}

/// A count of pins is kept beside the precondition that asked for it.
pub proof fn law_counted_pins_are_kept(
    before: CommitAttempt,
    after: CommitAttempt,
    result: Stepped,
    count: u64,
)
    requires
        before.phase is Pins,
        before.after_pins(after, result, numeric::decimal(count as nat)),
    ensures
        after.counted@.len() == before.counted@.len() + 1,
        after.counted@.last() == (before.phase->Pins_0, count),
        forall|i: int|
            0 <= i < before.counted@.len() ==> #[trigger] after.counted@[i] == before.counted@[i],
{
    numeric::law_decimal_round_trip(count);
}

/// A lock that excludes a written one refuses the request, under its own
/// identity; without one, writing starts at the revision that follows the
/// head's, if there is one.
pub proof fn law_found_locks_refuse(after: CommitAttempt, result: Stepped, existing: LockId)
    requires
        after.searches(result),
        after.search.index >= after.search.locks@.len(),
    ensures
        after.search.found == Some(existing) ==> {
            &&& result matches Ok(CommitAction::Rollback)
            &&& after.outcome matches Some(kept) && conflicts(
                after,
                kept@,
                CommitConflictKind::LockConflict { existing },
            )
        },
        after.search.found is None && after.current.value == u64::MAX ==> result is Err,
        after.search.found is None && after.current.value < u64::MAX ==> after.revision.value
            == after.current.value + 1,
{
}

/// Changes are written in order, and relations are checked only behind the
/// last one: what an attempt does next is about the change at the index.
pub proof fn law_changes_are_written_in_order(after: CommitAttempt, result: Stepped, index: int)
    requires
        0 <= index <= after.request.changes.len(),
        after.changes_from(result, index),
    ensures
        match after.phase {
            _ if result is Err => true,
            CommitPhase::Relations => {
                &&& index == after.request.changes.len()
                &&& result matches Ok(CommitAction::CheckRelations)
            },
            CommitPhase::Judging(at) => {
                &&& at == index < after.request.changes.len()
                &&& result matches Ok(CommitAction::Judge(judged)) && judged == index
            },
            CommitPhase::Writing(at) => {
                &&& at == index < after.request.changes.len()
                &&& result matches Ok(CommitAction::Execute(_))
            },
            CommitPhase::RollingBack => {
                &&& index < after.request.changes.len()
                &&& result matches Ok(CommitAction::Rollback)
                &&& after.outcome is Some
            },
            _ => false,
        },
{
}

/// A write that affected its row goes on to the next change, or to the second
/// write of its own; one that affected none never does.
pub proof fn law_written_rows_go_on(
    before: CommitAttempt,
    after: CommitAttempt,
    result: Stepped,
    rows: u64,
)
    requires
        before.phase is Writing,
        before.phase->Writing_0 < before.request.changes@.len(),
        before.plan is Some,
        before.after_write(after, result, rows),
    ensures
        match before.plan->0 {
            ChangePlan::Write { .. } => if rows == 1 {
                after.changes_from(result, before.phase->Writing_0 + 1)
            } else {
                ||| result is Err
                ||| exists|key: RecordKey<Seq<u8>>| #[trigger]
                    request_law::alters(
                        before.request.filesystem_id,
                        before.request.change_seq()[before.phase->Writing_0 as int],
                        key,
                    ) && misses(before, after, result, key)
            },
            ChangePlan::Publish { write, .. } => {
                &&& rows == 1 ==> after.phase == CommitPhase::WritingSecond(before.phase->Writing_0)
                &&& rows == 1 ==> (result matches Ok(CommitAction::Execute(statement)) && statement@
                    == write@)
                &&& rows > 1 ==> result is Err
                &&& rows == 0 ==> result matches Ok(CommitAction::Rollback)
            },
            ChangePlan::Refuse(_) => true,
        },
{
    let change = before.request.change_seq()[before.phase->Writing_0 as int];
    let key = crate::request::primary_key(before.request.filesystem_id, change);
    request_law::law_changes_touch_what_they_alter(before.request.filesystem_id, change, key);
    assert(request_law::alters(before.request.filesystem_id, change, key));
}

/// An attribute that was published goes on to the next change; where none was
/// there to be written, the request is refused for it.
pub proof fn law_second_rows_go_on(
    before: CommitAttempt,
    after: CommitAttempt,
    result: Stepped,
    rows: u64,
)
    requires
        before.phase is WritingSecond,
        before.after_second_write(after, result, rows),
    ensures
        rows == 1 ==> after.changes_from(result, before.phase->WritingSecond_0 + 1),
        rows > 1 ==> result is Err,
        rows == 0 ==> match before.request.change_seq()[before.phase->WritingSecond_0 as int] {
            StateChange::PublishXattrStaging(publication) => {
                misses(
                    before,
                    after,
                    result,
                    RecordKey::Xattr(
                        before.request.filesystem_id,
                        publication.inode_id,
                        publication.name,
                    ),
                )
            },
            _ => false,
        },
{
}

/// The ledger record is written only behind the last relation, and not at all
/// where a failure before publication is injected or a relation does not hold.
pub proof fn law_ledger_records_follow_the_relations(
    before: CommitAttempt,
    after: CommitAttempt,
    result: Stepped,
    facts: RelationFacts,
)
    requires
        before.phase == CommitPhase::Relations,
        before.after_relation(after, result, facts),
    ensures
        result matches Ok(CommitAction::Execute(_)) ==> {
            &&& after.phase == CommitPhase::Recording
            &&& after.check.stage == Stage::Done
            &&& before.injection != Some(CommitFailureTiming::BeforePublication)
            &&& before.check.verdict(facts) is Ok && before.check.verdict(facts)->Ok_0 is None
        },
        before.check.verdict(facts) matches Ok(Some(error)) ==> gives_up(
            after,
            result,
            CommitOutcome::MalformedRequest(error),
        ),
        result matches Ok(CommitAction::CheckRelations) ==> after.check.stage != Stage::Done
            && after.phase == CommitPhase::Relations,
        result matches Ok(CommitAction::Rollback) ==> before.injection == Some(
            CommitFailureTiming::BeforePublication,
        ) || before.check.verdict(facts)->Ok_0 is Some,
{
}

/// The log is written only behind one ledger row, and from its first statement
/// on: those that publish the altered records.
pub proof fn law_publications_follow_the_ledger_record(
    before: CommitAttempt,
    after: CommitAttempt,
    result: Stepped,
    rows: u64,
)
    requires
        before.phase == CommitPhase::Recording,
        before.after_record(after, result, rows),
    ensures
        rows != 1 ==> result is Err,
        result is Ok ==> {
            &&& after.phase == CommitPhase::Publishing(0)
            &&& result matches Ok(CommitAction::Execute(statement)) && statement@
                == after.statements@[0]@
            &&& exists|keys: Seq<RecordKey<Seq<u8>>>| #[trigger]
                publish::announces(after.request, keys) && publish::statement_views(
                    after.statements@,
                ) == publish::publication(
                    after.request,
                    after.revision.value,
                    keys,
                    after.limits.values.max_change_history_commits,
                )
        },
{
}

/// The statements that publish run one after the other, and the transaction
/// commits behind the last one.
pub proof fn law_publishing_statements_run_in_order(
    before: CommitAttempt,
    after: CommitAttempt,
    result: CommitAction,
)
    requires
        before.phase is Publishing,
        before.phase->Publishing_0 < before.statements@.len() <= usize::MAX,
        before.after_publication(after, result),
    ensures
        match result {
            CommitAction::Execute(statement) => {
                &&& after.phase is Publishing
                &&& after.phase->Publishing_0 == before.phase->Publishing_0 + 1
                &&& after.phase->Publishing_0 < before.statements@.len()
                &&& statement@ == before.statements@[after.phase->Publishing_0 as int]@
            },
            CommitAction::Commit => after.phase == CommitPhase::Committing
                && before.phase->Publishing_0 == before.statements@.len() - 1,
            _ => false,
        },
{
}

/// A committed attempt answers with the revision that follows the locked head's
/// and with the result of its request, or with an open outcome of its own
/// mutation where a failure after publication is injected.
pub proof fn law_committed_attempts_answer_their_revision(
    before: CommitAttempt,
    after: CommitAttempt,
    result: CommitAction,
)
    requires
        before.well_formed(),
        before.phase == CommitPhase::Committing,
        before.after_commit(after, result),
    ensures
        result is Finish,
        after.outcome is Some,
        match after.outcome->0@ {
            CommitOutcome::Committed(committed) => {
                &&& committed.revision.value == before.current.value + 1
                &&& committed.result == before.request.terminal_result@
                &&& before.injection != Some(CommitFailureTiming::AfterPublication)
            },
            CommitOutcome::Ambiguous(mutation) => mutation == before.request.mutation
                && before.injection == Some(CommitFailureTiming::AfterPublication),
            _ => false,
        },
{
}

/// An attempt that was rolled back answers what it gave up for, and fails where
/// it gave up for an injected failure.
pub proof fn law_rolled_back_attempts_answer_why(
    before: CommitAttempt,
    after: CommitAttempt,
    result: Stepped,
)
    requires
        before.after_rollback(after, result),
    ensures
        before.outcome is Some ==> result matches Ok(CommitAction::Finish),
        before.outcome is None ==> result is Err,
{
}

} // verus!
