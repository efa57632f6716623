//! One attempt at a metadata commit, from decision to decision.
//!
//! An attempt asks the ledger first, then locks the authority, checks the
//! writer's fence, reads what it locked, decides, writes, checks the relations
//! it touched and publishes. Every refusal before publication rolls back.
use vstd::prelude::*;

use crate::change_plan;
use crate::change_plan::{
    apply_change, apply_presence, missing_conflict, ChangePlan, ChangeVerdict, PlanView,
};
use crate::failure::{
    AdapterFailureKind, FailureCause, PostgresStateError, StateFailure, StateStoreOperation,
};
use crate::ids::{LockId, StateRevision, UnixTimestamp};
use crate::invariants::{InvariantCheck, RelationFacts, Stage};
use crate::key;
use crate::key::RecordKey;
use crate::key_codec;
use crate::key_codec::canonical_affected_keys;
use crate::limits::StateLimits;
use crate::lock_check;
use crate::lock_check::LockSearch;
use crate::precondition;
use crate::precondition::{
    classify_ledger_record, corruption, decode_number, evaluate_preconditions, internal,
    lock_keys, resume_preconditions, MutationReplay, PreconditionProgress,
};
use crate::publish;
use crate::publish::{changed_keys, decode_revision, publish_change, terminal_record};
use crate::record::{LockRangeEnd, LockRecord, StateRecord};
use crate::record_write;
use crate::record_write::{affected_presence, insert_mutation_record, RowPresence};
use crate::request;
use crate::request::{
    mutation_key, CommitConflict, CommitOutcome, CommitRequest, CommittedMutation, MalformedCommit,
    Precondition, StateChange,
};
use crate::row_codec;
use crate::row_codec::is_encodable;
use crate::statement::{PostgresQuery, StatementView};
use crate::table;
use crate::table::RecordTable;
use crate::transition;
use crate::transition::validate_transitions;

verus! {

/// Failure that a test injects around the publication.
#[derive(Clone, Copy, Debug, PartialEq, Eq, Structural)]
pub enum CommitFailureTiming {
    /// Before anything is published.
    BeforePublication,
    /// After everything is published, before the answer.
    AfterPublication,
}

/// What a fence presented by a writer is worth.
#[derive(Clone, Copy, Debug, PartialEq, Eq, Structural)]
pub enum FenceValidation {
    /// The current lease.
    Current,
    /// Another lease is current, or none.
    Stale,
    /// The lease has expired.
    Expired,
}

/// Where an attempt stands.
#[derive(Clone, Copy, Debug, PartialEq, Eq, Structural)]
pub enum CommitPhase {
    /// The ledger is asked.
    Ledger,
    /// The authority head is locked.
    Head,
    /// The fence is checked.
    Fence,
    /// A locked record is read.
    Reading(usize),
    /// The pins that a precondition needs are counted.
    Pins(usize),
    /// Stored locks are compared.
    Locks,
    /// A change is judged by the rules of content.
    Judging(usize),
    /// The write of a change runs.
    Writing(usize),
    /// The second write of a change runs.
    WritingSecond(usize),
    /// Relations are checked.
    Relations,
    /// The ledger record is written.
    Recording,
    /// The change is published.
    Publishing(usize),
    /// The transaction commits.
    Committing,
    /// The transaction rolls back.
    RollingBack,
    /// The attempt is over.
    Finished,
}

/// What an attempt wants done next.
#[derive(Clone, Debug)]
pub enum CommitAction {
    /// Read one record without locking it.
    Fetch(RecordKey),
    /// Create the missing authority head, then lock and read it.
    LockHead,
    /// Lock the fence row, observe the clock and check the fence.
    CheckFence,
    /// Lock a record, then read it.
    LockAndFetch(RecordKey),
    /// Count pins.
    CountPins(PostgresQuery),
    /// Find the next excluding lock.
    FindLock(PostgresQuery),
    /// Judge a change by the rules of content.
    Judge(usize),
    /// Execute a statement and report the affected rows.
    Execute(PostgresQuery),
    /// Answer the next question of the relation check.
    CheckRelations,
    /// Commit the transaction.
    Commit,
    /// Roll the transaction back.
    Rollback,
    /// Answer the request.
    Finish,
}

/// One attempt at a commit.
pub struct CommitAttempt {
    /// The request.
    pub request: CommitRequest,
    /// Limits of the receiver.
    pub limits: StateLimits,
    /// Injected failure.
    pub injection: Option<CommitFailureTiming>,
    /// Records to lock.
    pub keys: Vec<RecordKey>,
    /// Records read so far.
    pub records: RecordTable,
    /// Revision of the locked authority head.
    pub current: StateRevision,
    /// Pins that were counted, each with the index of the precondition that asked.
    pub counted: Vec<(usize, u64)>,
    /// Revision that the attempt publishes.
    pub revision: StateRevision,
    /// Search for excluding locks.
    pub search: LockSearch,
    /// Write of the current change.
    pub plan: Option<ChangePlan>,
    /// Check of relations.
    pub check: InvariantCheck,
    /// Statements that publish the change.
    pub statements: Vec<PostgresQuery>,
    /// Answer, once there is one.
    pub outcome: Option<CommitOutcome>,
    /// Where the attempt stands.
    pub phase: CommitPhase,
}

/// A timestamp fits its signed column.
pub open spec fn time_fits(time: Option<UnixTimestamp>) -> bool {
    match time {
        Some(time) => time.nanoseconds <= i32::MAX,
        None => true,
    }
}

/// What a change writes fits the columns that it is written to.
pub open spec fn change_fits(change: transition::Change) -> bool {
    match change {
        StateChange::Insert { record, .. } => row_codec::encodable(record),
        StateChange::Replace { record, .. } => row_codec::encodable(record),
        StateChange::PublishContent(publication) => {
            let attributes = publication.attributes;
            &&& match attributes.mode {
                Some(mode) => mode <= i32::MAX,
                None => true,
            }
            &&& time_fits(attributes.accessed)
            &&& time_fits(attributes.modified)
            &&& time_fits(attributes.changed)
            &&& time_fits(attributes.created)
        },
        _ => true,
    }
}

/// A request whose written locks cover at least one byte, and whose values
/// fit the columns they are written to.
pub open spec fn request_valid(request: CommitRequest) -> bool {
    &&& lock_check::ranges_valid(request.change_seq())
    &&& forall|i: int|
        0 <= i < request.change_seq().len() ==> change_fits(#[trigger] request.change_seq()[i])
}

fn is_time_fitting(time: &Option<UnixTimestamp>) -> (result: bool)
    ensures
        result == time_fits(*time),
{
    match time {
        Some(time) => time.nanoseconds <= 0x7fff_ffff,
        None => true,
    }
}

fn is_change_valid(change: &StateChange) -> (result: bool)
    ensures
        result == (change_fits(change@) && match lock_check::written_lock(change@) {
            Some(lock) => lock.1.range.valid(),
            None => true,
        }),
{
    match change {
        StateChange::Insert { key: _, record: StateRecord::Lock(lock) } => is_range_valid(lock),
        StateChange::Replace { key: RecordKey::Lock(..), record: StateRecord::Lock(lock) } => {
            is_range_valid(lock)
        },
        StateChange::Insert { key: _, record } => is_encodable(record),
        StateChange::Replace { key: _, record } => is_encodable(record),
        StateChange::PublishContent(publication) => {
            let attributes = &publication.attributes;
            let mode_fits = match attributes.mode {
                Some(mode) => mode <= 0x7fff_ffff,
                None => true,
            };
            mode_fits && is_time_fitting(&attributes.accessed) && is_time_fitting(
                &attributes.modified,
            ) && is_time_fitting(&attributes.changed) && is_time_fitting(&attributes.created)
        },
        _ => true,
    }
}

fn is_range_valid(lock: &LockRecord) -> (result: bool)
    ensures
        result == lock.range.valid(),
{
    match lock.range.end {
        LockRangeEnd::Exclusive(end) => lock.range.start < end,
        LockRangeEnd::ThroughEof => true,
    }
}

/// Whether the written locks of a request cover at least one byte, and its
/// values fit the columns they are written to.
pub fn is_request_valid(request: &CommitRequest) -> (result: bool)
    ensures
        result == request_valid(*request),
{
    let mut index: usize = 0;
    while index < request.changes.len()
        invariant
            index <= request.changes@.len(),
            forall|i: int|
                0 <= i < index ==> change_fits(#[trigger] request.change_seq()[i]) && match
                lock_check::written_lock(request.change_seq()[i]) {
                    Some(lock) => lock.1.range.valid(),
                    None => true,
                },
        decreases request.changes@.len() - index,
    {
        assert(request.change_seq()[index as int] == request.changes@[index as int]@);
        if !is_change_valid(&request.changes[index]) {
            return false;
        }
        index = index + 1;
    }
    true
}

/// Every record that is known to be there fits its columns.
pub open spec fn records_fit(records: table::Records) -> bool {
    forall|k: RecordKey<Seq<u8>>| #[trigger]
        records.dom().contains(k) ==> match records[k] {
            Some(record) => row_codec::encodable(record),
            None => true,
        }
}

proof fn lemma_writable(request: CommitRequest, records: table::Records)
    requires
        request_valid(request),
        records_fit(records),
    ensures
        request_writable(request, records),
{
    assert forall|i: int| 0 <= i < request.change_seq().len() implies change_plan::writable(
        request,
        #[trigger] request.change_seq()[i],
        records,
    ) by {
        let change = request.change_seq()[i];
        assert(change_fits(change));
        match change {
            StateChange::PublishContent(publication) => {
                let k = RecordKey::<Seq<u8>>::Inode(request.filesystem_id, publication.inode_id);
                assert(records.dom().contains(k) ==> match records[k] {
                    Some(record) => row_codec::encodable(record),
                    None => true,
                });
            },
            _ => {},
        }
    }
}

/// A request may be written, given the records that it read.
pub open spec fn request_writable(request: CommitRequest, records: table::Records) -> bool {
    forall|i: int|
        0 <= i < request.change_seq().len() ==> change_plan::writable(
            request,
            #[trigger] request.change_seq()[i],
            records,
        )
}

/// Counts of pins are answers to preconditions before an index, one for each, in
/// the order of the preconditions.
pub open spec fn counted_before(counted: Seq<(usize, u64)>, count: int) -> bool {
    &&& forall|a: int| 0 <= a < counted.len() ==> (#[trigger] counted[a]).0 < count
    &&& forall|a: int, b: int|
        0 <= a < b < counted.len() ==> (#[trigger] counted[a]).0 < (#[trigger] counted[b]).0
}

/// A precondition holds: the pins that it asks for were counted and are as many
/// as it expects, or the records are as it expects.
pub open spec fn holds(
    request: CommitRequest,
    records: table::Records,
    counted: Seq<(usize, u64)>,
    index: int,
) -> bool {
    match request.precondition_seq()[index] {
        Precondition::OpenPinCount { expected, .. } => counted.contains((index as usize, expected)),
        other => precondition::precondition_conflict(request, records, other) is None,
    }
}

/// Every precondition before an index holds.
pub open spec fn preconditions_hold(
    request: CommitRequest,
    records: table::Records,
    counted: Seq<(usize, u64)>,
    count: int,
) -> bool {
    &&& counted_before(counted, count)
    &&& forall|i: int| 0 <= i < count ==> #[trigger] holds(request, records, counted, i)
}

/// The keys are those that a request locks, in key order, each once.
pub open spec fn keys_serve(keys: Seq<RecordKey>, request: CommitRequest) -> bool {
    &&& key::strictly_sorted(key::key_views(keys))
    &&& forall|k: RecordKey<Seq<u8>>| #[trigger]
        key::key_views(keys).contains(k) <==> precondition::locks(request, k)
}

/// A search compares the locks that a request writes, and has found a lock at
/// most as high as any that two of them in conflict give.
pub open spec fn search_serves(search: LockSearch, request: CommitRequest) -> bool {
    let locks = lock_check::lock_views(search.locks@);
    &&& lock_check::in_key_order(locks)
    &&& locks.to_multiset() == lock_check::written_locks(request.change_seq()).to_multiset()
    &&& lock_check::lists_freed(search.removed@, request.change_seq())
    &&& forall|id: LockId| #[trigger]
        lock_check::requested_conflict(locks, id) ==> search.found is Some
            && search.found->0.value <= id.value
}

/// A search has compared nothing with stored locks yet.
pub open spec fn search_fresh(search: LockSearch) -> bool {
    &&& search.index == 0
    &&& search.after is None
    &&& lock_check::is_lowest_requested(lock_check::lock_views(search.locks@), search.found)
}

/// Statements publish a change at a revision.
pub open spec fn publishes(
    statements: Seq<PostgresQuery>,
    request: CommitRequest,
    revision: u64,
    limits: StateLimits,
) -> bool {
    exists|keys: Seq<RecordKey<Seq<u8>>>| #[trigger]
        publish::announces(request, keys) && keys.len() <= i32::MAX && publish::statement_views(
            statements,
        ) == publish::publication(
            request,
            revision,
            keys,
            limits.values.max_change_history_commits,
        )
}

impl CommitAttempt {
    /// Exactly the first keys have been read.
    pub open spec fn has_read(self, count: int) -> bool {
        self.records@.dom() == key::key_views(self.keys@).take(count).to_set()
    }

    /// The planned write is that of the change at an index.
    pub open spec fn plan_follows(self, index: int) -> bool {
        self.plan is Some && exists|verdict: ChangeVerdict|
            #[trigger] change_plan::planned(
                self.request,
                self.request.change_seq()[index],
                self.records@,
                self.revision.value,
                verdict,
            ) == Ok::<PlanView, StateFailure>(self.plan->0@)
    }

    /// Everything that must hold before the first write holds.
    pub open spec fn cleared(self) -> bool {
        &&& self.has_read(self.keys@.len() as int)
        &&& self.current.next() == Some(self.revision)
        &&& preconditions_hold(
            self.request,
            self.records@,
            self.counted@,
            self.request.precondition_seq().len() as int,
        )
        &&& transition::transition_failure(self.request, self.records@, self.limits) is None
        &&& self.search.found is None
        &&& self.search.index >= self.search.locks@.len()
    }

    /// Every relation that the written changes concern has been checked.
    pub open spec fn related_all(self) -> bool {
        self.check.concerns(self.request, self.records@, self.limits) && self.check.stage
            == Stage::Done
    }

    /// What holds in every phase.
    pub open spec fn serves(self) -> bool {
        &&& request_valid(self.request)
        &&& records_fit(self.records@)
        &&& keys_serve(self.keys@, self.request)
        &&& search_serves(self.search, self.request)
    }

    /// The attempt is consistent: it decides once everything is read, writes
    /// only once it is cleared, and publishes only once every relation holds.
    pub open spec fn well_formed(self) -> bool {
        &&& self.serves()
        &&& match self.phase {
            CommitPhase::Ledger => self.has_read(0) && self.counted@.len() == 0 && search_fresh(
                self.search,
            ),
            CommitPhase::Head => self.has_read(0) && self.counted@.len() == 0 && search_fresh(
                self.search,
            ),
            CommitPhase::Fence => self.has_read(0) && self.counted@.len() == 0 && search_fresh(
                self.search,
            ),
            CommitPhase::Reading(i) => i < self.keys@.len() && self.has_read(i as int)
                && self.counted@.len() == 0 && search_fresh(self.search),
            CommitPhase::Pins(i) => {
                &&& self.has_read(self.keys@.len() as int)
                &&& search_fresh(self.search)
                &&& i < self.request.preconditions@.len()
                &&& self.request.precondition_seq()[i as int] is OpenPinCount
                &&& preconditions_hold(self.request, self.records@, self.counted@, i as int)
            },
            CommitPhase::Locks => {
                &&& self.has_read(self.keys@.len() as int)
                &&& self.search.index < self.search.locks@.len()
                &&& preconditions_hold(
                    self.request,
                    self.records@,
                    self.counted@,
                    self.request.precondition_seq().len() as int,
                )
                &&& transition::transition_failure(
                    self.request,
                    self.records@,
                    self.limits,
                ) is None
            },
            CommitPhase::Judging(i) => i < self.request.changes@.len() && self.cleared()
                && needs_verdict(self.request.change_seq()[i as int]),
            CommitPhase::Writing(i) => i < self.request.changes@.len() && self.cleared()
                && self.plan_follows(i as int) && !(self.plan->0 is Refuse),
            CommitPhase::WritingSecond(i) => i < self.request.changes@.len() && self.cleared()
                && self.plan_follows(i as int) && self.plan->0 is Publish,
            CommitPhase::Relations => {
                &&& self.cleared()
                &&& self.check.well_formed()
                &&& self.check.concerns(self.request, self.records@, self.limits)
                &&& self.check.stage != Stage::Done
            },
            CommitPhase::Recording => self.cleared() && self.related_all(),
            CommitPhase::Publishing(i) => {
                &&& self.cleared()
                &&& self.related_all()
                &&& i < self.statements@.len()
                &&& publishes(
                    self.statements@,
                    self.request,
                    self.revision.value,
                    self.limits,
                )
            },
            CommitPhase::Committing => self.cleared() && self.related_all(),
            CommitPhase::RollingBack => self.outcome is Some || self.injection is Some,
            CommitPhase::Finished => self.outcome is Some,
        }
    }

    /// Two states of one attempt serve the same request.
    pub open spec fn same_request(self, other: Self) -> bool {
        &&& self.request == other.request
        &&& self.limits == other.limits
        &&& self.injection == other.injection
        &&& self.keys == other.keys
    }

    /// Starts an attempt.
    pub fn new(
        request: CommitRequest,
        limits: StateLimits,
        injection: Option<CommitFailureTiming>,
    ) -> (result: (Self, CommitAction))
        requires
            request_valid(request),
        ensures
            result.0.well_formed(),
            result.0.request == request,
            result.0.limits == limits,
            result.0.injection == injection,
            result.0.phase == CommitPhase::Ledger,
            result.1 matches CommitAction::Fetch(key) && key@ == request.ledger_key(),
    {
        let key = mutation_key(&request);
        let keys = lock_keys(&request);
        let search = LockSearch::start(&request);
        let records = RecordTable::new();
        let check = InvariantCheck::start(&request, &records, limits);
        assert(records@.dom() =~= key::key_views(keys@).take(0).to_set());
        (
            CommitAttempt {
                request,
                limits,
                injection,
                keys,
                records,
                current: StateRevision { value: 1 },
                revision: StateRevision { value: 1 },
                counted: Vec::new(),
                search,
                plan: None,
                check,
                statements: Vec::new(),
                outcome: None,
                phase: CommitPhase::Ledger,
            },
            CommitAction::Fetch(key),
        )
    }

    fn refuse(&mut self, outcome: CommitOutcome) -> (result: CommitAction)
        requires
            old(self).serves(),
        ensures
            final(self).well_formed(),
            final(self).same_request(*old(self)),
            final(self).counted == old(self).counted,
            final(self).phase == CommitPhase::RollingBack,
            final(self).outcome == Some(outcome),
            final(self).records == old(self).records,
            final(self).search == old(self).search,
            final(self).current == old(self).current,
            final(self).revision == old(self).revision,
            result is Rollback,
    {
        self.outcome = Some(outcome);
        self.phase = CommitPhase::RollingBack;
        CommitAction::Rollback
    }

    /// The attempt answers from the ledger record, or goes on to the head.
    pub open spec fn after_ledger(
        self,
        after: Self,
        result: Result<CommitAction, PostgresStateError>,
        stored: Option<&StateRecord>,
        replay: MutationReplay,
    ) -> bool {
        match stored {
            None => result matches Ok(CommitAction::LockHead) && after.phase
                == CommitPhase::Head,
            Some(stored) => match precondition::ledger_answer(stored@, replay) {
                Ok(outcome) => {
                    &&& result matches Ok(CommitAction::Rollback)
                    &&& after.phase == CommitPhase::RollingBack
                    &&& after.outcome is Some && after.outcome->0@ == outcome
                },
                Err(failure) => result is Err && result->Err_0@ == failure,
            },
        }
    }

    /// Takes what the ledger holds for the mutation, and how it relates to the
    /// request.
    pub fn ledger(&mut self, stored: Option<&StateRecord>, replay: MutationReplay) -> (result: Result<
        CommitAction,
        PostgresStateError,
    >)
        requires
            old(self).well_formed(),
            old(self).phase == CommitPhase::Ledger,
        ensures
            final(self).same_request(*old(self)),
            final(self).counted == old(self).counted,
            final(self).records@ == old(self).records@,
            final(self).search == old(self).search,
            result is Ok ==> final(self).well_formed(),
            old(self).after_ledger(*final(self), result, stored, replay),
    {
        match stored {
            None => {
                self.phase = CommitPhase::Head;
                Ok(CommitAction::LockHead)
            },
            Some(stored) => {
                let outcome = classify_ledger_record(stored, replay)?;
                Ok(self.refuse(outcome))
            },
        }
    }

    /// The attempt knows the revision of the head and checks its fence.
    pub open spec fn after_head(
        self,
        after: Self,
        result: Result<CommitAction, PostgresStateError>,
        revision: Seq<char>,
    ) -> bool {
        match publish::revision_failure("authority_heads.current_revision", revision) {
            Some(failure) => result is Err && result->Err_0@ == failure,
            None => {
                &&& result matches Ok(CommitAction::CheckFence)
                &&& after.well_formed()
                &&& after.phase == CommitPhase::Fence
                &&& after.current.value == crate::numeric::parsed(revision)
            },
        }
    }

    /// Takes the current revision of the locked authority head.
    pub fn head(&mut self, revision: &String) -> (result: Result<CommitAction, PostgresStateError>)
        requires
            old(self).well_formed(),
            old(self).phase == CommitPhase::Head,
        ensures
            final(self).same_request(*old(self)),
            final(self).counted == old(self).counted,
            final(self).records@ == old(self).records@,
            final(self).search == old(self).search,
            old(self).after_head(*final(self), result, revision@),
    {
        let current = decode_revision("authority_heads.current_revision", revision)?;
        self.current = current;
        self.phase = CommitPhase::Fence;
        Ok(CommitAction::CheckFence)
    }

    /// The attempt reads its records under a current fence.
    pub open spec fn after_fence(
        self,
        after: Self,
        result: Result<CommitAction, PostgresStateError>,
        fence: FenceValidation,
    ) -> bool {
        match fence {
            FenceValidation::Current => self.goes_on_reading(after, result, 0),
            FenceValidation::Stale => after.refuses(
                result,
                CommitOutcome::StaleFence,
            ),
            FenceValidation::Expired => after.refuses(
                result,
                CommitOutcome::ExpiredLease,
            ),
        }
    }

    /// Takes what the writer's fence is worth.
    pub fn fence(&mut self, fence: FenceValidation) -> (result: Result<
        CommitAction,
        PostgresStateError,
    >)
        requires
            old(self).well_formed(),
            old(self).phase == CommitPhase::Fence,
        ensures
            final(self).same_request(*old(self)),
            final(self).counted == old(self).counted,
            final(self).records@ == old(self).records@,
            final(self).search == old(self).search,
            final(self).current == old(self).current,
            old(self).after_fence(*final(self), result, fence),
    {
        match fence {
            FenceValidation::Current => self.read_from(0),
            FenceValidation::Stale => Ok(self.refuse(CommitOutcome::StaleFence)),
            FenceValidation::Expired => Ok(self.refuse(CommitOutcome::ExpiredLease)),
        }
    }

    /// The attempt rolls back to answer with an outcome.
    pub open spec fn refuses(
        self,
        result: Result<CommitAction, PostgresStateError>,
        outcome: CommitOutcome<Seq<u8>>,
    ) -> bool {
        &&& result matches Ok(CommitAction::Rollback)
        &&& self.well_formed()
        &&& self.phase == CommitPhase::RollingBack
        &&& self.outcome is Some
        &&& self.outcome->0@ == outcome
    }

    /// The attempt fails.
    pub open spec fn fails(
        result: Result<CommitAction, PostgresStateError>,
        failure: StateFailure,
    ) -> bool {
        result is Err && result->Err_0@ == failure
    }

    /// The attempt reads the record at an index next, or decides.
    pub open spec fn goes_on_reading(
        self,
        after: Self,
        result: Result<CommitAction, PostgresStateError>,
        index: int,
    ) -> bool {
        if index < self.keys@.len() {
            &&& after.well_formed()
            &&& after.phase == CommitPhase::Reading(index as usize)
            &&& result matches Ok(CommitAction::LockAndFetch(key)) && key@
                == self.keys@[index]@
        } else {
            after.decides(
                result,
                precondition::first_conflict(self.request, after.records@, 0),
            )
        }
    }

    /// The attempt goes on from the state of its preconditions.
    pub open spec fn decides(
        self,
        result: Result<CommitAction, PostgresStateError>,
        progress: PreconditionProgress<Seq<u8>>,
    ) -> bool {
        match progress {
            PreconditionProgress::Conflict(conflict) => self.refuses(
                result,
                CommitOutcome::Conflict(conflict),
            ),
            PreconditionProgress::CountPins { index, inode_id } => {
                &&& self.well_formed()
                &&& self.phase == CommitPhase::Pins(index)
                &&& result matches Ok(CommitAction::CountPins(statement)) && statement@
                    == precondition::count_pins(self.request.filesystem_id, inode_id)
            },
            PreconditionProgress::Hold => match transition::transition_failure(
                self.request,
                self.records@,
                self.limits,
            ) {
                Some(error) => self.refuses(result, CommitOutcome::MalformedRequest(error)),
                None => self.searches(result),
            },
        }
    }

    /// The attempt compares the next stored lock, or starts to write.
    pub open spec fn searches(self, result: Result<CommitAction, PostgresStateError>) -> bool {
        if self.search.index < self.search.locks@.len() {
            &&& self.well_formed()
            &&& self.phase == CommitPhase::Locks
            &&& result matches Ok(CommitAction::FindLock(statement)) && statement@
                == lock_check::conflict_query(
                self.request.filesystem_id,
                self.search.locks@[self.search.index as int].1,
                self.search.after,
            )
        } else {
            match self.search.found {
                Some(existing) => self.refuses(
                    result,
                    change_plan::change_conflict(
                        self.request,
                        request::CommitConflictKind::LockConflict { existing },
                    ),
                ),
                None => match self.current.next() {
                    Some(next) => self.revision == next && self.changes_from(result, 0),
                    None => Self::fails(
                        result,
                        precondition::commit_failure(
                            AdapterFailureKind::Corruption,
                            "authority revision exhausted its u64 range",
                            FailureCause::Plain,
                        ),
                    ),
                },
            }
        }
    }

    /// The attempt writes the change at an index next, or checks relations.
    pub open spec fn changes_from(
        self,
        result: Result<CommitAction, PostgresStateError>,
        index: int,
    ) -> bool {
        if index >= self.request.changes@.len() {
            &&& self.well_formed()
            &&& self.phase == CommitPhase::Relations
            &&& self.check.stage == Stage::Root
            &&& self.check.concerns(self.request, self.records@, self.limits)
            &&& result matches Ok(CommitAction::CheckRelations)
        } else if needs_verdict(self.request.change_seq()[index]) {
            &&& self.well_formed()
            &&& self.phase == CommitPhase::Judging(index as usize)
            &&& result matches Ok(CommitAction::Judge(i)) && i == index
        } else {
            self.writes(result, index, no_verdict())
        }
    }

    /// The attempt runs what a change plans.
    pub open spec fn writes(
        self,
        result: Result<CommitAction, PostgresStateError>,
        index: int,
        verdict: ChangeVerdict,
    ) -> bool {
        match change_plan::planned(
            self.request,
            self.request.change_seq()[index],
            self.records@,
            self.revision.value,
            verdict,
        ) {
            Err(failure) => Self::fails(result, failure),
            Ok(PlanView::Refuse(outcome)) => self.refuses(result, outcome),
            Ok(PlanView::Write { statement, expect }) => {
                &&& self.well_formed()
                &&& self.phase == CommitPhase::Writing(index as usize)
                &&& self.plan is Some && self.plan->0@ == (PlanView::Write { statement, expect })
                &&& result matches Ok(CommitAction::Execute(action)) && action@ == statement
            },
            Ok(PlanView::Publish { delete, write }) => {
                &&& self.well_formed()
                &&& self.phase == CommitPhase::Writing(index as usize)
                &&& self.plan is Some && self.plan->0@ == (PlanView::Publish { delete, write })
                &&& result matches Ok(CommitAction::Execute(action)) && action@ == delete
            },
        }
    }

    fn read_from(&mut self, index: usize) -> (result: Result<CommitAction, PostgresStateError>)
        requires
            old(self).serves(),
            search_fresh(old(self).search),
            index <= old(self).keys@.len(),
            old(self).has_read(index as int),
            old(self).counted@.len() == 0,
        ensures
            final(self).same_request(*old(self)),
            final(self).counted == old(self).counted,
            final(self).records@ == old(self).records@,
            final(self).search == old(self).search,
            final(self).current == old(self).current,
            old(self).goes_on_reading(*final(self), result, index as int),
    {
        if index < self.keys.len() {
            let key = self.keys[index].copied();
            self.phase = CommitPhase::Reading(index);
            return Ok(CommitAction::LockAndFetch(key));
        }
        let progress = evaluate_preconditions(&self.request, &self.records, 0);
        proof {
            assert(self.request.precondition_seq().len() == self.request.preconditions.len());
            lemma_hold(self.request, self.records@, self.counted@, 0);
        }
        self.decide(progress)
    }

    fn decide(&mut self, progress: PreconditionProgress) -> (result: Result<
        CommitAction,
        PostgresStateError,
    >)
        requires
            old(self).serves(),
            search_fresh(old(self).search),
            old(self).has_read(old(self).keys@.len() as int),
            progress_sound(old(self).request, old(self).records@, old(self).counted@, progress@),
        ensures
            final(self).same_request(*old(self)),
            final(self).counted == old(self).counted,
            final(self).records@ == old(self).records@,
            final(self).search == old(self).search,
            final(self).current == old(self).current,
            final(self).decides(result, progress@),
    {
        match progress {
            PreconditionProgress::Conflict(conflict) => Ok(
                self.refuse(CommitOutcome::Conflict(conflict)),
            ),
            PreconditionProgress::CountPins { index, inode_id } => {
                let statement = precondition::count_pins_statement(
                    self.request.filesystem_id,
                    inode_id,
                );
                self.phase = CommitPhase::Pins(index);
                Ok(CommitAction::CountPins(statement))
            },
            PreconditionProgress::Hold => match validate_transitions(
                &self.request,
                &self.records,
                self.limits,
            ) {
                Err(error) => Ok(self.refuse(CommitOutcome::MalformedRequest(error))),
                Ok(()) => self.search_locks(),
            },
        }
    }

    fn search_locks(&mut self) -> (result: Result<CommitAction, PostgresStateError>)
        requires
            old(self).serves(),
            old(self).has_read(old(self).keys@.len() as int),
            preconditions_hold(
                old(self).request,
                old(self).records@,
                old(self).counted@,
                old(self).request.precondition_seq().len() as int,
            ),
            transition::transition_failure(
                old(self).request,
                old(self).records@,
                old(self).limits,
            ) is None,
        ensures
            final(self).same_request(*old(self)),
            final(self).counted == old(self).counted,
            final(self).records@ == old(self).records@,
            final(self).search == old(self).search,
            final(self).current == old(self).current,
            final(self).searches(result),
    {
        match self.search.statement(self.request.filesystem_id) {
            Some(statement) => {
                self.phase = CommitPhase::Locks;
                Ok(CommitAction::FindLock(statement))
            },
            None => match self.search.conflict() {
                Some(kind) => {
                    let precondition_index: usize = self.request.preconditions.len();
                    Ok(
                        self.refuse(
                            CommitOutcome::Conflict(CommitConflict { precondition_index, kind }),
                        ),
                    )
                },
                None => {
                    match self.current.checked_next() {
                        Ok(next) => {
                            self.revision = next;
                        },
                        Err(_) => {
                            return Err(
                                corruption(
                                    "authority revision exhausted its u64 range",
                                    FailureCause::Plain,
                                ),
                            );
                        },
                    }
                    self.change_from(0)
                },
            },
        }
    }

    fn change_from(&mut self, index: usize) -> (result: Result<CommitAction, PostgresStateError>)
        requires
            old(self).serves(),
            old(self).cleared(),
        ensures
            final(self).same_request(*old(self)),
            final(self).counted == old(self).counted,
            final(self).records@ == old(self).records@,
            final(self).search == old(self).search,
            final(self).current == old(self).current,
            final(self).revision == old(self).revision,
            final(self).changes_from(result, index as int),
    {
        if index >= self.request.changes.len() {
            let check = InvariantCheck::start(&self.request, &self.records, self.limits);
            self.check = check;
            self.phase = CommitPhase::Relations;
            return Ok(CommitAction::CheckRelations);
        }
        assert(self.request.change_seq()[index as int] == self.request.changes@[index as int]@);
        let asks = match &self.request.changes[index] {
            StateChange::PublishContent(_) => true,
            StateChange::RewrapContentMetadata(_) => true,
            _ => false,
        };
        if asks {
            self.phase = CommitPhase::Judging(index);
            return Ok(CommitAction::Judge(index));
        }
        self.write_change(index, ChangeVerdict { publication: None, rewrap: None })
    }

    fn write_change(&mut self, index: usize, verdict: ChangeVerdict) -> (result: Result<
        CommitAction,
        PostgresStateError,
    >)
        requires
            old(self).serves(),
            old(self).cleared(),
            index < old(self).request.changes@.len(),
        ensures
            final(self).same_request(*old(self)),
            final(self).counted == old(self).counted,
            final(self).records@ == old(self).records@,
            final(self).search == old(self).search,
            final(self).current == old(self).current,
            final(self).revision == old(self).revision,
            final(self).writes(result, index as int, verdict),
    {
        proof {
            lemma_writable(self.request, self.records@);
            assert(self.request.change_seq()[index as int] == self.request.changes@[index as int]@);
        }
        let plan = apply_change(
            &self.request,
            &self.request.changes[index],
            &self.records,
            self.revision,
            verdict,
        )?;
        match plan {
            ChangePlan::Refuse(outcome) => Ok(self.refuse(outcome)),
            ChangePlan::Write { statement, expect } => {
                let action = statement.copied();
                self.plan = Some(ChangePlan::Write { statement, expect });
                self.phase = CommitPhase::Writing(index);
                Ok(CommitAction::Execute(action))
            },
            ChangePlan::Publish { delete, write } => {
                let action = delete.copied();
                self.plan = Some(ChangePlan::Publish { delete, write });
                self.phase = CommitPhase::Writing(index);
                Ok(CommitAction::Execute(action))
            },
        }
    }

    /// Takes the record that was locked and read.
    pub fn fetched(&mut self, record: Option<StateRecord>) -> (result: Result<
        CommitAction,
        PostgresStateError,
    >)
        requires
            old(self).well_formed(),
            old(self).phase is Reading,
            record is Some ==> row_codec::encodable(record->0@),
        ensures
            final(self).same_request(*old(self)),
            final(self).counted == old(self).counted,
            final(self).records@ == old(self).records@.insert(
                old(self).keys@[old(self).phase->Reading_0 as int]@,
                match record {
                    Some(record) => Some(record@),
                    None => None,
                },
            ),
            final(self).search == old(self).search,
            final(self).current == old(self).current,
            old(self).goes_on_reading(
                *final(self),
                result,
                old(self).phase->Reading_0 + 1,
            ),
    {
        let index: usize = match self.phase {
            CommitPhase::Reading(index) => index,
            _ => 0,
        };
        let count: usize = self.keys.len();
        assert(index < count);
        let key = self.keys[index].copied();
        proof {
            let keys = key::key_views(self.keys@);
            let at = index as int;
            assert(keys[at] == key@);
            assert(keys.take(at + 1) =~= keys.take(at).push(key@));
            keys.take(at).lemma_push_to_set_commute(key@);
        }
        self.records.insert(key, record);
        self.read_from(index + 1)
    }

    /// The attempt goes on from a count of pins.
    pub open spec fn after_pins(
        self,
        after: Self,
        result: Result<CommitAction, PostgresStateError>,
        count: Seq<char>,
    ) -> bool {
        match precondition::pin_answer(
            self.request,
            self.records@,
            self.phase->Pins_0 as int,
            count,
        ) {
            Err(failure) => Self::fails(result, failure),
            Ok(progress) => {
                &&& after.counted@ == self.counted@.push(
                    (self.phase->Pins_0, crate::numeric::parsed(count)),
                )
                &&& after.decides(result, progress)
            },
        }
    }

    /// Takes the counted pins that a precondition needs.
    pub fn pins(&mut self, count: &String) -> (result: Result<CommitAction, PostgresStateError>)
        requires
            old(self).well_formed(),
            old(self).phase is Pins,
        ensures
            final(self).same_request(*old(self)),
            final(self).records@ == old(self).records@,
            final(self).search == old(self).search,
            final(self).current == old(self).current,
            old(self).after_pins(*final(self), result, count@),
    {
        let index: usize = match self.phase {
            CommitPhase::Pins(index) => index,
            _ => 0,
        };
        let value: u64 = decode_number("open_pin_count", count)?;
        let progress = resume_preconditions(&self.request, &self.records, index, value);
        let ghost before = self.counted@;
        self.counted.push((index, value));
        proof {
            assert(self.request.precondition_seq().len() == self.request.preconditions.len());
            assert(self.request.precondition_seq()[index as int]
                == self.request.preconditions@[index as int]@);
            lemma_resume(self.request, self.records@, before, index as int, value);
        }
        self.decide(progress)
    }

    /// The attempt goes on from the next excluding lock.
    pub open spec fn after_lock(
        self,
        after: Self,
        result: Result<CommitAction, PostgresStateError>,
        existing: Option<Vec<u8>>,
    ) -> bool {
        match existing {
            Some(existing) => if existing@.len() != 16 {
                Self::fails(
                    result,
                    precondition::commit_failure(
                        AdapterFailureKind::Corruption,
                        "",
                        FailureCause::Width {
                            field: "lock_id",
                            actual: existing@.len() as usize,
                        },
                    ),
                )
            } else {
                after.searches(result)
            },
            None => after.searches(result),
        }
    }

    /// Takes the next stored lock that excludes a requested one.
    pub fn found_lock(&mut self, existing: Option<Vec<u8>>) -> (result: Result<
        CommitAction,
        PostgresStateError,
    >)
        requires
            old(self).well_formed(),
            old(self).phase == CommitPhase::Locks,
        ensures
            final(self).same_request(*old(self)),
            final(self).counted == old(self).counted,
            final(self).records@ == old(self).records@,
            final(self).current == old(self).current,
            lock_check::moved(old(self).search, final(self).search, existing),
            old(self).after_lock(*final(self), result, existing),
    {
        self.search.answer(existing)?;
        self.search_locks()
    }

    /// Takes what the rules of content say of the current change.
    pub fn judged(&mut self, verdict: ChangeVerdict) -> (result: Result<
        CommitAction,
        PostgresStateError,
    >)
        requires
            old(self).well_formed(),
            old(self).phase is Judging,
        ensures
            final(self).same_request(*old(self)),
            final(self).counted == old(self).counted,
            final(self).records@ == old(self).records@,
            final(self).search == old(self).search,
            final(self).current == old(self).current,
            final(self).revision == old(self).revision,
            final(self).writes(result, old(self).phase->Judging_0 as int, verdict),
    {
        let index: usize = match self.phase {
            CommitPhase::Judging(index) => index,
            _ => 0,
        };
        self.write_change(index, verdict)
    }
}

impl CommitAttempt {
    /// The attempt goes on from the rows that a write affected.
    pub open spec fn after_write(
        self,
        after: Self,
        result: Result<CommitAction, PostgresStateError>,
        rows: u64,
    ) -> bool {
        let index = self.phase->Writing_0 as int;
        let request = self.request;
        let change = request.change_seq()[index];
        match self.plan->0 {
            ChangePlan::Write { expect, .. } => match change_plan::concluded(
                request,
                request::primary_key(request.filesystem_id, change),
                expect,
                rows,
            ) {
                Err(failure) => Self::fails(result, failure),
                Ok(Some(outcome)) => after.refuses(result, outcome),
                Ok(None) => after.changes_from(result, index + 1),
            },
            ChangePlan::Publish { write, .. } => if rows > 1 {
                Self::fails(result, several_rows(rows))
            } else if rows == 0 {
                after.refuses(
                    result,
                    change_plan::missing(
                        request,
                        request::primary_key(request.filesystem_id, change),
                    ),
                )
            } else {
                &&& after.well_formed()
                &&& after.phase == CommitPhase::WritingSecond(index as usize)
                &&& after.plan == self.plan
                &&& result matches Ok(CommitAction::Execute(action)) && action@ == write@
            },
            ChangePlan::Refuse(_) => false,
        }
    }

    /// Takes the rows that the write of the current change affected.
    pub fn written(&mut self, rows: u64) -> (result: Result<CommitAction, PostgresStateError>)
        requires
            old(self).well_formed(),
            old(self).phase is Writing,
        ensures
            final(self).same_request(*old(self)),
            final(self).counted == old(self).counted,
            final(self).records@ == old(self).records@,
            final(self).search == old(self).search,
            final(self).current == old(self).current,
            final(self).revision == old(self).revision,
            old(self).after_write(*final(self), result, rows),
    {
        let index: usize = match self.phase {
            CommitPhase::Writing(index) => index,
            _ => 0,
        };
        let count: usize = self.request.changes.len();
        assert(index < count);
        assert(self.request.change_seq()[index as int] == self.request.changes@[index as int]@);
        let key = self.request.changes[index].primary_key(self.request.filesystem_id);
        let second = match &self.plan {
            Some(ChangePlan::Write { expect, .. }) => {
                return match apply_presence(&self.request, key, *expect, rows)? {
                    Some(outcome) => Ok(self.refuse(outcome)),
                    None => self.change_from(index + 1),
                };
            },
            Some(ChangePlan::Publish { write, .. }) => write.copied(),
            _ => {
                return Err(internal("change has no planned write", FailureCause::Plain));
            },
        };
        match affected_presence(rows)? {
            RowPresence::Absent => {
                let outcome = missing_conflict(&self.request, key);
                Ok(self.refuse(outcome))
            },
            RowPresence::Present => {
                self.phase = CommitPhase::WritingSecond(index);
                Ok(CommitAction::Execute(second))
            },
        }
    }

    /// The attempt goes on from the rows that the second write of a change
    /// affected.
    pub open spec fn after_second_write(
        self,
        after: Self,
        result: Result<CommitAction, PostgresStateError>,
        rows: u64,
    ) -> bool {
        let index = self.phase->WritingSecond_0 as int;
        let request = self.request;
        let secondary = request::secondary_key(
            request.filesystem_id,
            request.change_seq()[index],
        );
        if rows > 1 {
            Self::fails(result, several_rows(rows))
        } else if rows == 1 {
            after.changes_from(result, index + 1)
        } else {
            &&& secondary is Some
            &&& after.refuses(result, change_plan::missing(request, secondary->0))
        }
    }

    /// Takes the rows that the second write of a publication affected.
    pub fn written_second(&mut self, rows: u64) -> (result: Result<
        CommitAction,
        PostgresStateError,
    >)
        requires
            old(self).well_formed(),
            old(self).phase is WritingSecond,
        ensures
            final(self).same_request(*old(self)),
            final(self).counted == old(self).counted,
            final(self).records@ == old(self).records@,
            final(self).search == old(self).search,
            final(self).current == old(self).current,
            final(self).revision == old(self).revision,
            old(self).after_second_write(*final(self), result, rows),
    {
        let index: usize = match self.phase {
            CommitPhase::WritingSecond(index) => index,
            _ => 0,
        };
        let count: usize = self.request.changes.len();
        assert(index < count);
        proof {
            assert(self.request.change_seq()[index as int] == self.request.changes@[index as int]@);
            lemma_publication_has_two_targets(*self, index as int);
        }
        match affected_presence(rows)? {
            RowPresence::Present => self.change_from(index + 1),
            RowPresence::Absent => {
                match self.request.changes[index].secondary_key(self.request.filesystem_id) {
                    Some(key) => {
                        let outcome = missing_conflict(&self.request, key);
                        Ok(self.refuse(outcome))
                    },
                    None => Err(internal("change has no second write", FailureCause::Plain)),
                }
            },
        }
    }

    /// The attempt goes on from the facts of one relation.
    pub open spec fn after_relation(
        self,
        after: Self,
        result: Result<CommitAction, PostgresStateError>,
        facts: RelationFacts,
    ) -> bool {
        match self.check.verdict(facts) {
            Err(failure) => Self::fails(result, failure),
            Ok(Some(error)) => after.refuses(
                result,
                CommitOutcome::MalformedRequest(error),
            ),
            Ok(None) => {
                &&& self.check.moves(after.check, facts)
                &&& after.well_formed()
                &&& if after.check.stage != Stage::Done {
                    &&& after.phase == CommitPhase::Relations
                    &&& result matches Ok(CommitAction::CheckRelations)
                } else if self.injection == Some(CommitFailureTiming::BeforePublication) {
                    &&& after.phase == CommitPhase::RollingBack
                    &&& after.outcome is None
                    &&& result matches Ok(CommitAction::Rollback)
                } else {
                    &&& after.phase == CommitPhase::Recording
                    &&& result matches Ok(CommitAction::Execute(action)) && action@
                        == ledger_statement(self.request, self.revision.value)
                }
            },
        }
    }

    /// Takes the facts that the relation check asked for.
    pub fn related(&mut self, facts: &RelationFacts) -> (result: Result<
        CommitAction,
        PostgresStateError,
    >)
        requires
            old(self).well_formed(),
            old(self).phase == CommitPhase::Relations,
            facts.suits(old(self).check.stage),
        ensures
            final(self).same_request(*old(self)),
            final(self).counted == old(self).counted,
            final(self).records@ == old(self).records@,
            final(self).search == old(self).search,
            final(self).current == old(self).current,
            final(self).revision == old(self).revision,
            old(self).after_relation(*final(self), result, *facts),
    {
        match self.check.answer(facts)? {
            Some(error) => {
                return Ok(self.refuse(CommitOutcome::MalformedRequest(error)));
            },
            None => {},
        }
        if self.check.stage != Stage::Done {
            return Ok(CommitAction::CheckRelations);
        }
        match self.injection {
            Some(CommitFailureTiming::BeforePublication) => {
                self.outcome = None;
                self.phase = CommitPhase::RollingBack;
                return Ok(CommitAction::Rollback);
            },
            _ => {},
        }
        let key = mutation_key(&self.request);
        let record = terminal_record(&self.request, self.revision);
        assert(record_write::mutation_refusal(key@, record@) is None);
        let statement = insert_mutation_record(&key, record, self.revision)?;
        self.phase = CommitPhase::Recording;
        Ok(CommitAction::Execute(statement))
    }

    /// The attempt goes on from the rows that its ledger record affected.
    pub open spec fn after_record(
        self,
        after: Self,
        result: Result<CommitAction, PostgresStateError>,
        rows: u64,
    ) -> bool {
        if rows > 1 {
            Self::fails(result, several_rows(rows))
        } else if rows == 0 {
            Self::fails(
                result,
                precondition::commit_failure(
                    AdapterFailureKind::Internal,
                    "mutation insert affected no row",
                    FailureCause::Plain,
                ),
            )
        } else if !key_codec::targets_once(
            self.request.filesystem_id,
            self.request.change_seq(),
        ) {
            exists|i: int, target: RecordKey<Seq<u8>>| #[trigger]
                key_codec::first_duplicate(
                    self.request.filesystem_id,
                    self.request.change_seq(),
                    i,
                    target,
                ) && Self::fails(result, publish::twice_failure(target))
        } else if publish::touches_ledger(self.request) {
            Self::fails(result, publish::ledger_failure())
        } else {
            exists|keys: Seq<RecordKey<Seq<u8>>>| #[trigger]
                publish::announces(self.request, keys) && if keys.len() > i32::MAX {
                    Self::fails(result, publish::count_failure())
                } else {
                    &&& after.well_formed()
                    &&& after.phase == CommitPhase::Publishing(0)
                    &&& result matches Ok(CommitAction::Execute(statement)) && statement@
                        == after.statements@[0]@
                }
        }
    }

    /// Takes the rows that the ledger record affected.
    pub fn recorded(&mut self, rows: u64) -> (result: Result<CommitAction, PostgresStateError>)
        requires
            old(self).well_formed(),
            old(self).phase == CommitPhase::Recording,
        ensures
            final(self).same_request(*old(self)),
            final(self).counted == old(self).counted,
            final(self).records@ == old(self).records@,
            final(self).search == old(self).search,
            final(self).current == old(self).current,
            final(self).revision == old(self).revision,
            old(self).after_record(*final(self), result, rows),
    {
        match affected_presence(rows)? {
            RowPresence::Present => {},
            RowPresence::Absent => {
                return Err(internal("mutation insert affected no row", FailureCause::Plain));
            },
        }
        let keys = changed_keys(&self.request)?;
        let statements = publish_change(
            &self.request,
            self.revision,
            &keys,
            self.limits.values.max_change_history_commits,
        )?;
        assert(publish::statement_views(statements@).len() > 0);
        let first = statements[0].copied();
        self.statements = statements;
        self.phase = CommitPhase::Publishing(0);
        Ok(CommitAction::Execute(first))
    }

    /// The attempt runs the next statement that publishes, or commits.
    pub open spec fn after_publication(self, after: Self, result: CommitAction) -> bool {
        let index = self.phase->Publishing_0 as int;
        if index + 1 < self.statements@.len() {
            &&& after.phase == CommitPhase::Publishing((index + 1) as usize)
            &&& result matches CommitAction::Execute(statement) && statement@
                == self.statements@[index + 1]@
        } else {
            after.phase == CommitPhase::Committing && result is Commit
        }
    }

    /// Takes that the current publishing statement has run.
    pub fn published(&mut self) -> (result: CommitAction)
        requires
            old(self).well_formed(),
            old(self).phase is Publishing,
        ensures
            final(self).well_formed(),
            final(self).same_request(*old(self)),
            final(self).counted == old(self).counted,
            final(self).records@ == old(self).records@,
            final(self).search == old(self).search,
            final(self).current == old(self).current,
            final(self).revision == old(self).revision,
            final(self).statements == old(self).statements,
            old(self).after_publication(*final(self), result),
    {
        let index: usize = match self.phase {
            CommitPhase::Publishing(index) => index,
            _ => 0,
        };
        let count: usize = self.statements.len();
        assert(index < count);
        if index + 1 < self.statements.len() {
            let statement = self.statements[index + 1].copied();
            self.phase = CommitPhase::Publishing(index + 1);
            CommitAction::Execute(statement)
        } else {
            self.phase = CommitPhase::Committing;
            CommitAction::Commit
        }
    }

    /// The attempt answers a committed transaction.
    pub open spec fn after_commit(self, after: Self, result: CommitAction) -> bool {
        &&& result is Finish
        &&& after.outcome is Some
        &&& after.outcome->0@ == (if self.injection == Some(
            CommitFailureTiming::AfterPublication,
        ) {
            CommitOutcome::<Seq<u8>>::Ambiguous(self.request.mutation)
        } else {
            CommitOutcome::Committed(
                CommittedMutation {
                    revision: self.revision,
                    result: self.request.terminal_result@,
                },
            )
        })
    }

    /// Takes that the transaction has committed.
    pub fn committed(&mut self) -> (result: CommitAction)
        requires
            old(self).well_formed(),
            old(self).phase == CommitPhase::Committing,
        ensures
            final(self).well_formed(),
            final(self).same_request(*old(self)),
            final(self).counted == old(self).counted,
            final(self).phase == CommitPhase::Finished,
            old(self).after_commit(*final(self), result),
    {
        let outcome = match self.injection {
            Some(CommitFailureTiming::AfterPublication) => CommitOutcome::Ambiguous(
                self.request.mutation,
            ),
            _ => CommitOutcome::Committed(
                CommittedMutation {
                    revision: self.revision,
                    result: self.request.terminal_result.copied(),
                },
            ),
        };
        self.outcome = Some(outcome);
        self.phase = CommitPhase::Finished;
        CommitAction::Finish
    }

    /// The attempt answers a transaction that was rolled back.
    pub open spec fn after_rollback(
        self,
        after: Self,
        result: Result<CommitAction, PostgresStateError>,
    ) -> bool {
        match self.outcome {
            Some(_) => {
                &&& result matches Ok(CommitAction::Finish)
                &&& after.well_formed()
                &&& after.phase == CommitPhase::Finished
            },
            None => Self::fails(
                result,
                precondition::commit_failure(
                    AdapterFailureKind::Unavailable,
                    "injected failure before authoritative publication",
                    FailureCause::Plain,
                ),
            ),
        }
    }

    /// Takes that the transaction has rolled back.
    pub fn rolled_back(&mut self) -> (result: Result<CommitAction, PostgresStateError>)
        requires
            old(self).well_formed(),
            old(self).phase == CommitPhase::RollingBack,
        ensures
            final(self).same_request(*old(self)),
            final(self).counted == old(self).counted,
            final(self).outcome == old(self).outcome,
            old(self).after_rollback(*final(self), result),
    {
        if self.outcome.is_none() {
            return Err(
                PostgresStateError::new(
                    StateStoreOperation::Commit,
                    AdapterFailureKind::Unavailable,
                    "injected failure before authoritative publication",
                    FailureCause::Plain,
                ),
            );
        }
        self.phase = CommitPhase::Finished;
        Ok(CommitAction::Finish)
    }
}

/// What becomes of a request that no attempt is made for.
pub open spec fn admission(
    request: CommitRequest,
    preflight: Option<MalformedCommit<Seq<u8>>>,
    outcome: Option<CommitOutcome<Seq<u8>>>,
) -> bool {
    match (preflight, outcome) {
        (Some(error), Some(outcome)) => outcome == CommitOutcome::MalformedRequest(error),
        (None, Some(outcome)) => exists|i: int, target: RecordKey<Seq<u8>>| #[trigger]
            key_codec::first_duplicate(request.filesystem_id, request.change_seq(), i, target)
                && outcome == CommitOutcome::MalformedRequest(
                MalformedCommit::DuplicateChangeTarget(target),
            ),
        (None, None) => key_codec::targets_once(request.filesystem_id, request.change_seq()),
        (Some(_), None) => false,
    }
}

/// Refuses a request before any attempt, if the rules of requests do or if
/// two of its changes target one record.
pub fn admit_request(request: &CommitRequest, preflight: Option<MalformedCommit>) -> (result: Option<
    CommitOutcome,
>)
    ensures
        admission(
            *request,
            match preflight {
                Some(error) => Some(error@),
                None => None,
            },
            match result {
                Some(outcome) => Some(outcome@),
                None => None,
            },
        ),
{
    match preflight {
        Some(error) => {
            return Some(CommitOutcome::MalformedRequest(error));
        },
        None => {},
    }
    match canonical_affected_keys(request.filesystem_id, &request.changes) {
        Ok(_) => {
            assert(request.change_seq() == request::change_views(request.changes@));
            None
        },
        Err(error) => {
            assert(request.change_seq() == request::change_views(request.changes@));
            Some(CommitOutcome::MalformedRequest(error))
        },
    }
}

/// The failure of a point write that affected several rows.
pub open spec fn several_rows(rows: u64) -> StateFailure {
    precondition::commit_failure(
        AdapterFailureKind::Corruption,
        "",
        FailureCause::PointWrite(rows),
    )
}

/// The statement that writes the ledger record of a request.
pub open spec fn ledger_statement(request: CommitRequest, revision: u64) -> StatementView {
    record_write::insertion(
        "mutation_results",
        record_write::MUTATION_COLUMNS@,
        record_write::MUTATION_NUMERIC@,
        record_write::mutation_values(
            record_write::stamped_mutation(
                row_codec::row_of(
                    request.filesystem_id,
                    StateRecord::Mutation(publish::ledger_record(request, revision)),
                )->Mutation_0,
                revision,
            ),
        ),
    )
}

/// An attempt writes, or has written.
pub open spec fn has_started_writing(phase: CommitPhase) -> bool {
    ||| phase is Judging
    ||| phase is Writing
    ||| phase is WritingSecond
    ||| phase is Relations
    ||| phase is Recording
    ||| phase is Publishing
    ||| phase is Committing
}

/// Whatever an attempt writes, it writes only after every record that it
/// needs has been locked and read, every transition is valid, and neither a
/// stored lock nor another requested one excludes a lock that it writes.
pub proof fn law_writes_are_cleared(attempt: CommitAttempt, key: RecordKey<Seq<u8>>, id: LockId)
    requires
        attempt.well_formed(),
        has_started_writing(attempt.phase),
    ensures
        attempt.records@.dom().contains(key) <==> precondition::locks(attempt.request, key),
        transition::transition_failure(attempt.request, attempt.records@, attempt.limits) is None,
        attempt.search.index >= attempt.search.locks@.len(),
        attempt.search.found is None,
        !lock_check::requested_conflict(lock_check::lock_views(attempt.search.locks@), id),
{
    let keys = key::key_views(attempt.keys@);
    assert(keys.take(keys.len() as int) =~= keys);
    assert(keys.to_set().contains(key) == keys.contains(key));
}

/// Whatever an attempt writes, it writes only after every precondition holds:
/// the one answer to a precondition on pins was the number that it expects, and
/// every other one holds of the records that were locked and read.
pub proof fn law_preconditions_hold_before_writes(attempt: CommitAttempt, index: int)
    requires
        attempt.well_formed(),
        has_started_writing(attempt.phase),
        0 <= index < attempt.request.precondition_seq().len(),
    ensures
        match attempt.request.precondition_seq()[index] {
            Precondition::OpenPinCount { expected, .. } => {
                &&& exists|a: int|
                    0 <= a < attempt.counted@.len() && (#[trigger] attempt.counted@[a]).0 == index
                &&& forall|a: int|
                    0 <= a < attempt.counted@.len() && (#[trigger] attempt.counted@[a]).0 == index
                        ==> attempt.counted@[a].1 == expected
            },
            other => precondition::precondition_conflict(
                attempt.request,
                attempt.records@,
                other,
            ) is None,
        },
{
    assert(holds(attempt.request, attempt.records@, attempt.counted@, index));
    assert(attempt.request.precondition_seq().len() == attempt.request.preconditions.len());
    match attempt.request.precondition_seq()[index] {
        Precondition::OpenPinCount { expected, .. } => {
            let counted = attempt.counted@;
            let at = choose|a: int|
                0 <= a < counted.len() && counted[a] == (index as usize, expected);
            assert(counted[at].0 == index);
            assert forall|a: int|
                0 <= a < counted.len() && (#[trigger] counted[a]).0 == index implies counted[a].1
                == expected by {
                if a < at {
                    assert(counted[a].0 < counted[at].0);
                } else if at < a {
                    assert(counted[at].0 < counted[a].0);
                }
            }
        },
        _ => {},
    }
}

/// Nothing is recorded or published before every relation that the changes
/// concern has been checked, and what is published follows the locked head by
/// one revision.
pub proof fn law_published_changes_are_related(attempt: CommitAttempt)
    requires
        attempt.well_formed(),
        attempt.phase is Recording || attempt.phase is Publishing || attempt.phase is Committing,
    ensures
        attempt.check.concerns(attempt.request, attempt.records@, attempt.limits),
        attempt.check.stage == Stage::Done,
        attempt.revision.value == attempt.current.value + 1,
{
}

proof fn lemma_publication_has_two_targets(attempt: CommitAttempt, index: int)
    requires
        attempt.plan_follows(index),
        attempt.plan->0 is Publish,
    ensures
        request::secondary_key(
            attempt.request.filesystem_id,
            attempt.request.change_seq()[index],
        ) is Some,
{
    reveal(change_plan::planned);
}

/// A change that the rules of content judge.
pub open spec fn needs_verdict(change: transition::Change) -> bool {
    change is PublishContent || change is RewrapContentMetadata
}

/// No rule of content applies.
pub open spec fn no_verdict() -> ChangeVerdict {
    ChangeVerdict { publication: None, rewrap: None }
}

/// The state of preconditions says what holds.
pub open spec fn progress_sound(
    request: CommitRequest,
    records: table::Records,
    counted: Seq<(usize, u64)>,
    progress: PreconditionProgress<Seq<u8>>,
) -> bool {
    match progress {
        PreconditionProgress::Hold => preconditions_hold(
            request,
            records,
            counted,
            request.precondition_seq().len() as int,
        ),
        PreconditionProgress::CountPins { index, .. } => index < request.preconditions@.len()
            && request.precondition_seq()[index as int] is OpenPinCount && preconditions_hold(
            request,
            records,
            counted,
            index as int,
        ),
        PreconditionProgress::Conflict(_) => true,
    }
}

proof fn lemma_hold(
    request: CommitRequest,
    records: table::Records,
    counted: Seq<(usize, u64)>,
    start: int,
)
    requires
        0 <= start <= request.precondition_seq().len(),
        request.precondition_seq().len() <= usize::MAX,
        preconditions_hold(request, records, counted, start),
    ensures
        progress_sound(
            request,
            records,
            counted,
            precondition::first_conflict(request, records, start),
        ),
    decreases request.precondition_seq().len() - start,
{
    let preconditions = request.precondition_seq();
    if start < preconditions.len() {
        if !(preconditions[start] is OpenPinCount) && precondition::precondition_conflict(
            request,
            records,
            preconditions[start],
        ) is None {
            assert(holds(request, records, counted, start));
            assert(preconditions_hold(request, records, counted, start + 1));
            lemma_hold(request, records, counted, start + 1);
        }
    }
}

proof fn lemma_resume(
    request: CommitRequest,
    records: table::Records,
    counted: Seq<(usize, u64)>,
    index: int,
    value: u64,
)
    requires
        0 <= index < request.precondition_seq().len(),
        request.precondition_seq().len() <= usize::MAX,
        preconditions_hold(request, records, counted, index),
        request.precondition_seq()[index] is OpenPinCount,
    ensures
        progress_sound(
            request,
            records,
            counted.push((index as usize, value)),
            precondition::pin_progress(request, records, index, value),
        ),
{
    let after = counted.push((index as usize, value));
    match request.precondition_seq()[index] {
        Precondition::OpenPinCount { expected, .. } => {
            if value == expected {
                assert(after[after.len() - 1] == (index as usize, expected));
                assert(counted_before(after, index + 1));
                assert forall|i: int| 0 <= i < index + 1 implies #[trigger] holds(
                    request,
                    records,
                    after,
                    i,
                ) by {
                    if i < index {
                        assert(holds(request, records, counted, i));
                        match request.precondition_seq()[i] {
                            Precondition::OpenPinCount { expected, .. } => {
                                let a = choose|a: int|
                                    0 <= a < counted.len() && counted[a] == (i as usize, expected);
                                assert(after[a] == counted[a]);
                            },
                            _ => {},
                        }
                    }
                }
                lemma_hold(request, records, after, index + 1);
            }
        },
        _ => {},
    }
}

} // verus!
