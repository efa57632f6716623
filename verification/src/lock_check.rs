//! Search for the lowest lock that excludes a requested one.
use vstd::prelude::*;

use crate::failure::{AdapterFailureKind, FailureCause, PostgresStateError};
use crate::bytes;
use crate::ids::{FilesystemId, InodeId, LockId};
use crate::key;
use crate::key::RecordKey;
use crate::precondition;
use crate::precondition::corruption;
use crate::record;
use crate::record::{LockRangeEnd, LockRecord, StateRecord};
use crate::request::{CommitConflictKind, CommitRequest, StateChange};
use crate::row_codec;
use crate::row_codec::encode_lock_kind;
use crate::statement;
use crate::statement::{query, PostgresQuery, SqlValue, StatementView};
use crate::transition;

verus! {

/// A written lock and its key.
pub type WrittenLock = (RecordKey<Seq<u8>>, LockRecord);

/// The lock that a change writes.
pub open spec fn written_lock(change: transition::Change) -> Option<WrittenLock> {
    match change {
        StateChange::Insert { key, record: StateRecord::Lock(lock) } => Some((key, lock)),
        StateChange::Replace { key, record: StateRecord::Lock(lock) } => if key is Lock {
            Some((key, lock))
        } else {
            None
        },
        _ => None,
    }
}

/// The stored lock that a change takes out of the way.
pub open spec fn freed_lock(change: transition::Change) -> Option<(InodeId, LockId)> {
    match change {
        StateChange::Replace {
            key: RecordKey::Lock(_, inode_id, lock_id),
            record: StateRecord::Lock(_),
        } => Some((inode_id, lock_id)),
        StateChange::Delete(RecordKey::Lock(_, inode_id, lock_id)) => Some((inode_id, lock_id)),
        _ => None,
    }
}

/// The locks that changes write, in their order.
pub open spec fn written_locks(changes: Seq<transition::Change>) -> Seq<WrittenLock>
    decreases changes.len(),
{
    if changes.len() == 0 {
        Seq::empty()
    } else {
        match written_lock(changes.last()) {
            Some(lock) => written_locks(changes.drop_last()).push(lock),
            None => written_locks(changes.drop_last()),
        }
    }
}

/// A stored lock is taken out of the way by one of the changes.
pub open spec fn frees(changes: Seq<transition::Change>, freed: (InodeId, LockId)) -> bool {
    exists|i: int| 0 <= i < changes.len() && freed_lock(#[trigger] changes[i]) == Some(freed)
}

/// Every written lock covers at least one byte.
pub open spec fn ranges_valid(changes: Seq<transition::Change>) -> bool {
    forall|i: int|
        0 <= i < changes.len() ==> match written_lock(#[trigger] changes[i]) {
            Some(lock) => lock.1.range.valid(),
            None => true,
        }
}

/// No later lock has a key before an earlier one.
pub open spec fn in_key_order(locks: Seq<WrittenLock>) -> bool {
    forall|i: int, j: int|
        0 <= i < j < locks.len() ==> !key::key_lt((#[trigger] locks[j]).0, (#[trigger] locks[i]).0)
}

/// Locks as contracts speak of them.
pub open spec fn lock_views(locks: Seq<(RecordKey, LockRecord)>) -> Seq<WrittenLock> {
    locks.map_values(|lock: (RecordKey, LockRecord)| (lock.0@, lock.1))
}

/// The smaller of two lock identities.
pub open spec fn lower(left: LockId, right: LockId) -> LockId {
    if right.value < left.value {
        right
    } else {
        left
    }
}

/// The lower of a known conflict and a further one.
pub open spec fn lowest(current: Option<LockId>, candidate: LockId) -> Option<LockId> {
    match current {
        Some(existing) => Some(lower(existing, candidate)),
        None => Some(candidate),
    }
}

/// Keeps the lower of a known conflict and a further one.
pub fn retain_lowest_lock(current: &mut Option<LockId>, candidate: LockId)
    ensures
        *final(current) == lowest(*old(current), candidate),
{
    match *current {
        Some(existing) => {
            if candidate.value < existing.value {
                *current = Some(candidate);
            }
        },
        None => {
            *current = Some(candidate);
        },
    }
}

/// An identity that two requested locks in conflict give: the lower of theirs.
pub open spec fn pair_conflict(locks: Seq<WrittenLock>, first: int, second: int, id: LockId) -> bool {
    &&& 0 <= first < second < locks.len()
    &&& record::locks_conflict(locks[first].1, locks[second].1)
    &&& id == lower(locks[first].1.lock_id, locks[second].1.lock_id)
}

/// Some two requested locks in conflict give an identity.
pub open spec fn requested_conflict(locks: Seq<WrittenLock>, id: LockId) -> bool {
    exists|i: int, j: int| #[trigger] pair_conflict(locks, i, j, id)
}

/// A lock is the lowest that requested locks in conflict give, if any do.
pub open spec fn is_lowest_requested(locks: Seq<WrittenLock>, found: Option<LockId>) -> bool {
    match found {
        Some(id) => requested_conflict(locks, id) && forall|other: LockId| #[trigger]
            requested_conflict(locks, other) ==> id.value <= other.value,
        None => forall|other: LockId| !#[trigger] requested_conflict(locks, other),
    }
}

/// Search for the lowest lock that excludes a requested one.
#[derive(Clone, Debug)]
pub struct LockSearch {
    /// Requested locks in key order.
    pub locks: Vec<(RecordKey, LockRecord)>,
    /// Stored locks that the request itself takes out of the way.
    pub removed: Vec<(InodeId, LockId)>,
    /// Requested lock that is being compared with the stored ones.
    pub index: usize,
    /// Stored lock after which the comparison goes on.
    pub after: Option<LockId>,
    /// Lowest lock found so far.
    pub found: Option<LockId>,
}

/// Inserts a lock behind all that do not have a later key.
fn insert_lock(locks: &mut Vec<(RecordKey, LockRecord)>, key: RecordKey, lock: LockRecord)
    requires
        in_key_order(lock_views(old(locks)@)),
        lock.range.valid(),
        forall|i: int| 0 <= i < old(locks)@.len() ==> (#[trigger] old(locks)@[i]).1.range.valid(),
    ensures
        in_key_order(lock_views(final(locks)@)),
        forall|i: int|
            0 <= i < final(locks)@.len() ==> (#[trigger] final(locks)@[i]).1.range.valid(),
        lock_views(final(locks)@).to_multiset() == lock_views(old(locks)@).to_multiset().insert(
            (key@, lock),
        ),
{
    let ghost before = lock_views(locks@);
    let mut index: usize = locks.len();
    while index > 0 && key.precedes(&locks[index - 1].0)
        invariant
            index <= locks@.len(),
            locks@ == old(locks)@,
            before == lock_views(locks@),
            forall|i: int| index <= i < before.len() ==> key::key_lt(key@, (#[trigger] before[i]).0),
        decreases index,
    {
        index = index - 1;
        assert(before[index as int].0 == locks@[index as int].0@);
    }
    let ghost added = (key@, lock);
    proof {
        let at = index as int;
        assert forall|i: int| 0 <= i < at implies !key::key_lt(key@, (#[trigger] before[i]).0) by {
            if i < at - 1 && key::key_lt(key@, before[i].0) {
                let last = before[at - 1].0;
                key::lemma_key_total(key@, last);
                assert(!key::key_lt(last, before[i].0));
                if key@ != last {
                    key::lemma_key_transitive(last, key@, before[i].0);
                }
            }
        }
    }
    locks.insert(index, (key, lock));
    proof {
        let at = index as int;
        let after = lock_views(locks@);
        assert(after =~= before.insert(at, added));
        assert(after.remove(at) =~= before);
        broadcast use vstd::seq_lib::group_to_multiset_ensures;

        vstd::seq_lib::to_multiset_remove(after, at);
        assert(after[at] == added);
        assert(after.contains(added));
        assert(after.to_multiset() =~= before.to_multiset().insert(added));
        assert forall|i: int, j: int| 0 <= i < j < after.len() implies !key::key_lt(
            (#[trigger] after[j]).0,
            (#[trigger] after[i]).0,
        ) by {
            let from = if i < at {
                i
            } else {
                i - 1
            };
            let to = if j < at {
                j
            } else {
                j - 1
            };
            if i != at && j != at {
                assert(after[i] == before[from] && after[j] == before[to]);
            } else if i == at {
                assert(after[j] == before[to]);
                assert(key::key_lt(added.0, before[to].0));
                if key::key_lt(after[j].0, after[i].0) {
                    key::lemma_key_transitive(added.0, before[to].0, added.0);
                    key::lemma_key_irreflexive(added.0);
                }
            } else {
                assert(after[i] == before[from]);
            }
        }
    }
}

/// The lowest lock that requested locks in conflict give.
fn lowest_requested(locks: &Vec<(RecordKey, LockRecord)>) -> (result: Option<LockId>)
    requires
        forall|i: int| 0 <= i < locks@.len() ==> (#[trigger] locks@[i]).1.range.valid(),
    ensures
        is_lowest_requested(lock_views(locks@), result),
{
    let ghost views = lock_views(locks@);
    let mut found: Option<LockId> = None;
    let mut first: usize = 0;
    while first < locks.len()
        invariant
            first <= locks@.len(),
            views == lock_views(locks@),
            forall|i: int| 0 <= i < locks@.len() ==> (#[trigger] locks@[i]).1.range.valid(),
            found is Some ==> requested_conflict(views, found->0),
            forall|i: int, j: int, id: LockId|
                i < first && #[trigger] pair_conflict(views, i, j, id) ==> found is Some
                    && found->0.value <= id.value,
        decreases locks@.len() - first,
    {
        let mut second: usize = first + 1;
        while second < locks.len()
            invariant
                first < locks@.len(),
                first + 1 <= second <= locks@.len(),
                views == lock_views(locks@),
                forall|i: int| 0 <= i < locks@.len() ==> (#[trigger] locks@[i]).1.range.valid(),
                found is Some ==> requested_conflict(views, found->0),
                forall|i: int, j: int, id: LockId|
                    (i < first || (i == first && j < second)) && #[trigger] pair_conflict(
                        views,
                        i,
                        j,
                        id,
                    ) ==> found is Some && found->0.value <= id.value,
            decreases locks@.len() - second,
        {
            let left = locks[first].1;
            let right = locks[second].1;
            assert(views[first as int].1 == left);
            assert(views[second as int].1 == right);
            if left.conflicts_with(&right) {
                let candidate = if right.lock_id.value < left.lock_id.value {
                    right.lock_id
                } else {
                    left.lock_id
                };
                assert(pair_conflict(views, first as int, second as int, candidate));
                assert(requested_conflict(views, candidate));
                retain_lowest_lock(&mut found, candidate);
            }
            second = second + 1;
        }
        first = first + 1;
    }
    found
}

/// A list of freed locks holds exactly those that changes free.
pub open spec fn lists_freed(removed: Seq<(InodeId, LockId)>, changes: Seq<transition::Change>) -> bool {
    forall|freed: (InodeId, LockId)| #[trigger]
        removed.contains(freed) <==> frees(changes, freed)
}

/// A search stands at its beginning: it holds the locks that changes write, in
/// key order, those that they take out of the way, and the lowest lock that the
/// written ones in conflict give.
pub open spec fn started(search: LockSearch, changes: Seq<transition::Change>) -> bool {
    &&& in_key_order(lock_views(search.locks@))
    &&& lock_views(search.locks@).to_multiset() == written_locks(changes).to_multiset()
    &&& lists_freed(search.removed@, changes)
    &&& search.index == 0
    &&& search.after is None
    &&& is_lowest_requested(lock_views(search.locks@), search.found)
}

impl LockSearch {
    /// The search for a request, with the conflicts among its own locks.
    pub fn start(request: &CommitRequest) -> (result: Self)
        requires
            ranges_valid(request.change_seq()),
        ensures
            started(result, request.change_seq()),
    {
        let ghost changes = request.change_seq();
        let mut locks: Vec<(RecordKey, LockRecord)> = Vec::new();
        let mut removed: Vec<(InodeId, LockId)> = Vec::new();
        let mut index: usize = 0;
        assert(lock_views(locks@) =~= Seq::empty());
        assert(changes.take(0) =~= Seq::empty());
        while index < request.changes.len()
            invariant
                index <= changes.len(),
                changes == request.change_seq(),
                changes.len() == request.changes@.len(),
                ranges_valid(changes),
                in_key_order(lock_views(locks@)),
                forall|i: int| 0 <= i < locks@.len() ==> (#[trigger] locks@[i]).1.range.valid(),
                lock_views(locks@).to_multiset() == written_locks(
                    changes.take(index as int),
                ).to_multiset(),
                lists_freed(removed@, changes.take(index as int)),
            decreases changes.len() - index,
        {
            let change = &request.changes[index];
            let ghost at = index as int;
            let ghost before = removed@;
            proof {
                assert(changes[at] == change@);
                assert(changes.take(at + 1).drop_last() =~= changes.take(at));
                assert(changes.take(at + 1).last() == change@);
                broadcast use vstd::seq_lib::group_to_multiset_ensures;

            }
            match change {
                StateChange::Insert { key, record: StateRecord::Lock(lock) } => {
                    insert_lock(&mut locks, key.copied(), *lock);
                },
                StateChange::Replace { key, record: StateRecord::Lock(lock) } => {
                    match key {
                        RecordKey::Lock(_, inode_id, lock_id) => {
                            removed.push((*inode_id, *lock_id));
                            insert_lock(&mut locks, key.copied(), *lock);
                        },
                        _ => {},
                    }
                },
                StateChange::Delete(key) => {
                    match key {
                        RecordKey::Lock(_, inode_id, lock_id) => {
                            removed.push((*inode_id, *lock_id));
                        },
                        _ => {},
                    }
                },
                _ => {},
            }
            proof {
                assert(removed@ == (match freed_lock(change@) {
                    Some(freed) => before.push(freed),
                    None => before,
                }));
                lemma_freed_step(before, removed@, changes, at);
            }
            index = index + 1;
        }
        assert(changes.take(index as int) =~= changes);
        let found = lowest_requested(&locks);
        LockSearch { locks, removed, index: 0, after: None, found }
    }
}

proof fn lemma_freed_step(
    before: Seq<(InodeId, LockId)>,
    after: Seq<(InodeId, LockId)>,
    changes: Seq<transition::Change>,
    at: int,
)
    requires
        0 <= at < changes.len(),
        lists_freed(before, changes.take(at)),
        after == (match freed_lock(changes[at]) {
            Some(freed) => before.push(freed),
            None => before,
        }),
    ensures
        lists_freed(after, changes.take(at + 1)),
{
    let old_changes = changes.take(at);
    let new_changes = changes.take(at + 1);
    assert forall|freed: (InodeId, LockId)| #[trigger] after.contains(freed) <==> frees(
        new_changes,
        freed,
    ) by {
        assert(before.contains(freed) <==> frees(old_changes, freed));
        if frees(old_changes, freed) {
            let i = choose|i: int|
                0 <= i < old_changes.len() && freed_lock(#[trigger] old_changes[i]) == Some(freed);
            assert(new_changes[i] == old_changes[i]);
        }
        if frees(new_changes, freed) {
            let i = choose|i: int|
                0 <= i < new_changes.len() && freed_lock(#[trigger] new_changes[i]) == Some(freed);
            if i < at {
                assert(old_changes[i] == new_changes[i]);
            } else {
                assert(after[after.len() - 1] == freed);
            }
        }
        if before.contains(freed) {
            let i = choose|i: int| 0 <= i < before.len() && before[i] == freed;
            assert(after[i] == freed);
        }
        if after.contains(freed) && !before.contains(freed) {
            let i = choose|i: int| 0 <= i < after.len() && after[i] == freed;
            if i < before.len() {
                assert(before[i] == freed);
            }
            assert(new_changes[at] == changes[at]);
        }
    }
}

/// Text that finds the next stored lock that excludes a requested one.
pub const CONFLICTING_LOCK_SQL: &'static str =
    "SELECT \"lock_id\" FROM \"public\".\"w9pt_fs_state_locks\" WHERE \"filesystem_id\" = $1 AND \"inode_id\" = $2 AND (\"owner_client_incarnation_id\" <> $3 OR \"owner_open_id\" <> $4) AND ($5::numeric IS NULL OR \"range_start\" < $5::numeric) AND (\"range_end\" IS NULL OR \"range_end\" > $6::numeric) AND (\"kind\" = 2 OR $7::smallint = 2) AND ($8::bytea IS NULL OR \"lock_id\" > $8) ORDER BY \"lock_id\" LIMIT 1 FOR SHARE";

/// The number behind a range, if it has an end.
pub open spec fn range_end(lock: LockRecord) -> Option<u64> {
    match lock.range.end {
        LockRangeEnd::Exclusive(end) => Some(end),
        LockRangeEnd::ThroughEof => None,
    }
}

/// The identity of an optional lock.
pub open spec fn optional_lock(lock: Option<LockId>) -> Option<u128> {
    match lock {
        Some(lock) => Some(lock.value),
        None => None,
    }
}

/// The statement that finds the next stored lock that excludes a requested
/// one.
pub open spec fn conflict_query(
    filesystem_id: FilesystemId,
    lock: LockRecord,
    after: Option<LockId>,
) -> StatementView {
    statement::text_only(CONFLICTING_LOCK_SQL@).with_id(filesystem_id.value).with_id(
        lock.inode_id.value,
    ).with_id(lock.owner.client_incarnation.value).with_id(lock.owner.open_id.value).with(
        statement::optional_number_value(range_end(lock)),
    ).with_number(lock.range.start).with(
        SqlValue::Int2(Some(row_codec::lock_tag(lock.kind))),
    ).with(statement::optional_id_value(optional_lock(after)))
}

/// A search moves on an answer: no lock ends the comparison of the current
/// requested lock; a stored lock that the request takes out of the way is
/// passed over; any other counts and ends the comparison.
pub open spec fn moved(before: LockSearch, after: LockSearch, existing: Option<Vec<u8>>) -> bool {
    &&& after.locks@ == before.locks@
    &&& after.removed@ == before.removed@
    &&& match existing {
        None => after.index == before.index + 1 && after.after is None && after.found
            == before.found,
        Some(found) => {
            let lock_id = LockId { value: bytes::id_value(found@) };
            let inode_id = before.locks@[before.index as int].1.inode_id;
            if found@.len() != 16 {
                after.index == before.index && after.after == before.after && after.found
                    == before.found
            } else if before.removed@.contains((inode_id, lock_id)) {
                after.index == before.index && after.after == Some(lock_id) && after.found
                    == before.found
            } else {
                after.index == before.index + 1 && after.after is None && after.found == lowest(
                    before.found,
                    lock_id,
                )
            }
        },
    }
}

impl LockSearch {
    /// The next question to the database, unless the search is over.
    pub fn statement(&self, filesystem_id: FilesystemId) -> (result: Option<PostgresQuery>)
        ensures
            match result {
                Some(statement) => self.index < self.locks@.len() && statement@ == conflict_query(
                    filesystem_id,
                    self.locks@[self.index as int].1,
                    self.after,
                ),
                None => self.index >= self.locks@.len(),
            },
    {
        if self.index >= self.locks.len() {
            return None;
        }
        let lock = self.locks[self.index].1;
        let end: Option<u64> = match lock.range.end {
            LockRangeEnd::Exclusive(end) => Some(end),
            LockRangeEnd::ThroughEof => None,
        };
        let after: Option<u128> = match self.after {
            Some(after) => Some(after.value),
            None => None,
        };
        Some(
            query(CONFLICTING_LOCK_SQL).bind_id(filesystem_id.value).bind_id(
                lock.inode_id.value,
            ).bind_id(lock.owner.client_incarnation.value).bind_id(
                lock.owner.open_id.value,
            ).bind_optional_number(end).bind_number(lock.range.start).bind(
                SqlValue::Int2(Some(encode_lock_kind(lock.kind))),
            ).bind_optional_id(after),
        )
    }

    fn is_removed(&self, inode_id: InodeId, lock_id: LockId) -> (result: bool)
        ensures
            result == self.removed@.contains((inode_id, lock_id)),
    {
        let mut index: usize = 0;
        while index < self.removed.len()
            invariant
                index <= self.removed@.len(),
                forall|i: int|
                    0 <= i < index ==> #[trigger] self.removed@[i] != (inode_id, lock_id),
            decreases self.removed@.len() - index,
        {
            let entry = self.removed[index];
            if entry.0 == inode_id && entry.1 == lock_id {
                assert(self.removed@[index as int] == (inode_id, lock_id));
                return true;
            }
            index = index + 1;
        }
        false
    }

    /// Takes the answer to the last question. A stored lock that the request
    /// takes out of the way is passed over; any other ends the comparison of
    /// the current requested lock.
    pub fn answer(&mut self, existing: Option<Vec<u8>>) -> (result: Result<(), PostgresStateError>)
        requires
            old(self).index < old(self).locks@.len(),
        ensures
            moved(*old(self), *final(self), existing),
            match existing {
                Some(found) => if found@.len() != 16 {
                    result is Err && result->Err_0@ == precondition::commit_failure(
                        AdapterFailureKind::Corruption,
                        "",
                        FailureCause::Width { field: "lock_id", actual: found@.len() as usize },
                    )
                } else {
                    result is Ok
                },
                None => result is Ok,
            },
    {
        let length: usize = self.locks.len();
        assert(self.index < length);
        match existing {
            None => {
                self.index = self.index + 1;
                self.after = None;
            },
            Some(found) => {
                if found.len() != 16 {
                    return Err(
                        corruption(
                            "",
                            FailureCause::Width { field: "lock_id", actual: found.len() },
                        ),
                    );
                }
                let lock_id = LockId { value: bytes::id_from_bytes(&found) };
                let inode_id = self.locks[self.index].1.inode_id;
                if self.is_removed(inode_id, lock_id) {
                    self.after = Some(lock_id);
                } else {
                    let mut lowest_found = self.found;
                    retain_lowest_lock(&mut lowest_found, lock_id);
                    self.found = lowest_found;
                    self.index = self.index + 1;
                    self.after = None;
                }
            },
        }
        Ok(())
    }

    /// The conflict that the search found.
    pub fn conflict(&self) -> (result: Option<CommitConflictKind>)
        ensures
            match self.found {
                Some(existing) => result is Some && result->0@
                    == CommitConflictKind::<Seq<u8>>::LockConflict { existing },
                None => result is None,
            },
    {
        match self.found {
            Some(existing) => Some(CommitConflictKind::LockConflict { existing }),
            None => None,
        }
    }
}

} // verus!
