//! What a whole search for excluding locks finds.
use vstd::prelude::*;

use crate::bytes;
use crate::ids::{FilesystemId, InodeId, LockId};
use crate::key::RecordKey;
use crate::lock_check;
use crate::lock_check::LockSearch;
use crate::record;
use crate::numeric;
use crate::record::{LockKind, LockRangeEnd, LockRecord, StateRecord};
use crate::request::StateChange;
use crate::row_codec;
use crate::rows::LockRow;
use crate::statement::{StatementView, ValueView};
use crate::transition;

verus! {

/// A lock stands behind the one after which a comparison goes on.
pub open spec fn behind(after: Option<LockId>, id: LockId) -> bool {
    match after {
        Some(after) => after.value < id.value,
        None => true,
    }
}

/// A stored lock is an answer to the question of a search: it excludes the
/// requested lock and stands behind the last one that was passed over.
pub open spec fn eligible(
    stored: Set<LockRecord>,
    lock: LockRecord,
    after: Option<LockId>,
    candidate: LockRecord,
) -> bool {
    &&& stored.contains(candidate)
    &&& record::locks_conflict(candidate, lock)
    &&& behind(after, candidate.lock_id)
}

/// The database answers the question of a search: with the lowest stored lock
/// that is an answer, or with none where there is none.
pub open spec fn truthful(
    stored: Set<LockRecord>,
    lock: LockRecord,
    after: Option<LockId>,
    existing: Option<Vec<u8>>,
) -> bool {
    match existing {
        None => forall|candidate: LockRecord| !#[trigger] eligible(stored, lock, after, candidate),
        Some(found) => {
            let id = LockId { value: bytes::id_value(found@) };
            &&& found@.len() == 16
            &&& exists|candidate: LockRecord| #[trigger]
                eligible(stored, lock, after, candidate) && candidate.lock_id == id
            &&& forall|candidate: LockRecord| #[trigger]
                eligible(stored, lock, after, candidate) ==> id.value <= candidate.lock_id.value
        },
    }
}

/// One question of a search, its truthful answer and the state after it.
pub open spec fn step(
    stored: Set<LockRecord>,
    before: LockSearch,
    after: LockSearch,
    existing: Option<Vec<u8>>,
) -> bool {
    &&& before.index < before.locks@.len()
    &&& truthful(stored, before.locks@[before.index as int].1, before.after, existing)
    &&& lock_check::moved(before, after, existing)
}

/// States of a search whose questions were answered truthfully.
pub open spec fn searched(
    stored: Set<LockRecord>,
    states: Seq<LockSearch>,
    answers: Seq<Option<Vec<u8>>>,
) -> bool {
    &&& states.len() == answers.len() + 1
    &&& forall|k: int|
        0 <= k < answers.len() ==> #[trigger] step(stored, states[k], states[k + 1], answers[k])
}

/// A stored lock that the changes do not take out of the way excludes one of the
/// first requested locks.
pub open spec fn stored_conflict(
    stored: Set<LockRecord>,
    changes: Seq<transition::Change>,
    locks: Seq<lock_check::WrittenLock>,
    count: int,
    id: LockId,
) -> bool {
    exists|i: int, candidate: LockRecord|
        0 <= i < count && #[trigger] eligible(stored, locks[i].1, None, candidate)
            && candidate.lock_id == id && !lock_check::frees(changes, (locks[i].1.inode_id, id))
}

/// A lock excludes a requested one: two requested locks exclude each other and it
/// is the lower of them, or it is stored and not taken out of the way.
pub open spec fn conflicting(
    stored: Set<LockRecord>,
    changes: Seq<transition::Change>,
    locks: Seq<lock_check::WrittenLock>,
    count: int,
    id: LockId,
) -> bool {
    ||| lock_check::requested_conflict(locks, id)
    ||| stored_conflict(stored, changes, locks, count, id)
}

/// A lock is the lowest that excludes a requested one, if any does.
pub open spec fn is_lowest(
    stored: Set<LockRecord>,
    changes: Seq<transition::Change>,
    locks: Seq<lock_check::WrittenLock>,
    count: int,
    found: Option<LockId>,
) -> bool {
    match found {
        Some(id) => conflicting(stored, changes, locks, count, id) && forall|other: LockId|
            #[trigger] conflicting(stored, changes, locks, count, other) ==> id.value
                <= other.value,
        None => forall|other: LockId| !#[trigger] conflicting(stored, changes, locks, count, other),
    }
}

/// What holds of every state of a search: the lock that it holds is the lowest
/// that excludes a requested lock before the current one, and what was passed
/// over for the current one is taken out of the way.
spec fn sound(
    stored: Set<LockRecord>,
    changes: Seq<transition::Change>,
    locks: Seq<lock_check::WrittenLock>,
    search: LockSearch,
) -> bool {
    &&& lock_check::lock_views(search.locks@) == locks
    &&& lock_check::lists_freed(search.removed@, changes)
    &&& search.index <= locks.len()
    &&& is_lowest(stored, changes, locks, search.index as int, search.found)
    &&& search.index < locks.len() ==> forall|candidate: LockRecord| #[trigger]
        eligible(stored, locks[search.index as int].1, None, candidate) && !behind(
            search.after,
            candidate.lock_id,
        ) ==> lock_check::frees(
            changes,
            (locks[search.index as int].1.inode_id, candidate.lock_id),
        )
}

proof fn lemma_more_requested(
    stored: Set<LockRecord>,
    changes: Seq<transition::Change>,
    locks: Seq<lock_check::WrittenLock>,
    count: int,
    id: LockId,
)
    requires
        0 <= count < locks.len(),
    ensures
        conflicting(stored, changes, locks, count + 1, id) <==> conflicting(
            stored,
            changes,
            locks,
            count,
            id,
        ) || exists|candidate: LockRecord| #[trigger]
            eligible(stored, locks[count].1, None, candidate) && candidate.lock_id == id
                && !lock_check::frees(changes, (locks[count].1.inode_id, id)),
{
    if stored_conflict(stored, changes, locks, count + 1, id) {
        let (i, candidate) = choose|i: int, candidate: LockRecord|
            0 <= i < count + 1 && #[trigger] eligible(stored, locks[i].1, None, candidate)
                && candidate.lock_id == id && !lock_check::frees(
                changes,
                (locks[i].1.inode_id, id),
            );
        assert(eligible(stored, locks[i].1, None, candidate));
        if i < count {
            assert(stored_conflict(stored, changes, locks, count, id));
        }
    }
    if stored_conflict(stored, changes, locks, count, id) {
        let (i, candidate) = choose|i: int, candidate: LockRecord|
            0 <= i < count && #[trigger] eligible(stored, locks[i].1, None, candidate)
                && candidate.lock_id == id && !lock_check::frees(
                changes,
                (locks[i].1.inode_id, id),
            );
        assert(eligible(stored, locks[i].1, None, candidate));
        assert(stored_conflict(stored, changes, locks, count + 1, id));
    }
}

proof fn lemma_step(
    stored: Set<LockRecord>,
    changes: Seq<transition::Change>,
    locks: Seq<lock_check::WrittenLock>,
    before: LockSearch,
    after: LockSearch,
    existing: Option<Vec<u8>>,
)
    requires
        sound(stored, changes, locks, before),
        step(stored, before, after, existing),
    ensures
        sound(stored, changes, locks, after),
{
    let at = before.index as int;
    let lock = before.locks@[at].1;
    assert(locks[at].1 == lock);
    assert forall|candidate: LockRecord| #[trigger] eligible(
        stored,
        lock,
        None,
        candidate,
    ) && behind(before.after, candidate.lock_id) implies eligible(
        stored,
        lock,
        before.after,
        candidate,
    ) by {}
    assert forall|id: LockId| #[trigger] conflicting(stored, changes, locks, at + 1, id)
        <==> conflicting(stored, changes, locks, at, id) || exists|candidate: LockRecord|
        #[trigger]
        eligible(stored, lock, None, candidate) && candidate.lock_id == id && !lock_check::frees(
            changes,
            (lock.inode_id, id),
        ) by {
        lemma_more_requested(stored, changes, locks, at, id);
    }
    match existing {
        None => {
            assert forall|id: LockId| conflicting(stored, changes, locks, at + 1, id)
                == #[trigger] conflicting(stored, changes, locks, at, id) by {
                assert(conflicting(stored, changes, locks, at + 1, id) ==> conflicting(
                    stored,
                    changes,
                    locks,
                    at,
                    id,
                ));
            }
        },
        Some(found) => {
            let id = LockId { value: bytes::id_value(found@) };
            let hit = choose|candidate: LockRecord| #[trigger]
                eligible(stored, lock, before.after, candidate) && candidate.lock_id == id;
            assert(eligible(stored, lock, None, hit));
            if before.removed@.contains((lock.inode_id, id)) {
                assert(lock_check::frees(changes, (lock.inode_id, id)));
            } else {
                assert(!lock_check::frees(changes, (lock.inode_id, id)));
                assert(conflicting(stored, changes, locks, at + 1, id));
                assert forall|other: LockId| #[trigger]
                    conflicting(stored, changes, locks, at + 1, other) implies conflicting(
                    stored,
                    changes,
                    locks,
                    at,
                    other,
                ) || id.value <= other.value by {}
                if before.found is Some {
                    assert(conflicting(stored, changes, locks, at, before.found->0));
                    assert(conflicting(stored, changes, locks, at + 1, before.found->0));
                }
            }
        },
    }
}

proof fn lemma_searched(
    stored: Set<LockRecord>,
    changes: Seq<transition::Change>,
    locks: Seq<lock_check::WrittenLock>,
    states: Seq<LockSearch>,
    answers: Seq<Option<Vec<u8>>>,
    count: int,
)
    requires
        searched(stored, states, answers),
        sound(stored, changes, locks, states[0]),
        0 <= count < states.len(),
    ensures
        sound(stored, changes, locks, states[count]),
    decreases count,
{
    if count > 0 {
        lemma_searched(stored, changes, locks, states, answers, count - 1);
        assert(step(stored, states[count - 1], states[count - 1 + 1], answers[count - 1]));
        lemma_step(
            stored,
            changes,
            locks,
            states[count - 1],
            states[count],
            answers[count - 1],
        );
    }
}

/// A search that started on changes, was answered truthfully from a set of stored
/// locks and is over holds the lowest lock that excludes a requested one: among
/// the stored locks in conflict that the changes do not take out of the way and
/// the lower ones of two requested locks in conflict. It holds none where there
/// is none.
pub proof fn law_search_finds_the_lowest_conflict(
    stored: Set<LockRecord>,
    changes: Seq<transition::Change>,
    states: Seq<LockSearch>,
    answers: Seq<Option<Vec<u8>>>,
)
    requires
        searched(stored, states, answers),
        lock_check::started(states[0], changes),
        states.last().index >= states.last().locks@.len(),
    ensures
        is_lowest(
            stored,
            changes,
            lock_check::lock_views(states[0].locks@),
            states[0].locks@.len() as int,
            states.last().found,
        ),
{
    let locks = lock_check::lock_views(states[0].locks@);
    assert forall|id: LockId| #[trigger] conflicting(stored, changes, locks, 0, id)
        <==> lock_check::requested_conflict(locks, id) by {}
    match states[0].found {
        Some(id) => {
            assert(conflicting(stored, changes, locks, 0, id));
        },
        None => {},
    }
    assert(sound(stored, changes, locks, states[0]));
    lemma_searched(stored, changes, locks, states, answers, states.len() - 1);
}

/// The number before which a range ends; one without an end goes on for good.
pub open spec fn ends_before(lock: LockRecord, offset: int) -> bool {
    match lock.range.end {
        LockRangeEnd::Exclusive(end) => end <= offset,
        LockRangeEnd::ThroughEof => false,
    }
}

/// Two locks exclude each other exactly where they are on one inode, belong to
/// different clients or different handles, neither range ends before the other
/// begins, and one of them is exclusive.
pub proof fn law_excluding_locks_share_a_byte(left: LockRecord, right: LockRecord)
    requires
        left.range.start < u64::MAX,
        right.range.start < u64::MAX,
        !ends_before(left, left.range.start as int),
        !ends_before(right, right.range.start as int),
    ensures
        record::locks_conflict(left, right) <==> {
            &&& left.inode_id.value == right.inode_id.value
            &&& left.owner.client_incarnation.value != right.owner.client_incarnation.value
                || left.owner.open_id.value != right.owner.open_id.value
            &&& left.kind == LockKind::Exclusive || right.kind == LockKind::Exclusive
            &&& !ends_before(left, right.range.start as int)
            &&& !ends_before(right, left.range.start as int)
        },
        record::locks_conflict(left, right) == record::locks_conflict(right, left),
{
    let witness: int = if left.range.start < right.range.start {
        right.range.start as int
    } else {
        left.range.start as int
    };
    if !ends_before(left, right.range.start as int) && !ends_before(
        right,
        left.range.start as int,
    ) {
        assert(left.range.covers(witness) && right.range.covers(witness));
        assert(right.range.covers(witness) && left.range.covers(witness));
    }
    if exists|offset: int| left.range.covers(offset) && right.range.covers(offset) {
        let offset = choose|offset: int| left.range.covers(offset) && right.range.covers(offset);
        assert(right.range.covers(offset) && left.range.covers(offset));
    }
    if exists|offset: int| right.range.covers(offset) && left.range.covers(offset) {
        let offset = choose|offset: int| right.range.covers(offset) && left.range.covers(offset);
        assert(left.range.covers(offset) && right.range.covers(offset));
    }
}

/// The question of a search selects a row of the stored locks.
pub open spec fn selects(statement: StatementView, row: LockRow<Seq<u8>, Seq<char>>) -> bool {
    let v = statement.values;
    &&& statement.sql
        == "SELECT \"lock_id\" FROM \"public\".\"w9pt_fs_state_locks\" WHERE \"filesystem_id\" = $1 AND \"inode_id\" = $2 AND (\"owner_client_incarnation_id\" <> $3 OR \"owner_open_id\" <> $4) AND ($5::numeric IS NULL OR \"range_start\" < $5::numeric) AND (\"range_end\" IS NULL OR \"range_end\" > $6::numeric) AND (\"kind\" = 2 OR $7::smallint = 2) AND ($8::bytea IS NULL OR \"lock_id\" > $8) ORDER BY \"lock_id\" LIMIT 1 FOR SHARE"@
    &&& v.len() == 8
    &&& v[0] == ValueView::Bytes(Some(row.filesystem_id))
    &&& v[1] == ValueView::Bytes(Some(row.inode_id))
    &&& v[2] != ValueView::Bytes(Some(row.owner_client_incarnation_id)) || v[3]
        != ValueView::Bytes(Some(row.owner_open_id))
    &&& v[4] == ValueView::Text(None) || numeric::parsed(row.range_start) < numeric::parsed(
        v[4]->Text_0->0,
    )
    &&& row.range_end is None || numeric::parsed(row.range_end->0) > numeric::parsed(
        v[5]->Text_0->0,
    )
    &&& row.kind == 2 || v[6] == ValueView::Int2(Some(2))
    &&& v[7] == ValueView::Bytes(None) || bytes::lex_lt(v[7]->Bytes_0->0, row.lock_id)
}

/// The question of a search selects exactly the rows of those stored locks that
/// exclude the requested one and stand behind the last one passed over.
pub proof fn law_searches_ask_for_the_excluding_locks(
    filesystem_id: FilesystemId,
    requested: LockRecord,
    after: Option<LockId>,
    stored: LockRecord,
)
    requires
        !ends_before(requested, requested.range.start as int),
        !ends_before(stored, stored.range.start as int),
        requested.range.start < u64::MAX,
        stored.range.start < u64::MAX,
    ensures
        ({
            let row = row_codec::row_of(filesystem_id, StateRecord::Lock(stored))->Lock_0;
            selects(lock_check::conflict_query(filesystem_id, requested, after), row) <==> {
                &&& record::locks_conflict(stored, requested)
                &&& after matches Some(passed) ==> passed.value < stored.lock_id.value
            }
        }),
{
    law_excluding_locks_share_a_byte(stored, requested);
    bytes::lemma_id_round_trip(stored.inode_id.value);
    bytes::lemma_id_round_trip(requested.inode_id.value);
    bytes::lemma_id_round_trip(stored.owner.client_incarnation.value);
    bytes::lemma_id_round_trip(requested.owner.client_incarnation.value);
    bytes::lemma_id_round_trip(stored.owner.open_id.value);
    bytes::lemma_id_round_trip(requested.owner.open_id.value);
    numeric::law_decimal_round_trip(stored.range.start);
    numeric::law_decimal_round_trip(requested.range.start);
    match stored.range.end {
        LockRangeEnd::Exclusive(end) => {
            numeric::law_decimal_round_trip(end);
        },
        LockRangeEnd::ThroughEof => {},
    }
    match requested.range.end {
        LockRangeEnd::Exclusive(end) => {
            numeric::law_decimal_round_trip(end);
        },
        LockRangeEnd::ThroughEof => {},
    }
    match after {
        Some(passed) => {
            bytes::lemma_id_order(passed.value, stored.lock_id.value);
        },
        None => {},
    }
}

/// A change writes a lock under a key: it inserts it, or replaces one by it.
pub open spec fn writes_lock(
    change: transition::Change,
    key: RecordKey<Seq<u8>>,
    lock: LockRecord,
) -> bool {
    match change {
        StateChange::Insert { key: named, record } => named == key && record == StateRecord::<
            Seq<u8>,
            Seq<char>,
        >::Lock(lock),
        StateChange::Replace { key: named, record } => named == key && key is Lock && record
            == StateRecord::<Seq<u8>, Seq<char>>::Lock(lock),
        _ => false,
    }
}

/// A search compares exactly the locks that some change writes, and passes over
/// exactly the stored ones that some change replaces or deletes.
pub proof fn law_searches_compare_the_written_locks(
    changes: Seq<transition::Change>,
    key: RecordKey<Seq<u8>>,
    lock: LockRecord,
    inode_id: InodeId,
    lock_id: LockId,
)
    ensures
        lock_check::written_locks(changes).contains((key, lock)) <==> exists|i: int|
            0 <= i < changes.len() && writes_lock(#[trigger] changes[i], key, lock),
        lock_check::frees(changes, (inode_id, lock_id)) <==> exists|i: int|
            0 <= i < changes.len() && match #[trigger] changes[i] {
                StateChange::Replace {
                    key: RecordKey::Lock(_, inode, id),
                    record: StateRecord::Lock(_),
                } => inode == inode_id && id == lock_id,
                StateChange::Delete(RecordKey::Lock(_, inode, id)) => inode == inode_id && id
                    == lock_id,
                _ => false,
            },
    decreases changes.len(),
{
    if changes.len() > 0 {
        let fewer = changes.drop_last();
        let last = changes[changes.len() - 1];
        law_searches_compare_the_written_locks(fewer, key, lock, inode_id, lock_id);
        let before = lock_check::written_locks(fewer);
        assert forall|i: int| 0 <= i < fewer.len() implies fewer[i] == #[trigger] changes[i] by {}
        match lock_check::written_lock(last) {
            Some(written) => {
                let all = before.push(written);
                if all.contains((key, lock)) {
                    let at = choose|at: int| 0 <= at < all.len() && all[at] == (key, lock);
                    if at < before.len() {
                        assert(before[at] == (key, lock));
                    } else {
                        assert(writes_lock(last, key, lock));
                    }
                }
                if before.contains((key, lock)) {
                    let at = choose|at: int| 0 <= at < before.len() && before[at] == (key, lock);
                    assert(all[at] == (key, lock));
                }
                if writes_lock(last, key, lock) {
                    assert(all[before.len() as int] == (key, lock));
                }
            },
            None => {},
        }
        if exists|i: int| 0 <= i < fewer.len() && writes_lock(#[trigger] fewer[i], key, lock) {
            let i = choose|i: int|
                0 <= i < fewer.len() && writes_lock(#[trigger] fewer[i], key, lock);
            assert(writes_lock(changes[i], key, lock));
        }
        if exists|i: int| 0 <= i < changes.len() && writes_lock(#[trigger] changes[i], key, lock) {
            let i = choose|i: int|
                0 <= i < changes.len() && writes_lock(#[trigger] changes[i], key, lock);
            if i < fewer.len() {
                assert(writes_lock(fewer[i], key, lock));
            }
        }
    }
}

} // verus!
