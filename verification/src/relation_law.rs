//! What the relations of a committed state are, in terms of stored counts and
//! identities.
use vstd::prelude::*;

use crate::ancestry;
use crate::ancestry::Ancestors;
use crate::bytes;
use crate::failure::StateFailure;
use crate::ids::InodeId;
use crate::invariant_sql;
use crate::invariant_sql::InvariantQuestion;
use crate::invariants;
use crate::invariants::{
    EntryFacts, EntryTarget, InodeFacts, InvariantCheck, PinFacts, RelationFacts, RootFacts, Stage,
};
use crate::key::RecordKey;
use crate::numeric;
use crate::record::{InodeData, LockRecord, StateRecord};
use crate::request::StateChange;
use crate::statement::{StatementView, ValueView};
use crate::table::Records;
use crate::targets;
use crate::transition;
use crate::transition::Malformed;

verus! {

/// A check has nothing to report.
pub open spec fn passes(verdict: Result<Option<Malformed>, StateFailure>) -> bool {
    verdict == Ok::<Option<Malformed>, StateFailure>(None)
}

/// The root passes exactly where it is a directory that the header names by
/// sixteen bytes, or where there is neither a header nor an entry.
pub proof fn law_roots_are_directories(facts: RootFacts)
    ensures
        passes(invariants::root_verdict(facts)) <==> {
            &&& facts.root_inode_id matches Some(identity) ==> identity@.len() == 16
            &&& match facts.root_kind {
                Some(kind) => kind == Some(2i16),
                None => !facts.has_entries,
            }
        },
{
}

/// A written entry passes exactly where its parent is a directory, its child is
/// there, and its cookie lies below the next one of the header.
pub proof fn law_entries_have_parent_child_and_cookie(entry: EntryTarget, facts: EntryFacts, next: u64)
    requires
        facts.next_cookie matches Some(text) ==> text@ == numeric::decimal(next as nat),
    ensures
        passes(invariants::entry_verdict(entry, facts)) <==> {
            &&& facts.parent_kind == Some(2i16)
            &&& facts.child_exists
            &&& facts.next_cookie is Some
            &&& entry.cookie.value < next
        },
{
    numeric::law_decimal_round_trip(next);
}

/// A written lock passes exactly where its owner's handle is open on the inode
/// for the owner's own client.
pub proof fn law_lock_owners_have_the_inode_open(lock: LockRecord, client: Option<u128>)
    ensures
        ({
            let owner = match client {
                Some(client) => Some(bytes::id_bytes(client)),
                None => None,
            };
            passes(invariants::owner_verdict(lock, owner)) <==> client == Some(
                lock.owner.client_incarnation.value,
            )
        }),
{
    match client {
        Some(client) => {
            bytes::lemma_id_round_trip(client);
            bytes::lemma_id_round_trip(lock.owner.client_incarnation.value);
        },
        None => {},
    }
}

/// An inode passes exactly where the namespace agrees with it. One that is gone
/// has no dependents. A directory that is not the root has one entry, in its own
/// parent, which is a directory; the root is its own parent and has none. Any
/// other inode has as many entries as its link count.
pub proof fn law_namespaces_agree_with_their_inodes(
    inode_id: InodeId,
    root: Option<InodeId>,
    facts: InodeFacts,
    link_count: u64,
    links: u64,
    parent_links: u64,
    parent: Option<u128>,
)
    requires
        facts.summary matches Some(summary) ==> summary.link_count@ == numeric::decimal(
            link_count as nat,
        ) && match parent {
            Some(parent) => summary.directory_parent is Some && summary.directory_parent->0@
                == bytes::id_bytes(parent),
            None => summary.directory_parent is None,
        },
        facts.namespace_links@ == numeric::decimal(links as nat),
        facts.parent_links@ == numeric::decimal(parent_links as nat),
    ensures
        passes(invariants::namespace_verdict(inode_id, root, facts)) <==> match facts.summary {
            None => !facts.has_dependents,
            Some(summary) => if summary.kind != 2 {
                links == link_count
            } else {
                &&& parent is Some
                &&& root is Some
                &&& if inode_id == root->0 {
                    parent->0 == inode_id.value && links == 0
                } else {
                    facts.parent_kind == Some(2i16) && links == 1 && parent_links == 1
                }
            },
        },
{
    numeric::law_decimal_round_trip(link_count);
    numeric::law_decimal_round_trip(links);
    numeric::law_decimal_round_trip(parent_links);
    match parent {
        Some(parent) => {
            bytes::lemma_id_round_trip(parent);
        },
        None => {},
    }
}

/// The pins of an inode pass exactly where it has links and is no orphan, or has
/// none, is pinned, and is an orphan that counts its pins.
pub proof fn law_pins_agree_with_orphans(link_count: u64, facts: PinFacts, pins: u64, counted: u64)
    requires
        facts.pin_count@ == numeric::decimal(pins as nat),
        facts.orphan_count matches Some(text) ==> text@ == numeric::decimal(counted as nat),
    ensures
        passes(invariants::pin_verdict(link_count, facts)) <==> if link_count > 0 {
            facts.orphan_count is None
        } else {
            facts.orphan_count is Some && counted == pins && pins > 0
        },
{
    numeric::law_decimal_round_trip(pins);
    numeric::law_decimal_round_trip(counted);
}

/// A stored inode is a directory that names a parent.
pub open spec fn names_parent(rows: Ancestors, id: InodeId) -> bool {
    &&& rows.dom().contains(id)
    &&& rows[id].kind == 2
    &&& rows[id].parent is Some
    &&& rows[id].parent->0.len() == 16
}

/// The inode that a number of parent edges leads to.
pub open spec fn above(rows: Ancestors, start: InodeId, edges: int) -> InodeId
    decreases edges,
{
    if edges <= 0 {
        start
    } else {
        InodeId { value: bytes::id_value(rows[above(rows, start, edges - 1)].parent->0) }
    }
}

proof fn lemma_repeats(rows: Ancestors, start: InodeId, low: int, high: int, further: int)
    requires
        0 <= low < high,
        0 <= further,
        above(rows, start, low) == above(rows, start, high),
    ensures
        above(rows, start, low + further) == above(rows, start, high + further),
    decreases further,
{
    if further > 0 {
        lemma_repeats(rows, start, low, high, further - 1);
    }
}

proof fn lemma_walk_accepts(
    rows: Ancestors,
    start: InodeId,
    root: InodeId,
    maximum: u32,
    edges: int,
    done: int,
    visited: Seq<InodeId>,
)
    requires
        0 <= done <= edges <= maximum,
        forall|k: int| 0 <= k <= edges ==> names_parent(rows, #[trigger] above(rows, start, k)),
        forall|k: int| 0 <= k < edges ==> #[trigger] above(rows, start, k) != root,
        above(rows, start, edges) == root,
        bytes::id_value(rows[root].parent->0) == root.value,
        visited.len() == done,
        forall|k: int| 0 <= k < done ==> #[trigger] visited[k] == above(rows, start, k),
    ensures
        passes(
            ancestry::walk(
                rows,
                start,
                root,
                maximum,
                above(rows, start, done),
                visited,
                (maximum + 1 - done) as nat,
            ),
        ),
    decreases edges - done,
{
    let current = above(rows, start, done);
    assert(names_parent(rows, current));
    if visited.contains(current) {
        let k = choose|k: int| 0 <= k < visited.len() && visited[k] == current;
        assert(above(rows, start, k) == current);
        lemma_repeats(rows, start, k, done, edges - done);
        assert(above(rows, start, k + (edges - done)) == root);
    }
    if done < edges {
        assert(current != root);
        let next = above(rows, start, done + 1);
        assert(next == ancestry::stored_inode(rows[current].parent->0));
        lemma_walk_accepts(rows, start, root, maximum, edges, done + 1, visited.push(current));
    }
}

/// A directory whose parents, each a stored directory, lead to a root that is
/// its own parent over at most as many edges as the limit allows is accepted.
pub proof fn law_directories_below_the_root_are_accepted(
    rows: Ancestors,
    start: InodeId,
    root: InodeId,
    maximum: u32,
    edges: int,
)
    requires
        0 <= edges <= maximum,
        forall|k: int| 0 <= k <= edges ==> names_parent(rows, #[trigger] above(rows, start, k)),
        forall|k: int| 0 <= k < edges ==> #[trigger] above(rows, start, k) != root,
        above(rows, start, edges) == root,
        bytes::id_value(rows[root].parent->0) == root.value,
    ensures
        passes(ancestry::ancestry_end(rows, start, root, maximum)),
{
    lemma_walk_accepts(rows, start, root, maximum, edges, 0, Seq::empty());
}

proof fn lemma_walk_refuses(
    rows: Ancestors,
    start: InodeId,
    root: InodeId,
    maximum: u32,
    done: int,
    visited: Seq<InodeId>,
)
    requires
        0 <= done <= maximum + 1,
        forall|k: int| 0 <= k <= maximum ==> #[trigger] above(rows, start, k) != root,
    ensures
        !passes(
            ancestry::walk(
                rows,
                start,
                root,
                maximum,
                above(rows, start, done),
                visited,
                (maximum + 1 - done) as nat,
            ),
        ),
    decreases maximum + 1 - done,
{
    if done <= maximum {
        let current = above(rows, start, done);
        assert(current != root);
        assert(above(rows, start, done + 1) == ancestry::stored_inode(rows[current].parent->0));
        lemma_walk_refuses(rows, start, root, maximum, done + 1, visited.push(current));
    }
}

/// A directory that no number of parent edges within the limit takes to the root
/// is refused.
pub proof fn law_directories_off_the_root_are_refused(
    rows: Ancestors,
    start: InodeId,
    root: InodeId,
    maximum: u32,
)
    requires
        forall|k: int| 0 <= k <= maximum ==> #[trigger] above(rows, start, k) != root,
    ensures
        !passes(ancestry::ancestry_end(rows, start, root, maximum)),
{
    lemma_walk_refuses(rows, start, root, maximum, 0, Seq::empty());
}

/// A record names an inode in one of its fields.
pub open spec fn names_inode(record: StateRecord<Seq<u8>, Seq<char>>, id: InodeId) -> bool {
    match record {
        StateRecord::Filesystem(r) => id == r.root_inode_id,
        StateRecord::Inode(r) => id == r.inode_id || (r.data matches InodeData::Directory {
            parent_inode_id,
            ..
        } && id == parent_inode_id),
        StateRecord::ContentMetadata(r) => id == r.owner_inode_id,
        StateRecord::DirectoryEntry(r) => id == r.parent_inode_id || id == r.child_inode_id,
        StateRecord::Open(r) => id == r.inode_id,
        StateRecord::OpenPin(r) => id == r.inode_id,
        StateRecord::Orphan(r) => id == r.inode_id,
        StateRecord::Lock(r) => id == r.inode_id,
        StateRecord::Xattr(r) => id == r.inode_id,
        StateRecord::XattrStaging(r) => id == r.inode_id,
        StateRecord::Mutation(_) => false,
        StateRecord::WriterLease(_) => false,
    }
}

/// Every inode that a written or deleted record names, or that a step names, has
/// its relations checked.
pub proof fn law_named_inodes_are_checked(
    records: Records,
    changes: Seq<transition::Change>,
    index: int,
    id: InodeId,
)
    requires
        0 <= index < changes.len(),
        match changes[index] {
            StateChange::Insert { record, .. } => names_inode(record, id),
            StateChange::Replace { record, .. } => names_inode(record, id),
            StateChange::Delete(key) => match key {
                RecordKey::Inode(_, named) => named == id,
                RecordKey::Orphan(_, named) => named == id,
                RecordKey::OpenPin(_, named, _) => named == id,
                RecordKey::Lock(_, named, _) => named == id,
                RecordKey::Xattr(_, named, _) => named == id,
                _ => records.dom().contains(key) && (records[key] matches Some(stored)
                    && names_inode(stored, id)),
            },
            StateChange::BumpInodeGeneration(named) => named == id,
            StateChange::BumpDirectoryGeneration(named) => named == id,
            StateChange::AdjustLinkCount { inode_id, .. } => inode_id == id,
            StateChange::AdjustOpenPinCount { inode_id, .. } => inode_id == id,
            StateChange::BumpLockGeneration { inode_id, .. } => inode_id == id,
            StateChange::PublishContent(publication) => publication.inode_id == id,
            StateChange::PublishXattrStaging(publication) => publication.inode_id == id,
            _ => false,
        },
    ensures
        targets::inode_targeted(records, changes, changes.len() as int, id.value),
{
    assert(targets::concerns_inode(records, changes[index], id.value));
}

/// Every open handle that a written or deleted handle, pin or lock names has its
/// dependents checked.
pub proof fn law_named_handles_are_checked(
    records: Records,
    changes: Seq<transition::Change>,
    index: int,
    id: crate::ids::OpenId,
)
    requires
        0 <= index < changes.len(),
        match changes[index] {
            StateChange::Insert { record: StateRecord::Open(r), .. } => r.open_id == id,
            StateChange::Insert { record: StateRecord::OpenPin(r), .. } => r.open_id == id,
            StateChange::Insert { record: StateRecord::Lock(r), .. } => r.owner.open_id == id,
            StateChange::Replace { record: StateRecord::Open(r), .. } => r.open_id == id,
            StateChange::Replace { record: StateRecord::OpenPin(r), .. } => r.open_id == id,
            StateChange::Replace { record: StateRecord::Lock(r), .. } => r.owner.open_id == id,
            StateChange::Delete(RecordKey::Open(_, named)) => named == id,
            StateChange::Delete(RecordKey::OpenPin(_, _, named)) => named == id,
            StateChange::Delete(key) => records.dom().contains(key) && (records[key] matches Some(
                StateRecord::Lock(r),
            ) && r.owner.open_id == id),
            _ => false,
        },
    ensures
        targets::open_targeted(records, changes, changes.len() as int, id.value),
{
    assert(targets::concerns_open(records, changes[index], id.value));
}

/// A statement binds a filesystem and further identities, in this order.
pub open spec fn binds_ids(statement: StatementView, ids: Seq<u128>) -> bool {
    &&& statement.values.len() == ids.len()
    &&& forall|i: int|
        0 <= i < ids.len() ==> #[trigger] statement.values[i] == ValueView::Bytes(
            Some(bytes::id_bytes(ids[i])),
        )
}

/// Every question of a check is about its filesystem and about the very record
/// that its stage stands at: the parent and the child of an entry, the handle
/// and the inode of a lock, the concerned inode or handle.
pub proof fn law_checks_ask_about_their_own_records(question: InvariantQuestion, check: InvariantCheck)
    requires
        invariant_sql::asks(question, check),
    ensures
        ({
            let fs = check.filesystem_id.value;
            match question {
                InvariantQuestion::Root { root_id, root_kind, has_entries } => {
                    &&& binds_ids(root_id@, seq![fs])
                    &&& root_id@.sql
                        == "SELECT \"root_inode_id\" FROM \"public\".\"w9pt_fs_state_filesystem_records\" WHERE \"filesystem_id\" = $1"@
                    &&& binds_ids(root_kind@, seq![fs])
                    &&& root_kind@.sql
                        == "SELECT \"root\".\"kind\" FROM \"public\".\"w9pt_fs_state_filesystem_records\" AS \"filesystem\" LEFT JOIN \"public\".\"w9pt_fs_state_inodes\" AS \"root\" ON \"root\".\"filesystem_id\" = \"filesystem\".\"filesystem_id\" AND \"root\".\"inode_id\" = \"filesystem\".\"root_inode_id\" WHERE \"filesystem\".\"filesystem_id\" = $1"@
                    &&& binds_ids(has_entries@, seq![fs])
                    &&& has_entries@.sql
                        == "SELECT EXISTS (SELECT 1 FROM \"public\".\"w9pt_fs_state_directory_entries\" WHERE \"filesystem_id\" = $1)"@
                },
                InvariantQuestion::Entry { parent_kind, child, next_cookie } => {
                    let entry = check.entries@[check.stage->Entry_0 as int];
                    &&& check.stage is Entry
                    &&& binds_ids(parent_kind@, seq![fs, entry.parent_inode_id.value])
                    &&& parent_kind@.sql
                        == "SELECT \"kind\" FROM \"public\".\"w9pt_fs_state_inodes\" WHERE \"filesystem_id\" = $1 AND \"inode_id\" = $2"@
                    &&& binds_ids(child@, seq![fs, entry.child_inode_id.value])
                    &&& child@.sql
                        == "SELECT 1 FROM \"public\".\"w9pt_fs_state_inodes\" WHERE \"filesystem_id\" = $1 AND \"inode_id\" = $2"@
                    &&& binds_ids(next_cookie@, seq![fs])
                    &&& next_cookie@.sql
                        == "SELECT \"next_directory_cookie\"::text FROM \"public\".\"w9pt_fs_state_filesystem_records\" WHERE \"filesystem_id\" = $1"@
                },
                InvariantQuestion::Owner(owner) => {
                    let lock = check.locks@[check.stage->Lock_0 as int];
                    &&& check.stage is Lock
                    &&& binds_ids(owner@, seq![fs, lock.owner.open_id.value, lock.inode_id.value])
                    &&& owner@.sql
                        == "SELECT \"client_incarnation_id\" FROM \"public\".\"w9pt_fs_state_opens\" WHERE \"filesystem_id\" = $1 AND \"open_id\" = $2 AND \"inode_id\" = $3"@
                },
                InvariantQuestion::Inode { summary, dependents, namespace_links } => {
                    let id = check.inodes@[check.stage->Inode_0 as int];
                    &&& check.stage is Inode
                    &&& binds_ids(summary@, seq![fs, id])
                    &&& summary@.sql
                        == "SELECT \"kind\", \"link_count\"::text, \"directory_parent_inode_id\" FROM \"public\".\"w9pt_fs_state_inodes\" WHERE \"filesystem_id\" = $1 AND \"inode_id\" = $2"@
                    &&& binds_ids(dependents@, seq![fs, id])
                    &&& binds_ids(namespace_links@, seq![fs, id])
                    &&& namespace_links@.sql
                        == "SELECT pg_catalog.count(*)::numeric(20, 0)::text FROM \"public\".\"w9pt_fs_state_directory_entries\" WHERE \"filesystem_id\" = $1 AND \"child_inode_id\" = $2"@
                },
                InvariantQuestion::Ancestor(ancestor) => {
                    &&& check.stage is Ancestry
                    &&& binds_ids(ancestor@, seq![fs, check.walk.current.value])
                    &&& ancestor@.sql
                        == "SELECT \"kind\", \"directory_parent_inode_id\" FROM \"public\".\"w9pt_fs_state_inodes\" WHERE \"filesystem_id\" = $1 AND \"inode_id\" = $2"@
                },
                InvariantQuestion::Pins { pin_count, orphan_count } => {
                    let id = check.inodes@[check.stage->Pins_0 as int];
                    &&& check.stage is Pins
                    &&& binds_ids(pin_count@, seq![fs, id])
                    &&& pin_count@.sql
                        == "SELECT pg_catalog.count(*)::numeric(20, 0)::text FROM \"public\".\"w9pt_fs_state_open_pins\" WHERE \"filesystem_id\" = $1 AND \"inode_id\" = $2"@
                    &&& binds_ids(orphan_count@, seq![fs, id])
                    &&& orphan_count@.sql
                        == "SELECT \"open_pin_count\"::text FROM \"public\".\"w9pt_fs_state_orphans\" WHERE \"filesystem_id\" = $1 AND \"inode_id\" = $2"@
                },
                InvariantQuestion::Open(dependents) => {
                    &&& check.stage is Open
                    &&& binds_ids(
                        dependents@,
                        seq![fs, check.opens@[check.stage->Open_0 as int]],
                    )
                },
                InvariantQuestion::Nothing => check.stage == Stage::Done,
            }
        }),
{
}

/// The next thing that a check looks at behind its last entry: the first lock,
/// without locks the first inode, without inodes the first open handle, and
/// without any of them nothing more.
pub open spec fn behind_entries(check: InvariantCheck) -> Stage {
    if check.locks@.len() > 0 {
        Stage::Lock(0)
    } else {
        behind_locks(check)
    }
}

/// The next thing that a check looks at behind its last lock.
pub open spec fn behind_locks(check: InvariantCheck) -> Stage {
    if check.inodes@.len() > 0 {
        Stage::Inode(0)
    } else {
        behind_inodes(check)
    }
}

/// The next thing that a check looks at behind its last inode.
pub open spec fn behind_inodes(check: InvariantCheck) -> Stage {
    if check.opens@.len() > 0 {
        Stage::Open(0)
    } else {
        Stage::Done
    }
}

/// The next thing that a check looks at behind one of its inodes.
pub open spec fn behind_inode(check: InvariantCheck, index: int) -> Stage {
    if index + 1 < check.inodes@.len() {
        Stage::Inode((index + 1) as usize)
    } else {
        behind_inodes(check)
    }
}

/// A check leaves nothing out: behind the root it looks at every entry, every
/// lock, every inode and every open handle, one after the other. Of an inode it
/// looks at the namespace first; of a directory then at the way to the root, up
/// to the root itself; and of every inode that is there then at its pins.
pub proof fn law_checks_leave_nothing_out(check: InvariantCheck, facts: RelationFacts)
    requires
        check.well_formed(),
        facts.suits(check.stage),
    ensures
        match check.stage {
            Stage::Root => check.stage_after(facts) == (if check.entries@.len() > 0 {
                Stage::Entry(0)
            } else {
                behind_entries(check)
            }),
            Stage::Entry(i) => check.stage_after(facts) == (if i + 1 < check.entries@.len() {
                Stage::Entry((i + 1) as usize)
            } else {
                behind_entries(check)
            }),
            Stage::Lock(i) => check.stage_after(facts) == (if i + 1 < check.locks@.len() {
                Stage::Lock((i + 1) as usize)
            } else {
                behind_locks(check)
            }),
            Stage::Inode(i) => match facts {
                RelationFacts::Inode(found) => match found.summary {
                    None => check.stage_after(facts) == behind_inode(check, i as int),
                    Some(summary) => check.stage_after(facts) == (if summary.kind == 2 {
                        Stage::Ancestry(i)
                    } else {
                        Stage::Pins(i)
                    }),
                },
                _ => false,
            },
            Stage::Ancestry(i) => check.stage_after(facts) == (if check.walk.current
                == check.walk.root {
                Stage::Pins(i)
            } else {
                Stage::Ancestry(i)
            }),
            Stage::Pins(i) => check.stage_after(facts) == behind_inode(check, i as int),
            Stage::Open(i) => check.stage_after(facts) == (if i + 1 < check.opens@.len() {
                Stage::Open((i + 1) as usize)
            } else {
                Stage::Done
            }),
            Stage::Done => true,
        },
{
}

/// A check judges each thing that it looks at by the facts about that very
/// thing: the entry, the lock and the inode at its index, the pins against the
/// link count of the inode, and an open handle that something still refers to
/// although it is not there is reported.
pub proof fn law_checks_judge_what_they_look_at(check: InvariantCheck, facts: RelationFacts)
    requires
        check.well_formed(),
        facts.suits(check.stage),
    ensures
        match (check.stage, facts) {
            (Stage::Root, RelationFacts::Root(found)) => check.verdict(facts)
                == invariants::root_verdict(found),
            (Stage::Entry(i), RelationFacts::Entry(found)) => check.verdict(facts)
                == invariants::entry_verdict(check.entries@[i as int], found),
            (Stage::Lock(i), RelationFacts::Owner(owner)) => check.verdict(facts)
                == invariants::owner_verdict(
                check.locks@[i as int],
                match owner {
                    Some(client) => Some(client@),
                    None => None,
                },
            ),
            (Stage::Inode(i), RelationFacts::Inode(found)) => check.verdict(facts)
                == invariants::namespace_verdict(
                InodeId { value: check.inodes@[i as int] },
                check.root,
                found,
            ),
            (Stage::Pins(_), RelationFacts::Pins(found)) => check.verdict(facts)
                == invariants::pin_verdict(check.link_count, found),
            (Stage::Open(_), RelationFacts::Open(referred)) => referred <==> !passes(
                check.verdict(facts),
            ),
            _ => true,
        },
{
}

/// What a check keeps of an inode that is there is what was found of it: its
/// link count, and for a directory a walk that starts at it.
pub proof fn law_checks_keep_what_they_found(
    before: InvariantCheck,
    after: InvariantCheck,
    found: InodeFacts,
    index: usize,
)
    requires
        before.stage == Stage::Inode(index),
        before.moves(after, RelationFacts::Inode(found)),
    ensures
        found.summary matches Some(summary) ==> {
            &&& after.link_count == numeric::parsed(summary.link_count@)
            &&& summary.kind == 2 ==> {
                &&& after.walk@.start.value == before.inodes@[index as int]
                &&& after.walk@.current.value == before.inodes@[index as int]
                &&& after.walk@.root == before.root->0
                &&& after.walk@.maximum == before.maximum_depth
                &&& after.walk@.visited.len() == 0
            }
        },
        after.root == before.root,
        after.inodes == before.inodes,
        after.entries == before.entries,
        after.locks == before.locks,
        after.opens == before.opens,
{
}

} // verus!
