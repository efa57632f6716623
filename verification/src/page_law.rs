//! What pages, scans and point reads say of the stored records.
use vstd::prelude::*;

use crate::bytes;
use crate::directory_page;
use crate::directory_page::DirectoryPageRow;
use crate::estimate;
use crate::ids::{DirectoryCookie, FilesystemId, InodeId};
use crate::key::RecordKey;
use crate::limits::StateLimits;
use crate::log_law;
use crate::numeric;
use crate::query;
use crate::query::{
    DirectoryPageEntry, DirectoryPageView, LockCursor, OpenPinCursor, RecordScan, ScanBounds,
    ScanResume, XattrCursor,
};
use crate::read_sql;
use crate::record::{DirectoryEntryRecord, InodeData, InodeKind, InodeRecord, StateRecord};
use crate::scan;
use crate::scan::{Candidate, CandidateRow, PlanView};
use crate::statement::ValueView;
use crate::values;

verus! {

/// The number that the kind of an inode is stored as.
pub open spec fn kind_number(data: InodeData<Seq<u8>, Seq<char>>) -> i16 {
    match data {
        InodeData::RegularFile { .. } => 1,
        InodeData::Directory { .. } => 2,
        InodeData::Symlink { .. } => 3,
        InodeData::CharacterDevice(_) => 4,
        InodeData::BlockDevice(_) => 5,
        InodeData::Fifo => 6,
        InodeData::Socket => 7,
    }
}

/// A kind is that of an inode's data.
pub open spec fn of_kind(kind: InodeKind, data: InodeData<Seq<u8>, Seq<char>>) -> bool {
    match data {
        InodeData::RegularFile { .. } => kind == InodeKind::RegularFile,
        InodeData::Directory { .. } => kind == InodeKind::Directory,
        InodeData::Symlink { .. } => kind == InodeKind::Symlink,
        InodeData::CharacterDevice(_) => kind == InodeKind::CharacterDevice,
        InodeData::BlockDevice(_) => kind == InodeKind::BlockDevice,
        InodeData::Fifo => kind == InodeKind::Fifo,
        InodeData::Socket => kind == InodeKind::Socket,
    }
}

/// A row of a directory page is projected from a directory entry and the inode
/// that is its child.
pub open spec fn projects(
    row: DirectoryPageRow,
    entry: DirectoryEntryRecord<Seq<u8>>,
    child: InodeRecord<Seq<u8>, Seq<char>>,
) -> bool {
    &&& entry.child_inode_id == child.inode_id
    &&& row.name@ == entry.name.bytes
    &&& row.cookie@ == numeric::decimal(entry.cookie.value as nat)
    &&& row.child_inode_id@ == bytes::id_bytes(entry.child_inode_id.value)
    &&& row.entry_revision@ == numeric::decimal(entry.revision.value as nat)
    &&& row.kind == kind_number(child.data)
    &&& row.qid_path@ == numeric::decimal(child.qid_path.value as nat)
    &&& row.child_revision@ == numeric::decimal(child.revision.value as nat)
    &&& row.retained_bytes == 192 + 2 * entry.name.bytes.len()
}

/// A page entry is the stored directory entry together with the kind, the path
/// number and the record revision of the stored child.
pub open spec fn agrees(
    page: DirectoryPageEntry<Seq<u8>>,
    entry: DirectoryEntryRecord<Seq<u8>>,
    child: InodeRecord<Seq<u8>, Seq<char>>,
) -> bool {
    &&& page.entry == entry
    &&& of_kind(page.kind, child.data)
    &&& page.qid_path.value == child.qid_path.value
    &&& page.child_revision.value == child.revision.value
}

/// A page entry agrees with the stored entry and its stored child, and a row
/// that was projected from valid ones is never refused.
pub proof fn law_page_entries_agree_with_stored_children(
    row: DirectoryPageRow,
    entry: DirectoryEntryRecord<Seq<u8>>,
    child: InodeRecord<Seq<u8>, Seq<char>>,
    limits: StateLimits,
    page: DirectoryPageEntry<Seq<u8>>,
)
    requires
        projects(row, entry, child),
        entry.name.bytes.len() <= u32::MAX,
    ensures
        directory_page::is_row_entry(entry.parent_inode_id, row, page) ==> agrees(
            page,
            entry,
            child,
        ),
        directory_page::row_bytes(row) == row.retained_bytes,
        values::entry_name_failure(entry.name.bytes, limits) is None && entry.cookie.value != 0
            && entry.revision.valid() && child.qid_path.valid() && child.revision.valid()
            && 192 + 2 * entry.name.bytes.len() <= usize::MAX ==> directory_page::row_failure(
            row,
            limits,
        ) is None,
{
    numeric::law_decimal_round_trip(entry.cookie.value);
    numeric::law_decimal_round_trip(entry.revision.value);
    numeric::law_decimal_round_trip(child.qid_path.value);
    numeric::law_decimal_round_trip(child.revision.value);
    bytes::lemma_id_round_trip(entry.child_inode_id.value);
}

/// Bytes that the first entries of a directory retain in a page.
pub open spec fn entry_weight(rows: Seq<DirectoryPageRow>, count: int) -> int
    decreases count,
{
    if count <= 0 {
        0
    } else {
        entry_weight(rows, count - 1) + 192 + 2 * rows[count - 1].name@.len()
    }
}

proof fn lemma_entry_weight(rows: Seq<DirectoryPageRow>, count: int)
    ensures
        entry_weight(rows, count) == directory_page::total(rows, count),
    decreases count,
{
    if count > 0 {
        lemma_entry_weight(rows, count - 1);
    }
}

/// A directory page holds the stored entries in the order of its rows, from the
/// first one on, as many as its item and byte bounds admit and no fewer; where
/// rows are left over it names the cookie of its last entry to go on from, and
/// otherwise nothing.
pub proof fn law_directory_pages_hold_the_longest_run(
    parent_inode_id: InodeId,
    rows: Seq<DirectoryPageRow>,
    entries: Seq<DirectoryEntryRecord<Seq<u8>>>,
    children: Seq<InodeRecord<Seq<u8>, Seq<char>>>,
    bounds: ScanBounds,
    limits: StateLimits,
    page: DirectoryPageView,
    index: int,
)
    requires
        entries.len() == rows.len(),
        children.len() == rows.len(),
        forall|i: int|
            #![trigger rows[i]]
            0 <= i < rows.len() ==> projects(rows[i], entries[i], children[i])
                && entries[i].name.bytes.len() <= u32::MAX && entries[i].parent_inode_id
                == parent_inode_id,
        directory_page::is_page(parent_inode_id, rows, bounds, page),
    ensures
        ({
            let n = page.entries.len() as int;
            &&& n <= rows.len()
            &&& n <= bounds.max_items
            &&& entry_weight(rows, n) <= bounds.max_bytes
            &&& n < rows.len() ==> n == bounds.max_items || entry_weight(rows, n + 1)
                > bounds.max_bytes
            &&& 0 <= index < n ==> agrees(page.entries[index], entries[index], children[index])
            &&& n == rows.len() || n == 0 ==> page.resume is None
            &&& 0 < n < rows.len() ==> page.resume == Some(entries[n - 1].cookie)
        }),
{
    directory_page::law_directory_pages_keep_their_bounds(parent_inode_id, rows, bounds, page);
    let n = page.entries.len() as int;
    lemma_entry_weight(rows, n);
    lemma_entry_weight(rows, n + 1);
    lemma_run(rows, bounds, 0);
    if 0 <= index < n {
        assert(projects(rows[index], entries[index], children[index]));
        law_page_entries_agree_with_stored_children(
            rows[index],
            entries[index],
            children[index],
            limits,
            page.entries[index],
        );
    }
    if 0 < n < rows.len() {
        assert(projects(rows[n - 1], entries[n - 1], children[n - 1]));
        law_page_entries_agree_with_stored_children(
            rows[n - 1],
            entries[n - 1],
            children[n - 1],
            limits,
            page.entries[n - 1],
        );
    }
}

proof fn lemma_run(rows: Seq<DirectoryPageRow>, bounds: ScanBounds, from: int)
    requires
        0 <= from <= rows.len(),
    ensures
        from <= directory_page::page_length(rows, bounds, from) <= rows.len(),
    decreases rows.len() - from,
{
    if from < rows.len() && directory_page::fits(rows, bounds, from + 1) {
        lemma_run(rows, bounds, from + 1);
    }
}

/// A directory page is read by its filesystem and directory, behind the given
/// cookie, with one row more than it may hold and its bytes.
pub proof fn law_directory_pages_are_asked_for_by_position(
    filesystem_id: FilesystemId,
    parent_inode_id: InodeId,
    after: DirectoryCookie,
    bounds: ScanBounds,
)
    ensures
        read_sql::directory_page(filesystem_id, parent_inode_id, after, bounds).values == seq![
            ValueView::Bytes(Some(bytes::id_bytes(filesystem_id.value))),
            ValueView::Bytes(Some(bytes::id_bytes(parent_inode_id.value))),
            log_law::number(after.value as int),
            ValueView::Int8(Some((bounds.max_items + 1) as i64)),
            log_law::number(bounds.max_bytes as int),
        ],
{
}

/// The position of a record in the order of its scan.
pub open spec fn position_of(
    key: RecordKey<Seq<u8>>,
    record: StateRecord<Seq<u8>, Seq<char>>,
) -> Option<ScanResume<Seq<u8>>> {
    match record {
        StateRecord::Filesystem(_) => None,
        StateRecord::Inode(r) => Some(ScanResume::Inode(r.inode_id)),
        StateRecord::ContentMetadata(r) => Some(ScanResume::ContentMetadata(r.content_file_id)),
        StateRecord::DirectoryEntry(r) => Some(ScanResume::DirectoryEntry(r.cookie)),
        StateRecord::Open(r) => Some(ScanResume::Open(r.open_id)),
        StateRecord::OpenPin(r) => Some(
            ScanResume::OpenPin(OpenPinCursor { inode_id: r.inode_id, open_id: r.open_id }),
        ),
        StateRecord::Orphan(r) => Some(ScanResume::Orphan(r.inode_id)),
        StateRecord::Lock(r) => Some(
            ScanResume::Lock(LockCursor { inode_id: r.inode_id, lock_id: r.lock_id }),
        ),
        StateRecord::Xattr(r) => Some(
            ScanResume::Xattr(XattrCursor { inode_id: r.inode_id, name: r.name }),
        ),
        StateRecord::XattrStaging(r) => Some(ScanResume::XattrStaging(r.staging_id)),
        StateRecord::Mutation(r) => Some(ScanResume::Mutation(r.mutation_id)),
        StateRecord::WriterLease(r) => Some(ScanResume::WriterLease(r.scope)),
    }
}

/// A record stands under a key of a filesystem: family and identities agree.
pub open spec fn stands_under(
    filesystem_id: FilesystemId,
    key: RecordKey<Seq<u8>>,
    record: StateRecord<Seq<u8>, Seq<char>>,
) -> bool {
    match (key, record) {
        (RecordKey::Filesystem(f), StateRecord::Filesystem(r)) => f == filesystem_id
            && r.filesystem_id == f,
        (RecordKey::Inode(f, id), StateRecord::Inode(r)) => f == filesystem_id && r.inode_id == id,
        (RecordKey::ContentMetadata(f, id), StateRecord::ContentMetadata(r)) => f == filesystem_id
            && r.content_file_id == id,
        (RecordKey::DirectoryEntry(f, parent, name), StateRecord::DirectoryEntry(r)) => f
            == filesystem_id && r.parent_inode_id == parent && r.name == name,
        (RecordKey::Open(f, id), StateRecord::Open(r)) => f == filesystem_id && r.open_id == id,
        (RecordKey::OpenPin(f, inode_id, open_id), StateRecord::OpenPin(r)) => f == filesystem_id
            && r.inode_id == inode_id && r.open_id == open_id,
        (RecordKey::Orphan(f, id), StateRecord::Orphan(r)) => f == filesystem_id && r.inode_id
            == id,
        (RecordKey::Lock(f, inode_id, lock_id), StateRecord::Lock(r)) => f == filesystem_id
            && r.inode_id == inode_id && r.lock_id == lock_id,
        (RecordKey::Xattr(f, inode_id, name), StateRecord::Xattr(r)) => f == filesystem_id
            && r.inode_id == inode_id && r.name == name,
        (RecordKey::XattrStaging(f, id), StateRecord::XattrStaging(r)) => f == filesystem_id
            && r.staging_id == id,
        (RecordKey::Mutation(f, id), StateRecord::Mutation(r)) => f == filesystem_id
            && r.mutation_id == id && r.filesystem_id == f,
        (RecordKey::WriterLease(f, scope), StateRecord::WriterLease(r)) => f == filesystem_id
            && r.scope == scope && r.filesystem_id == f,
        _ => false,
    }
}

/// A scan finds records of a family.
pub open spec fn finds(scan: RecordScan<Seq<u8>>, record: StateRecord<Seq<u8>, Seq<char>>) -> bool {
    match scan {
        RecordScan::Inodes { .. } => record is Inode,
        RecordScan::ContentMetadata { .. } => record is ContentMetadata,
        RecordScan::DirectoryEntries { parent_inode_id, .. } => record matches
            StateRecord::DirectoryEntry(r) && r.parent_inode_id == parent_inode_id,
        RecordScan::Opens { .. } => record is Open,
        RecordScan::OpenPins { .. } => record is OpenPin,
        RecordScan::Orphans { .. } => record is Orphan,
        RecordScan::Locks { .. } => record is Lock,
        RecordScan::Xattrs { .. } => record is Xattr,
        RecordScan::XattrStaging { .. } => record is XattrStaging,
        RecordScan::Mutations { .. } => record is Mutation,
        RecordScan::WriterLeases { .. } => record is WriterLease,
    }
}

/// The bytes that the query of a scan sizes the row of a record with: a fixed
/// part, and the lengths of the columns that vary.
pub open spec fn sized(record: StateRecord<Seq<u8>, Seq<char>>) -> int {
    match record {
        StateRecord::Filesystem(_) => 192int,
        StateRecord::Inode(r) => 320int + r.owner.bytes.len() + r.group.bytes.len() + match r.data {
            InodeData::RegularFile { content: Some(content), .. } => estimate::text_bytes(
                content.manifest_key.text,
            ) as int,
            InodeData::Symlink { target } => target.bytes.len() as int,
            _ => 0int,
        },
        StateRecord::ContentMetadata(r) => 160int + r.policy_bytes.len()
            + match r.wrapped_key_bytes {
            Some(wrapped) => wrapped.len() as int,
            None => 0int,
        },
        StateRecord::DirectoryEntry(r) => 160int + 2 * r.name.bytes.len(),
        StateRecord::Open(_) => 192int,
        StateRecord::OpenPin(_) => 192int,
        StateRecord::Orphan(_) => 192int,
        StateRecord::Lock(_) => 192int,
        StateRecord::Xattr(r) => 160int + 2 * r.name.bytes.len() + r.value.bytes.len(),
        StateRecord::XattrStaging(r) => 176int + r.name.bytes.len() + r.bytes.bytes.len(),
        StateRecord::Mutation(r) => 320int + r.result.bytes.len(),
        StateRecord::WriterLease(_) => 192int,
    }
}

/// A candidate row is projected from a record that a scan finds.
pub open spec fn projects_candidate(
    row: CandidateRow,
    record: StateRecord<Seq<u8>, Seq<char>>,
) -> bool {
    &&& row.retained_bytes == sized(record)
    &&& match record {
        StateRecord::Filesystem(_) => false,
        StateRecord::Inode(r) => row.first@ == bytes::id_bytes(r.inode_id.value),
        StateRecord::ContentMetadata(r) => row.first@ == bytes::id_bytes(r.content_file_id.value),
        StateRecord::DirectoryEntry(r) => row.second@ == r.name.bytes && row.cookie@
            == numeric::decimal(r.cookie.value as nat),
        StateRecord::Open(r) => row.first@ == bytes::id_bytes(r.open_id.value),
        StateRecord::OpenPin(r) => row.first@ == bytes::id_bytes(r.inode_id.value) && row.second@
            == bytes::id_bytes(r.open_id.value),
        StateRecord::Orphan(r) => row.first@ == bytes::id_bytes(r.inode_id.value),
        StateRecord::Lock(r) => row.first@ == bytes::id_bytes(r.inode_id.value) && row.second@
            == bytes::id_bytes(r.lock_id.value),
        StateRecord::Xattr(r) => row.first@ == bytes::id_bytes(r.inode_id.value) && row.second@
            == r.name.bytes,
        StateRecord::XattrStaging(r) => row.first@ == bytes::id_bytes(r.staging_id.value),
        StateRecord::Mutation(r) => row.first@ == bytes::id_bytes(r.mutation_id.value),
        StateRecord::WriterLease(r) => row.first@ == bytes::id_bytes(r.scope.value),
    }
}

/// A candidate that was projected from a stored record announces the record's
/// own key, position and size, and the record read under that key is accepted.
pub proof fn law_candidates_announce_their_records(
    filesystem_id: FilesystemId,
    scan: RecordScan<Seq<u8>>,
    row: CandidateRow,
    key: RecordKey<Seq<u8>>,
    record: StateRecord<Seq<u8>, Seq<char>>,
)
    requires
        finds(scan, record),
        !(record is ContentMetadata),
        stands_under(filesystem_id, key, record),
        projects_candidate(row, record),
        sized(record) <= usize::MAX,
    ensures
        ({
            let candidate = scan::row_candidate(filesystem_id, scan, row);
            &&& candidate.key == key
            &&& Some(candidate.cursor) == position_of(key, record)
            &&& candidate.retained_bytes == sized(record)
            &&& scan::announced_failure(candidate, Some(record)) is None
        }),
{
    match record {
        StateRecord::Inode(r) => {
            bytes::lemma_id_round_trip(r.inode_id.value);
        },
        StateRecord::DirectoryEntry(r) => {
            bytes::lemma_id_round_trip(r.parent_inode_id.value);
            numeric::law_decimal_round_trip(r.cookie.value);
        },
        StateRecord::Open(r) => {
            bytes::lemma_id_round_trip(r.open_id.value);
        },
        StateRecord::OpenPin(r) => {
            bytes::lemma_id_round_trip(r.inode_id.value);
            bytes::lemma_id_round_trip(r.open_id.value);
        },
        StateRecord::Orphan(r) => {
            bytes::lemma_id_round_trip(r.inode_id.value);
        },
        StateRecord::Lock(r) => {
            bytes::lemma_id_round_trip(r.inode_id.value);
            bytes::lemma_id_round_trip(r.lock_id.value);
        },
        StateRecord::Xattr(r) => {
            bytes::lemma_id_round_trip(r.inode_id.value);
        },
        StateRecord::XattrStaging(r) => {
            bytes::lemma_id_round_trip(r.staging_id.value);
        },
        StateRecord::Mutation(r) => {
            bytes::lemma_id_round_trip(r.mutation_id.value);
        },
        StateRecord::WriterLease(r) => {
            bytes::lemma_id_round_trip(r.scope.value);
        },
        _ => {},
    }
}

/// The record behind a candidate is accepted only if it is there, has the size
/// that the candidate was charged with, and stands at the announced position.
pub proof fn law_announced_records_are_exact(
    candidate: Candidate,
    filesystem_id: FilesystemId,
    record: StateRecord<Seq<u8>, Seq<char>>,
)
    requires
        stands_under(filesystem_id, candidate.key, record),
    ensures
        scan::announced_failure(candidate, None) is Some,
        scan::announced_failure(candidate, Some(record)) is None <==> sized(record)
            == candidate.retained_bytes && position_of(candidate.key, record) == Some(
            candidate.cursor,
        ),
{
}

/// Bytes that the first candidates retain together.
pub open spec fn candidate_weight(candidates: Seq<Candidate>, count: int) -> int
    decreases count,
{
    if count <= 0 {
        0
    } else {
        candidate_weight(candidates, count - 1) + candidates[count - 1].retained_bytes
    }
}

proof fn lemma_candidate_weight(candidates: Seq<Candidate>, count: int)
    ensures
        candidate_weight(candidates, count) == scan::total(candidates, count),
    decreases count,
{
    if count > 0 {
        lemma_candidate_weight(candidates, count - 1);
    }
}

/// A scan page is the longest run of candidates from the first one on that its
/// item and byte bounds admit, in their order; it goes on behind its last
/// candidate exactly where candidates are left over. A page that could not even
/// hold its first candidate says how many bytes that one needs.
pub proof fn law_scan_pages_hold_the_longest_run(candidates: Seq<Candidate>, bounds: ScanBounds)
    requires
        scan::selection(candidates, bounds) is Ok,
    ensures
        match scan::selection(candidates, bounds)->Ok_0 {
            PlanView::Selected { candidates: page, resume } => {
                let n = page.len() as int;
                &&& n <= candidates.len()
                &&& page == candidates.take(n)
                &&& n <= bounds.max_items
                &&& candidate_weight(candidates, n) <= bounds.max_bytes
                &&& n < candidates.len() ==> n == bounds.max_items || candidate_weight(
                    candidates,
                    n + 1,
                ) > bounds.max_bytes
                &&& 0 < n < candidates.len() ==> resume == Some(candidates[n - 1].cursor)
                &&& n == candidates.len() || n == 0 ==> resume is None
            },
            PlanView::TooSmall(required) => {
                &&& candidates.len() > 0
                &&& bounds.max_items > 0
                &&& required == candidates[0].retained_bytes
                &&& required > bounds.max_bytes
            },
        },
{
    scan::law_pages_keep_their_bounds(candidates, bounds);
    let n = scan::page_length(candidates, bounds, 0);
    lemma_candidate_weight(candidates, n);
    lemma_candidate_weight(candidates, n + 1);
    lemma_candidate_run(candidates, bounds, 0);
    reveal_with_fuel(scan::total, 2);
}

/// A scan takes what it finds only where there is at most one candidate more
/// than a page holds, and where every candidate that it looks at, up to the
/// first one behind the page, stands behind the one before it. Candidates that
/// are all in order, not too many and not too large to be counted are taken.
pub proof fn law_scans_take_ordered_candidates(candidates: Seq<Candidate>, bounds: ScanBounds)
    ensures
        candidates.len() > bounds.max_items + 1 ==> scan::selection(candidates, bounds) is Err,
        scan::selection(candidates, bounds) matches Ok(PlanView::Selected { candidates: page, .. })
            ==> forall|i: int|
            0 < i <= page.len() && i < candidates.len() ==> query::resume_lt(
                (#[trigger] candidates[i - 1]).cursor,
                candidates[i].cursor,
            ),
        candidates.len() <= bounds.max_items + 1 && candidate_weight(
            candidates,
            scan::page_length(candidates, bounds, 0) + 1,
        ) <= usize::MAX && (forall|i: int|
            0 < i < candidates.len() ==> query::resume_lt(
                (#[trigger] candidates[i - 1]).cursor,
                candidates[i].cursor,
            )) ==> scan::selection(candidates, bounds) is Ok,
{
    let n = scan::page_length(candidates, bounds, 0);
    lemma_candidate_run(candidates, bounds, 0);
    lemma_candidate_weight(candidates, n + 1);
    match scan::selection(candidates, bounds) {
        Ok(PlanView::Selected { candidates: page, .. }) => {
            assert(page.len() == n);
        },
        _ => {},
    }
}

proof fn lemma_candidate_run(candidates: Seq<Candidate>, bounds: ScanBounds, from: int)
    requires
        0 <= from <= candidates.len(),
    ensures
        from <= scan::page_length(candidates, bounds, from) <= candidates.len(),
        scan::page_length(candidates, bounds, from) < candidates.len() ==> !scan::fits(
            candidates,
            bounds,
            scan::page_length(candidates, bounds, from) + 1,
        ),
    decreases candidates.len() - from,
{
    if from < candidates.len() && scan::fits(candidates, bounds, from + 1) {
        lemma_candidate_run(candidates, bounds, from + 1);
    }
}

/// An optional identity as a value.
pub open spec fn optional_id(id: Option<u128>) -> ValueView {
    match id {
        Some(id) => ValueView::Bytes(Some(bytes::id_bytes(id))),
        None => ValueView::Bytes(None),
    }
}

/// What a scan starts behind, as values: the parts of the position in the order
/// of the scan.
pub open spec fn behind(scan: RecordScan<Seq<u8>>) -> Seq<ValueView> {
    match scan {
        RecordScan::Inodes { after, .. } => seq![
            match after {
                Some(id) => ValueView::Bytes(Some(bytes::id_bytes(id.value))),
                None => ValueView::Bytes(None),
            },
        ],
        RecordScan::ContentMetadata { after, .. } => seq![
            match after {
                Some(id) => ValueView::Bytes(Some(bytes::id_bytes(id.value))),
                None => ValueView::Bytes(None),
            },
        ],
        RecordScan::DirectoryEntries { parent_inode_id, after, .. } => seq![
            ValueView::Bytes(Some(bytes::id_bytes(parent_inode_id.value))),
            log_law::number(after.value as int),
        ],
        RecordScan::Opens { after, .. } => seq![
            match after {
                Some(id) => ValueView::Bytes(Some(bytes::id_bytes(id.value))),
                None => ValueView::Bytes(None),
            },
        ],
        RecordScan::OpenPins { after, .. } => match after {
            Some(cursor) => seq![
                ValueView::Bytes(Some(bytes::id_bytes(cursor.inode_id.value))),
                ValueView::Bytes(Some(bytes::id_bytes(cursor.open_id.value))),
            ],
            None => seq![ValueView::Bytes(None), ValueView::Bytes(None)],
        },
        RecordScan::Orphans { after, .. } => seq![
            match after {
                Some(id) => ValueView::Bytes(Some(bytes::id_bytes(id.value))),
                None => ValueView::Bytes(None),
            },
        ],
        RecordScan::Locks { after, .. } => match after {
            Some(cursor) => seq![
                ValueView::Bytes(Some(bytes::id_bytes(cursor.inode_id.value))),
                ValueView::Bytes(Some(bytes::id_bytes(cursor.lock_id.value))),
            ],
            None => seq![ValueView::Bytes(None), ValueView::Bytes(None)],
        },
        RecordScan::Xattrs { after, .. } => match after {
            Some(cursor) => seq![
                ValueView::Bytes(Some(bytes::id_bytes(cursor.inode_id.value))),
                ValueView::Bytes(Some(cursor.name.bytes)),
            ],
            None => seq![ValueView::Bytes(None), ValueView::Bytes(None)],
        },
        RecordScan::XattrStaging { after, .. } => seq![
            match after {
                Some(id) => ValueView::Bytes(Some(bytes::id_bytes(id.value))),
                None => ValueView::Bytes(None),
            },
        ],
        RecordScan::Mutations { after, .. } => seq![
            match after {
                Some(id) => ValueView::Bytes(Some(bytes::id_bytes(id.value))),
                None => ValueView::Bytes(None),
            },
        ],
        RecordScan::WriterLeases { after, .. } => seq![
            match after {
                Some(scope) => ValueView::Bytes(Some(bytes::id_bytes(scope.value))),
                None => ValueView::Bytes(None),
            },
        ],
    }
}

/// The bounds that a scan carries.
pub open spec fn carried_bounds(scan: RecordScan<Seq<u8>>) -> ScanBounds {
    match scan {
        RecordScan::Inodes { bounds, .. } => bounds,
        RecordScan::ContentMetadata { bounds, .. } => bounds,
        RecordScan::DirectoryEntries { bounds, .. } => bounds,
        RecordScan::Opens { bounds, .. } => bounds,
        RecordScan::OpenPins { bounds, .. } => bounds,
        RecordScan::Orphans { bounds, .. } => bounds,
        RecordScan::Locks { bounds, .. } => bounds,
        RecordScan::Xattrs { bounds, .. } => bounds,
        RecordScan::XattrStaging { bounds, .. } => bounds,
        RecordScan::Mutations { bounds, .. } => bounds,
        RecordScan::WriterLeases { bounds, .. } => bounds,
    }
}

/// A scan asks for the candidates of its filesystem behind its position, one
/// more than the page may hold, up to the bytes of the page.
pub proof fn law_scans_are_asked_for_by_position(
    filesystem_id: FilesystemId,
    scan: RecordScan<Seq<u8>>,
)
    ensures
        read_sql::scan_query(filesystem_id, scan).values == seq![
            ValueView::Bytes(Some(bytes::id_bytes(filesystem_id.value))),
        ] + behind(scan) + seq![
            ValueView::Int8(Some((carried_bounds(scan).max_items + 1) as i64)),
            log_law::number(carried_bounds(scan).max_bytes as int),
        ],
{
    let all = read_sql::scan_query(filesystem_id, scan).values;
    assert(all =~= seq![ValueView::Bytes(Some(bytes::id_bytes(filesystem_id.value)))] + behind(scan)
        + seq![
        ValueView::Int8(Some((carried_bounds(scan).max_items + 1) as i64)),
        log_law::number(carried_bounds(scan).max_bytes as int),
    ]);
}

/// The parts of a key as values, the filesystem first.
pub open spec fn key_values(key: RecordKey<Seq<u8>>) -> Seq<ValueView> {
    match key {
        RecordKey::Filesystem(f) => seq![optional_id(Some(f.value))],
        RecordKey::Inode(f, id) => seq![optional_id(Some(f.value)), optional_id(Some(id.value))],
        RecordKey::ContentMetadata(f, id) => seq![
            optional_id(Some(f.value)),
            optional_id(Some(id.value)),
        ],
        RecordKey::DirectoryEntry(f, parent, name) => seq![
            optional_id(Some(f.value)),
            optional_id(Some(parent.value)),
            ValueView::Bytes(Some(name.bytes)),
        ],
        RecordKey::Open(f, id) => seq![optional_id(Some(f.value)), optional_id(Some(id.value))],
        RecordKey::OpenPin(f, inode_id, open_id) => seq![
            optional_id(Some(f.value)),
            optional_id(Some(inode_id.value)),
            optional_id(Some(open_id.value)),
        ],
        RecordKey::Orphan(f, id) => seq![optional_id(Some(f.value)), optional_id(Some(id.value))],
        RecordKey::Lock(f, inode_id, lock_id) => seq![
            optional_id(Some(f.value)),
            optional_id(Some(inode_id.value)),
            optional_id(Some(lock_id.value)),
        ],
        RecordKey::Xattr(f, inode_id, name) => seq![
            optional_id(Some(f.value)),
            optional_id(Some(inode_id.value)),
            ValueView::Bytes(Some(name.bytes)),
        ],
        RecordKey::XattrStaging(f, id) => seq![
            optional_id(Some(f.value)),
            optional_id(Some(id.value)),
        ],
        RecordKey::Mutation(f, id) => seq![optional_id(Some(f.value)), optional_id(Some(id.value))],
        RecordKey::WriterLease(f, scope) => seq![
            optional_id(Some(f.value)),
            optional_id(Some(scope.value)),
        ],
    }
}

/// A record is read by all parts of its key, in their order.
pub proof fn law_records_are_read_by_their_key(key: RecordKey<Seq<u8>>)
    ensures
        read_sql::point(key).values == key_values(key),
{
    assert(read_sql::point(key).values =~= key_values(key));
}

} // verus!
