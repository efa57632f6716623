//! Which stored columns are taken, and in which order positions stand.
use vstd::prelude::*;

use crate::bytes;
use crate::change;
use crate::change::KeyColumns;
use crate::directory_page;
use crate::directory_page::DirectoryPageRow;
use crate::ids::FilesystemId;
use crate::key_codec;
use crate::key_codec::SqlRecordKey;
use crate::limits::StateLimits;
use crate::numeric;
use crate::poll::HeaderColumns;
use crate::query;
use crate::query::{RecordScan, ScanResume};
use crate::scan;
use crate::scan::CandidateRow;
use crate::value_law;

verus! {

/// Text that spells a number other than zero.
pub open spec fn counts(text: Seq<char>) -> bool {
    numeric::parses(text) && numeric::parsed(text) > 0
}

/// A logged change is taken exactly where its revision is a number other than
/// zero, its origin is one of the two kinds with an identity of sixteen bytes,
/// and it announces at least one key.
pub proof fn law_headers_that_are_taken(row: HeaderColumns)
    ensures
        change::header_detail(row.revision@, row.origin_kind, row.origin_id@, row.key_count) is None
            <==> counts(row.revision@) && row.origin_id@.len() == 16 && 1 <= row.origin_kind <= 2
            && row.key_count >= 1,
{
}

/// A stored key names a record: a filesystem by nothing more, and any other
/// record by an identity of sixteen bytes; a pin and a lock by a second one, an
/// entry and an attribute by a name that can be one, and nothing else by
/// anything more. The twelfth family is not among them.
pub open spec fn names_a_record(stored: SqlRecordKey<Seq<u8>>, limits: StateLimits) -> bool {
    let second = stored.component_b;
    &&& 1 <= stored.family_tag <= 11
    &&& stored.component_a.len() == (if stored.family_tag == 1 {
        0int
    } else {
        16int
    })
    &&& match stored.family_tag {
        3 => value_law::is_entry_name(second, limits),
        5 => second.len() == 16,
        7 => second.len() == 16,
        8 => value_law::is_label(second, limits.values.max_xattr_name_bytes),
        _ => second.len() == 0,
    }
}

/// A stored key is taken exactly where it names a record.
pub proof fn law_stored_keys_that_are_taken(stored: SqlRecordKey<Seq<u8>>, limits: StateLimits)
    ensures
        key_codec::sql_key_failure(stored, limits) is None <==> names_a_record(stored, limits),
{
    value_law::law_values_that_are_taken(stored.component_b, Seq::empty(), limits);
}

/// A logged key is taken exactly where its revision is a number other than
/// zero, its position is not negative and it names a record.
pub proof fn law_logged_keys_that_are_taken(
    filesystem_id: FilesystemId,
    row: KeyColumns,
    limits: StateLimits,
)
    ensures
        change::key_row_detail(filesystem_id, row, limits) is None <==> counts(row.revision@)
            && row.ordinal >= 0 && names_a_record(change::stored_key(filesystem_id, row), limits),
        change::stored_key(filesystem_id, row).family_tag == row.family_tag,
        change::stored_key(filesystem_id, row).filesystem_id == filesystem_id,
{
    law_stored_keys_that_are_taken(change::stored_key(filesystem_id, row), limits);
}

/// A row of a directory page is taken exactly where its name can name an entry,
/// its identity has sixteen bytes, its numbers are not zero, its kind is one of
/// the seven, and what it announces to retain is what it retains.
pub proof fn law_page_rows_that_are_taken(row: DirectoryPageRow, limits: StateLimits)
    requires
        192 + 2 * row.name@.len() <= usize::MAX,
    ensures
        directory_page::row_failure(row, limits) is None <==> {
            &&& value_law::is_entry_name(row.name@, limits)
            &&& counts(row.cookie@)
            &&& row.child_inode_id@.len() == 16
            &&& counts(row.entry_revision@)
            &&& 1 <= row.kind <= 7
            &&& counts(row.qid_path@)
            &&& counts(row.child_revision@)
            &&& row.retained_bytes == 192 + 2 * row.name@.len()
        },
{
    value_law::law_values_that_are_taken(row.name@, Seq::empty(), limits);
}

/// A candidate of a scan is taken exactly where it retains something that can be
/// counted, names a record, and has a cookie other than zero where directory
/// entries are scanned.
pub proof fn law_candidates_that_are_taken(
    filesystem_id: FilesystemId,
    scanned: RecordScan<Seq<u8>>,
    row: CandidateRow,
    limits: StateLimits,
)
    ensures
        scan::candidate_failure(filesystem_id, scanned, row, limits) is None <==> {
            &&& 1 <= row.retained_bytes <= usize::MAX
            &&& scanned is DirectoryEntries ==> counts(row.cookie@)
            &&& names_a_record(scan::candidate_key(filesystem_id, scanned, row), limits)
        },
{
    law_stored_keys_that_are_taken(scan::candidate_key(filesystem_id, scanned, row), limits);
}

/// Positions of one scan stand in the order of what they name: entries by their
/// cookie, locks by their inode and then by their own number, pins by their
/// inode and then by their handle, attributes by their inode and then byte by
/// byte of their name, and any other record by its identity.
pub proof fn law_positions_follow_what_they_name(
    left: ScanResume<Seq<u8>>,
    right: ScanResume<Seq<u8>>,
)
    ensures
        match (left, right) {
            (ScanResume::DirectoryEntry(a), ScanResume::DirectoryEntry(b)) => query::resume_lt(
                left,
                right,
            ) <==> a.value < b.value,
            (ScanResume::Inode(a), ScanResume::Inode(b)) => query::resume_lt(left, right)
                <==> a.value < b.value,
            (ScanResume::Open(a), ScanResume::Open(b)) => query::resume_lt(left, right) <==> a.value
                < b.value,
            (ScanResume::Orphan(a), ScanResume::Orphan(b)) => query::resume_lt(left, right)
                <==> a.value < b.value,
            (ScanResume::XattrStaging(a), ScanResume::XattrStaging(b)) => query::resume_lt(
                left,
                right,
            ) <==> a.value < b.value,
            (ScanResume::Mutation(a), ScanResume::Mutation(b)) => query::resume_lt(left, right)
                <==> a.value < b.value,
            (ScanResume::WriterLease(a), ScanResume::WriterLease(b)) => query::resume_lt(
                left,
                right,
            ) <==> a.value < b.value,
            (ScanResume::ContentMetadata(a), ScanResume::ContentMetadata(b)) => query::resume_lt(
                left,
                right,
            ) <==> a.value < b.value,
            (ScanResume::OpenPin(a), ScanResume::OpenPin(b)) => query::resume_lt(left, right)
                <==> a.inode_id.value < b.inode_id.value || (a.inode_id.value == b.inode_id.value
                && a.open_id.value < b.open_id.value),
            (ScanResume::Lock(a), ScanResume::Lock(b)) => query::resume_lt(left, right)
                <==> a.inode_id.value < b.inode_id.value || (a.inode_id.value == b.inode_id.value
                && a.lock_id.value < b.lock_id.value),
            (ScanResume::Xattr(a), ScanResume::Xattr(b)) => query::resume_lt(left, right)
                <==> a.inode_id.value < b.inode_id.value || (a.inode_id.value == b.inode_id.value
                && bytes::lex_lt(a.name.bytes, b.name.bytes)),
            _ => true,
        },
{
    bytes::lemma_lex_irreflexive(Seq::<u8>::empty());
}

/// Bytes come before other bytes where the first one that differs is lower, or
/// where they are the beginning of the others.
pub proof fn law_bytes_are_ordered_byte_by_byte(left: Seq<u8>, right: Seq<u8>)
    ensures
        left.len() == 0 ==> (bytes::lex_lt(left, right) <==> right.len() > 0),
        right.len() == 0 ==> !bytes::lex_lt(left, right),
        left.len() > 0 && right.len() > 0 && left[0] != right[0] ==> (bytes::lex_lt(left, right)
            <==> left[0] < right[0]),
        left.len() > 0 && right.len() > 0 && left[0] == right[0] ==> (bytes::lex_lt(left, right)
            <==> bytes::lex_lt(
            left.subrange(1, left.len() as int),
            right.subrange(1, right.len() as int),
        )),
{
}

} // verus!
