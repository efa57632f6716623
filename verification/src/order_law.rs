//! The order in which records are locked and announced.
use vstd::prelude::*;

use crate::bytes;
use crate::ids::{FilesystemId, InodeId, LockId, OpenId};
use crate::key;
use crate::key::RecordKey;
use crate::values::{EntryName, XattrName};

verus! {

/// The order of keys is a strict total order: no key comes before itself, what
/// comes before what comes before a key comes before it, and of two keys that
/// differ one comes before the other, and the other not before it.
pub proof fn law_keys_are_totally_ordered(
    first: RecordKey<Seq<u8>>,
    second: RecordKey<Seq<u8>>,
    third: RecordKey<Seq<u8>>,
)
    ensures
        !key::key_lt(first, first),
        key::key_lt(first, second) && key::key_lt(second, third) ==> key::key_lt(first, third),
        first != second <==> key::key_lt(first, second) || key::key_lt(second, first),
        !(key::key_lt(first, second) && key::key_lt(second, first)),
{
    key::lemma_key_irreflexive(first);
    key::lemma_key_total(first, second);
    if key::key_lt(first, second) && key::key_lt(second, third) {
        key::lemma_key_transitive(first, second, third);
    }
    if key::key_lt(first, second) && key::key_lt(second, first) {
        key::lemma_key_transitive(first, second, first);
    }
}

/// The filesystem comes first, then its inodes, then their entries, and so on
/// through the families in their fixed order.
pub proof fn law_families_are_locked_in_their_order(
    filesystem_id: FilesystemId,
    inode_id: InodeId,
    name: EntryName<Seq<u8>>,
    open_id: OpenId,
    lock_id: LockId,
    xattr: XattrName<Seq<u8>>,
)
    ensures
        key::key_lt(
            RecordKey::Filesystem(filesystem_id),
            RecordKey::Inode(filesystem_id, inode_id),
        ),
        key::key_lt(
            RecordKey::Inode(filesystem_id, inode_id),
            RecordKey::DirectoryEntry(filesystem_id, inode_id, name),
        ),
        key::key_lt(
            RecordKey::DirectoryEntry(filesystem_id, inode_id, name),
            RecordKey::Open(filesystem_id, open_id),
        ),
        key::key_lt(
            RecordKey::Open(filesystem_id, open_id),
            RecordKey::OpenPin(filesystem_id, inode_id, open_id),
        ),
        key::key_lt(
            RecordKey::OpenPin(filesystem_id, inode_id, open_id),
            RecordKey::Orphan(filesystem_id, inode_id),
        ),
        key::key_lt(
            RecordKey::Orphan(filesystem_id, inode_id),
            RecordKey::Lock(filesystem_id, inode_id, lock_id),
        ),
        key::key_lt(
            RecordKey::Lock(filesystem_id, inode_id, lock_id),
            RecordKey::Xattr(filesystem_id, inode_id, xattr),
        ),
{
}

/// Within a family, keys come in the order of what they name: inodes by their
/// number, entries by their directory and then byte by byte of their name, and
/// locks by their inode and then by their own number.
pub proof fn law_keys_of_a_family_follow_what_they_name(
    filesystem_id: FilesystemId,
    left: InodeId,
    right: InodeId,
    left_name: EntryName<Seq<u8>>,
    right_name: EntryName<Seq<u8>>,
    left_lock: LockId,
    right_lock: LockId,
)
    ensures
        key::key_lt(
            RecordKey::Inode(filesystem_id, left),
            RecordKey::Inode(filesystem_id, right),
        ) <==> left.value < right.value,
        key::key_lt(
            RecordKey::DirectoryEntry(filesystem_id, left, left_name),
            RecordKey::DirectoryEntry(filesystem_id, right, right_name),
        ) <==> left.value < right.value || (left.value == right.value && bytes::lex_lt(
            left_name.bytes,
            right_name.bytes,
        )),
        key::key_lt(
            RecordKey::Lock(filesystem_id, left, left_lock),
            RecordKey::Lock(filesystem_id, right, right_lock),
        ) <==> left.value < right.value || (left.value == right.value && left_lock.value
            < right_lock.value),
{
    bytes::lemma_id_order(left.value, right.value);
    bytes::lemma_id_order(left_lock.value, right_lock.value);
    bytes::lemma_id_round_trip(left.value);
    bytes::lemma_id_round_trip(right.value);
    bytes::lemma_lex_irreflexive(Seq::<u8>::empty());
}

} // verus!
