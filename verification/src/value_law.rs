//! What names, values and records must satisfy to be stored and read back.
use vstd::prelude::*;

use crate::ids::{FilesystemId, UnixTimestamp};
use crate::limits::StateLimits;
use crate::record;
use crate::record::{InodeData, InodeRecord, LockRangeEnd, StateRecord};
use crate::row_codec;
use crate::row_law;
use crate::rows::SqlStateRecord;
use crate::values;

verus! {

/// Bytes that are there, are no more than so many and hold no zero.
pub open spec fn is_label(bytes: Seq<u8>, maximum: usize) -> bool {
    &&& 1 <= bytes.len() <= maximum
    &&& forall|i: int| 0 <= i < bytes.len() ==> #[trigger] bytes[i] != 0
}

/// Bytes that can name an entry: a label without a slash that is neither one
/// dot nor two.
pub open spec fn is_entry_name(bytes: Seq<u8>, limits: StateLimits) -> bool {
    &&& is_label(bytes, limits.values.max_entry_name_bytes)
    &&& forall|i: int| 0 <= i < bytes.len() ==> #[trigger] bytes[i] != 0x2f
    &&& !(bytes.len() == 1 && bytes[0] == 0x2e)
    &&& !(bytes.len() == 2 && bytes[0] == 0x2e && bytes[1] == 0x2e)
}

/// Text that can name an object: it is there and holds no control character.
pub open spec fn is_object_key(text: Seq<char>) -> bool {
    &&& text.len() > 0
    &&& forall|i: int|
        0 <= i < text.len() ==> (#[trigger] text[i]) as u32 >= 0x20 && text[i] as u32 != 0x7f
}

/// Names and values are taken exactly where they are what they must be: names
/// of entries, names of attributes, principals, groups and link targets each
/// within the limit of their own kind, and values of attributes within theirs.
pub proof fn law_values_that_are_taken(bytes: Seq<u8>, text: Seq<char>, limits: StateLimits)
    ensures
        values::entry_name_failure(bytes, limits) is None <==> is_entry_name(bytes, limits),
        values::xattr_name_failure(bytes, limits) is None <==> is_label(
            bytes,
            limits.values.max_xattr_name_bytes,
        ),
        values::principal_id_failure(bytes, limits) is None <==> is_label(
            bytes,
            limits.values.max_principal_bytes,
        ),
        values::group_id_failure(bytes, limits) is None <==> is_label(
            bytes,
            limits.values.max_group_bytes,
        ),
        values::symlink_target_failure(bytes, limits) is None <==> is_label(
            bytes,
            limits.values.max_symlink_bytes,
        ),
        values::xattr_value_failure(bytes, limits) is None <==> bytes.len()
            <= limits.values.max_xattr_value_bytes,
        record::object_key_failure(text) is None <==> is_object_key(text),
{
    assert(bytes.contains(0u8) <==> exists|i: int| 0 <= i < bytes.len() && bytes[i] == 0);
    assert(bytes.contains(47u8) <==> exists|i: int| 0 <= i < bytes.len() && bytes[i] == 47);
    assert(bytes == seq![46u8] <==> bytes.len() == 1 && bytes[0] == 46) by {
        if bytes.len() == 1 && bytes[0] == 46 {
            assert(bytes =~= seq![46u8]);
        }
    }
    assert(bytes == seq![46u8, 46u8] <==> bytes.len() == 2 && bytes[0] == 46 && bytes[1] == 46) by {
        if bytes.len() == 2 && bytes[0] == 46 && bytes[1] == 46 {
            assert(bytes =~= seq![46u8, 46u8]);
        }
    }
    if record::object_key_failure(text) is None {
        assert forall|i: int| 0 <= i < text.len() implies (#[trigger] text[i]) as u32 >= 0x20
            && text[i] as u32 != 0x7f by {
            assert(!record::is_control(text[i]));
        }
    }
}

/// A time whose nanoseconds stay below one second.
pub open spec fn is_time(time: UnixTimestamp) -> bool {
    time.nanoseconds < 1_000_000_000
}

/// The size and the content of an inode are those of its kind: a regular file
/// has a content context, and either a content of its own file, of its own
/// generation and of its own size, or no content, no generation and no bytes; a
/// link is as long as its target; anything else is empty.
pub open spec fn is_shaped(inode: InodeRecord<Seq<u8>, Seq<char>>, limits: StateLimits) -> bool {
    match inode.data {
        InodeData::RegularFile { content_file_id, content, data_generation } => {
            &&& inode.content_context_id is Some
            &&& match content {
                Some(content) => {
                    &&& data_generation > 0
                    &&& content.file_id == content_file_id
                    &&& content.generation == data_generation
                    &&& content.logical_size == inode.logical_size
                    &&& is_object_key(content.manifest_key.text)
                },
                None => data_generation == 0 && inode.logical_size == 0,
            }
        },
        InodeData::Directory { generation, .. } => inode.content_context_id is None
            && inode.logical_size == 0 && generation.value > 0,
        InodeData::Symlink { target } => inode.content_context_id is None && inode.logical_size
            == target.bytes.len() && is_label(target.bytes, limits.values.max_symlink_bytes),
        _ => inode.content_context_id is None && inode.logical_size == 0,
    }
}

/// A record that can be stored: its numbers are not zero where they count
/// something, its names and values are what they must be, and its fields agree.
pub open spec fn is_sound(
    stored: StateRecord<Seq<u8>, Seq<char>>,
    limits: StateLimits,
) -> bool {
    match stored {
        StateRecord::Filesystem(r) => r.revision.value > 0 && r.record_revision.value > 0
            && r.next_qid_path.value > 0 && r.next_directory_cookie.value > 0 && r.policy_generation
            > 0,
        StateRecord::Inode(r) => {
            &&& r.revision.value > 0
            &&& r.qid_path.value > 0
            &&& r.inode_generation.value > 0
            &&& r.mode <= 0xfff
            &&& is_time(r.times.accessed)
            &&& is_time(r.times.modified)
            &&& is_time(r.times.changed)
            &&& is_time(r.times.created)
            &&& is_label(r.owner.bytes, limits.values.max_principal_bytes)
            &&& is_label(r.group.bytes, limits.values.max_group_bytes)
            &&& is_shaped(r, limits)
        },
        StateRecord::ContentMetadata(r) => r.revision.value > 0 && (r.key_commitment is Some
            <==> r.wrapped_key_bytes is Some),
        StateRecord::DirectoryEntry(r) => r.revision.value > 0 && r.cookie.value > 0
            && is_entry_name(r.name.bytes, limits),
        StateRecord::Open(r) => r.revision.value > 0 && r.retained_inode_generation.value > 0,
        StateRecord::OpenPin(r) => r.revision.value > 0,
        StateRecord::Orphan(r) => r.revision.value > 0 && r.open_pin_count > 0
            && r.orphaned_revision.value > 0,
        StateRecord::Lock(r) => {
            &&& r.revision.value > 0
            &&& r.generation.value > 0
            &&& r.range.end matches LockRangeEnd::Exclusive(end) ==> r.range.start < end
        },
        StateRecord::Xattr(r) => r.revision.value > 0 && is_label(
            r.name.bytes,
            limits.values.max_xattr_name_bytes,
        ) && r.value.bytes.len() <= limits.values.max_xattr_value_bytes,
        StateRecord::XattrStaging(r) => r.revision.value > 0 && is_label(
            r.name.bytes,
            limits.values.max_xattr_name_bytes,
        ) && r.bytes.bytes.len() <= r.expected_size <= limits.values.max_xattr_value_bytes,
        StateRecord::Mutation(r) => r.revision.value > 0 && r.fencing_token.value > 0
            && r.committed_revision.value > 0 && r.result.kind > 0 && r.result.format > 0
            && r.result.bytes.len() <= limits.values.max_mutation_result_bytes,
        StateRecord::WriterLease(r) => r.revision.value > 0 && r.fencing_token.value > 0,
    }
}

#[verifier::spinoff_prover]
proof fn lemma_sound_inodes(inode: InodeRecord<Seq<u8>, Seq<char>>, limits: StateLimits)
    ensures
        row_law::inode_valid(inode, limits) <==> is_sound(StateRecord::Inode(inode), limits),
{
    let none = Seq::<char>::empty();
    law_values_that_are_taken(inode.owner.bytes, none, limits);
    law_values_that_are_taken(inode.group.bytes, none, limits);
    match inode.data {
        InodeData::RegularFile { content: Some(content), .. } => {
            law_values_that_are_taken(inode.owner.bytes, content.manifest_key.text, limits);
        },
        InodeData::Symlink { target } => {
            law_values_that_are_taken(target.bytes, none, limits);
        },
        _ => {},
    }
}

#[verifier::spinoff_prover]
proof fn lemma_sound_records(stored: StateRecord<Seq<u8>, Seq<char>>, limits: StateLimits)
    ensures
        row_law::record_valid(stored, limits) <==> is_sound(stored, limits),
{
    let none = Seq::<char>::empty();
    match stored {
        StateRecord::Inode(r) => {
            lemma_sound_inodes(r, limits);
        },
        StateRecord::DirectoryEntry(r) => {
            law_values_that_are_taken(r.name.bytes, none, limits);
        },
        StateRecord::Xattr(r) => {
            law_values_that_are_taken(r.name.bytes, none, limits);
            law_values_that_are_taken(r.value.bytes, none, limits);
        },
        StateRecord::XattrStaging(r) => {
            law_values_that_are_taken(r.name.bytes, none, limits);
            law_values_that_are_taken(r.bytes.bytes, none, limits);
        },
        _ => {},
    }
}

/// A row that is read holds a sound record: whatever else the columns hold is
/// refused.
pub proof fn law_read_records_are_sound(
    row: SqlStateRecord<Seq<u8>, Seq<char>>,
    limits: StateLimits,
)
    requires
        row_codec::row_failure(row, limits) is None,
    ensures
        is_sound(row_codec::row_record(row), limits),
{
    row_law::law_decoded_records_are_valid(row, limits);
    lemma_sound_records(row_codec::row_record(row), limits);
}

/// A sound record of a filesystem is read back from its row, whole and
/// unchanged.
pub proof fn law_sound_records_are_read_back(
    filesystem_id: FilesystemId,
    stored: StateRecord<Seq<u8>, Seq<char>>,
    limits: StateLimits,
)
    requires
        is_sound(stored, limits),
        crate::key::key_filesystem(record::record_key(filesystem_id, stored)) == filesystem_id,
    ensures
        row_codec::row_failure(row_codec::row_of(filesystem_id, stored), limits) is None,
        row_codec::row_record(row_codec::row_of(filesystem_id, stored)) == stored,
{
    lemma_sound_records(stored, limits);
    row_law::law_encode_then_decode(filesystem_id, stored, limits);
}

/// A record is within the limits of a receiver exactly where each of its values
/// of free length is within the limit of its own kind.
pub proof fn law_records_within_limits(
    stored: StateRecord<Seq<u8>, Seq<char>>,
    limits: StateLimits,
)
    ensures
        record::record_limit_failure(stored, limits) is None <==> match stored {
            StateRecord::Inode(r) => {
                &&& r.owner.bytes.len() <= limits.values.max_principal_bytes
                &&& r.group.bytes.len() <= limits.values.max_group_bytes
                &&& r.data matches InodeData::Symlink { target } ==> target.bytes.len()
                    <= limits.values.max_symlink_bytes
            },
            StateRecord::DirectoryEntry(r) => r.name.bytes.len()
                <= limits.values.max_entry_name_bytes,
            StateRecord::Xattr(r) => r.name.bytes.len() <= limits.values.max_xattr_name_bytes
                && r.value.bytes.len() <= limits.values.max_xattr_value_bytes,
            StateRecord::XattrStaging(r) => r.name.bytes.len()
                <= limits.values.max_xattr_name_bytes && r.bytes.bytes.len()
                <= limits.values.max_xattr_value_bytes,
            StateRecord::Mutation(r) => r.result.bytes.len()
                <= limits.values.max_mutation_result_bytes,
            _ => true,
        },
{
}

} // verus!
