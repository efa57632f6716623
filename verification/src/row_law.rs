//! The row codec loses nothing: laws over both directions.
use vstd::prelude::*;

use crate::bytes;
use crate::ids::FilesystemId;
use crate::ids::{Digest, RequestFingerprint};
use crate::limits::{StateLimitKind, StateLimits};
use crate::numeric;
use crate::record;
use crate::record::{InodeData, InodeRecord, LockRangeEnd, StateRecord};
use crate::row_codec;
use crate::rows::{InodeRow, SqlStateRecord};
use crate::values;

verus! {

/// The kind-specific data of an inode is what its checked constructors produce.
pub open spec fn data_valid(data: InodeData<Seq<u8>, Seq<char>>, limits: StateLimits) -> bool {
    match data {
        InodeData::RegularFile { content, .. } => match content {
            Some(content) => content.generation != 0 && record::object_key_failure(
                content.manifest_key.text,
            ) is None,
            None => true,
        },
        InodeData::Directory { generation, .. } => generation.valid(),
        InodeData::Symlink { target } => values::symlink_target_failure(
            target.bytes,
            limits,
        ) is None,
        _ => true,
    }
}

/// Every field of an inode is what its checked constructors produce.
pub open spec fn inode_valid(r: InodeRecord<Seq<u8>, Seq<char>>, limits: StateLimits) -> bool {
    &&& r.qid_path.valid()
    &&& r.revision.valid()
    &&& r.inode_generation.valid()
    &&& r.times.valid()
    &&& values::principal_id_failure(r.owner.bytes, limits) is None
    &&& values::group_id_failure(r.group.bytes, limits) is None
    &&& data_valid(r.data, limits)
    &&& record::inode_failure(r.mode, r.logical_size, r.content_context_id, r.data) is None
}

/// Every field of a record is what its checked constructors produce.
pub open spec fn record_valid(
    record: StateRecord<Seq<u8>, Seq<char>>,
    limits: StateLimits,
) -> bool {
    &&& record::record_revision(record).valid()
    &&& match record {
        StateRecord::Filesystem(r) => r.revision.valid() && r.next_qid_path.valid()
            && record::filesystem_failure(r) is None,
        StateRecord::Inode(r) => inode_valid(r, limits),
        StateRecord::ContentMetadata(r) => record::content_metadata_valid(r),
        StateRecord::DirectoryEntry(r) => r.cookie.value != 0 && values::entry_name_failure(
            r.name.bytes,
            limits,
        ) is None,
        StateRecord::Open(r) => r.retained_inode_generation.valid(),
        StateRecord::OpenPin(r) => true,
        StateRecord::Orphan(r) => r.open_pin_count != 0 && r.orphaned_revision.valid(),
        StateRecord::Lock(r) => r.range.valid() && r.generation.valid(),
        StateRecord::Xattr(r) => values::xattr_name_failure(r.name.bytes, limits) is None
            && values::xattr_value_failure(r.value.bytes, limits) is None,
        StateRecord::XattrStaging(r) => values::xattr_name_failure(r.name.bytes, limits) is None
            && values::xattr_value_failure(r.bytes.bytes, limits) is None
            && record::staging_valid(r, limits),
        StateRecord::Mutation(r) => r.fencing_token.valid() && r.committed_revision.valid()
            && r.result.kind != 0 && r.result.format != 0 && values::length_failure(
            StateLimitKind::MutationResult,
            r.result.bytes,
            limits.values.max_mutation_result_bytes,
        ) is None,
        StateRecord::WriterLease(r) => r.fencing_token.valid(),
    }
}

proof fn lemma_digest_round_trip(high: u128, low: u128)
    ensures
        (bytes::id_bytes(high) + bytes::id_bytes(low)).len() == 32,
        row_codec::digest_of(bytes::id_bytes(high) + bytes::id_bytes(low)) == (Digest {
            high,
            low,
        }),
        row_codec::fingerprint_of(bytes::id_bytes(high) + bytes::id_bytes(low)) == (
        RequestFingerprint { high, low }),
{
    bytes::lemma_id_round_trip(high);
    bytes::lemma_id_round_trip(low);
    let all = bytes::id_bytes(high) + bytes::id_bytes(low);
    assert(all.subrange(0, 16) =~= bytes::id_bytes(high));
    assert(all.subrange(16, 32) =~= bytes::id_bytes(low));
}

proof fn lemma_digest_bytes(all: Seq<u8>)
    requires
        all.len() == 32,
    ensures
        row_codec::digest_of(all).bytes() == all,
        row_codec::fingerprint_of(all).bytes() == all,
{
    bytes::lemma_id_value_round_trip(all.subrange(0, 16));
    bytes::lemma_id_value_round_trip(all.subrange(16, 32));
    assert(all.subrange(0, 16) + all.subrange(16, 32) =~= all);
}

proof fn lemma_inode_round_trip(
    filesystem_id: FilesystemId,
    r: InodeRecord<Seq<u8>, Seq<char>>,
    limits: StateLimits,
)
    requires
        inode_valid(r, limits),
    ensures
        row_codec::inode_row_failure(row_codec::inode_row_of(filesystem_id, r), limits) is None,
        row_codec::inode_row_record(row_codec::inode_row_of(filesystem_id, r)) == r,
{
    let row = row_codec::inode_row_of(filesystem_id, r);
    bytes::lemma_id_round_trip(filesystem_id.value);
    bytes::lemma_id_round_trip(r.inode_id.value);
    numeric::law_decimal_round_trip(r.qid_path.value);
    numeric::law_decimal_round_trip(r.revision.value);
    numeric::law_decimal_round_trip(r.logical_size);
    numeric::law_decimal_round_trip(r.link_count);
    numeric::law_decimal_round_trip(r.inode_generation.value);
    match r.content_context_id {
        Some(context) => {
            bytes::lemma_id_round_trip(context.value);
        },
        None => {},
    }
    match r.data {
        InodeData::RegularFile { content_file_id, content, data_generation } => {
            bytes::lemma_id_round_trip(content_file_id.value);
            numeric::law_decimal_round_trip(data_generation);
            match content {
                Some(content) => {
                    numeric::law_decimal_round_trip(content.generation);
                    numeric::law_decimal_round_trip(content.logical_size);
                    lemma_digest_round_trip(
                        content.manifest_digest.high,
                        content.manifest_digest.low,
                    );
                    assert(row_codec::row_content(row) == Some(content));
                },
                None => {},
            }
        },
        InodeData::Directory { generation, parent_inode_id } => {
            numeric::law_decimal_round_trip(generation.value);
            bytes::lemma_id_round_trip(parent_inode_id.value);
        },
        _ => {},
    }
    assert(row_codec::row_data(row) == r.data);
    assert(row_codec::row_context(row) == r.content_context_id);
    assert(row_codec::inode_data_failure(row, limits) is None);
    assert(row_codec::inode_tail_failure(row) is None);
}

/// Decoding the columns of a valid record gives back its key and the record,
/// for every family and every kind of inode.
pub proof fn law_encode_then_decode(
    filesystem_id: FilesystemId,
    record: StateRecord<Seq<u8>, Seq<char>>,
    limits: StateLimits,
)
    requires
        record_valid(record, limits),
        crate::key::key_filesystem(record::record_key(filesystem_id, record)) == filesystem_id,
    ensures
        row_codec::encodable(record),
        row_codec::row_failure(row_codec::row_of(filesystem_id, record), limits) is None,
        row_codec::row_record(row_codec::row_of(filesystem_id, record)) == record,
        row_codec::row_key(row_codec::row_of(filesystem_id, record)) == record::record_key(
            filesystem_id,
            record,
        ),
{
    bytes::lemma_id_round_trip(filesystem_id.value);
    numeric::law_decimal_round_trip(record::record_revision(record).value);
    match record {
        StateRecord::Filesystem(r) => {
            numeric::law_decimal_round_trip(r.revision.value);
            bytes::lemma_id_round_trip(r.root_inode_id.value);
            numeric::law_decimal_round_trip(r.next_qid_path.value);
            numeric::law_decimal_round_trip(r.next_directory_cookie.value);
            numeric::law_decimal_round_trip(r.policy_generation);
        },
        StateRecord::Inode(r) => {
            lemma_inode_round_trip(filesystem_id, r, limits);
        },
        StateRecord::ContentMetadata(r) => {
            bytes::lemma_id_round_trip(r.content_file_id.value);
            bytes::lemma_id_round_trip(r.owner_inode_id.value);
            bytes::lemma_id_round_trip(r.context_id.value);
            match r.key_commitment {
                Some(commitment) => {
                    lemma_digest_round_trip(commitment.high, commitment.low);
                },
                None => {},
            }
        },
        StateRecord::DirectoryEntry(r) => {
            bytes::lemma_id_round_trip(r.parent_inode_id.value);
            numeric::law_decimal_round_trip(r.cookie.value);
            bytes::lemma_id_round_trip(r.child_inode_id.value);
        },
        StateRecord::Open(r) => {
            bytes::lemma_id_round_trip(r.open_id.value);
            bytes::lemma_id_round_trip(r.inode_id.value);
            bytes::lemma_id_round_trip(r.client_incarnation.value);
            numeric::law_decimal_round_trip(r.retained_inode_generation.value);
        },
        StateRecord::OpenPin(r) => {
            bytes::lemma_id_round_trip(r.inode_id.value);
            bytes::lemma_id_round_trip(r.open_id.value);
        },
        StateRecord::Orphan(r) => {
            bytes::lemma_id_round_trip(r.inode_id.value);
            numeric::law_decimal_round_trip(r.open_pin_count);
            numeric::law_decimal_round_trip(r.orphaned_revision.value);
        },
        StateRecord::Lock(r) => {
            bytes::lemma_id_round_trip(r.inode_id.value);
            bytes::lemma_id_round_trip(r.lock_id.value);
            numeric::law_decimal_round_trip(r.range.start);
            match r.range.end {
                LockRangeEnd::Exclusive(end) => {
                    numeric::law_decimal_round_trip(end);
                },
                LockRangeEnd::ThroughEof => {},
            }
            bytes::lemma_id_round_trip(r.owner.client_incarnation.value);
            bytes::lemma_id_round_trip(r.owner.open_id.value);
            numeric::law_decimal_round_trip(r.generation.value);
        },
        StateRecord::Xattr(r) => {
            bytes::lemma_id_round_trip(r.inode_id.value);
        },
        StateRecord::XattrStaging(r) => {
            bytes::lemma_id_round_trip(r.staging_id.value);
            bytes::lemma_id_round_trip(r.inode_id.value);
            numeric::law_decimal_round_trip(r.expected_size);
        },
        StateRecord::Mutation(r) => {
            bytes::lemma_id_round_trip(r.mutation_id.value);
            lemma_digest_round_trip(r.fingerprint.high, r.fingerprint.low);
            bytes::lemma_id_round_trip(r.client_incarnation.value);
            bytes::lemma_id_round_trip(r.writer_scope.value);
            bytes::lemma_id_round_trip(r.writer_incarnation.value);
            numeric::law_decimal_round_trip(r.fencing_token.value);
            numeric::law_decimal_round_trip(r.committed_revision.value);
            numeric::law_decimal_round_trip(r.retention.value);
        },
        StateRecord::WriterLease(r) => {
            bytes::lemma_id_round_trip(r.scope.value);
            bytes::lemma_id_round_trip(r.holder.value);
            bytes::lemma_id_round_trip(r.lease_id.value);
            numeric::law_decimal_round_trip(r.deadline.value);
            numeric::law_decimal_round_trip(r.fencing_token.value);
        },
    }
}

proof fn lemma_inode_row_canonical(row: InodeRow<Seq<u8>, Seq<char>>, limits: StateLimits)
    requires
        row_codec::inode_row_failure(row, limits) is None,
    ensures
        row_codec::inode_row_of(
            FilesystemId { value: bytes::id_value(row.filesystem_id) },
            row_codec::inode_row_record(row),
        ) == row,
{
    bytes::lemma_id_value_round_trip(row.filesystem_id);
    bytes::lemma_id_value_round_trip(row.inode_id);
    numeric::law_decimal_canonical(row.qid_path);
    numeric::law_decimal_canonical(row.record_revision);
    numeric::law_decimal_canonical(row.logical_size);
    numeric::law_decimal_canonical(row.link_count);
    numeric::law_decimal_canonical(row.inode_generation);
    assert(row_codec::inode_data_failure(row, limits) is None);
    assert(row_codec::inode_tail_failure(row) is None);
    assert(row_codec::context_failure(row) is None);
    match row.content_context_id {
        Some(context) => {
            bytes::lemma_id_value_round_trip(context);
        },
        None => {},
    }
    if row.kind == 1 {
        bytes::lemma_id_value_round_trip(row.content_file_id->0);
        numeric::law_decimal_canonical(row.data_generation->0);
        assert(row_codec::content_failure(row) is None);
        if !row_codec::no_content(row) {
            numeric::law_decimal_canonical(row.content_generation->0);
            numeric::law_decimal_canonical(row.content_logical_size->0);
            lemma_digest_bytes(row.content_manifest_digest->0);
        }
    } else if row.kind == 2 {
        numeric::law_decimal_canonical(row.directory_generation->0);
        bytes::lemma_id_value_round_trip(row.directory_parent_inode_id->0);
    }
}

/// An accepted row is exactly the encoding of the record it decodes to, so no
/// two different rows stand for the same record.
pub proof fn law_decode_then_encode(row: SqlStateRecord<Seq<u8>, Seq<char>>, limits: StateLimits)
    requires
        row_codec::row_failure(row, limits) is None,
    ensures
        row_codec::row_of(row_codec::row_filesystem(row), row_codec::row_record(row)) == row,
{
    match row {
        SqlStateRecord::Filesystem(r) => {
            bytes::lemma_id_value_round_trip(r.filesystem_id);
            numeric::law_decimal_canonical(r.state_revision);
            numeric::law_decimal_canonical(r.record_revision);
            bytes::lemma_id_value_round_trip(r.root_inode_id);
            numeric::law_decimal_canonical(r.next_qid_path);
            numeric::law_decimal_canonical(r.next_directory_cookie);
            numeric::law_decimal_canonical(r.policy_generation);
        },
        SqlStateRecord::Inode(r) => {
            lemma_inode_row_canonical(r, limits);
        },
        SqlStateRecord::ContentMetadata(r) => {
            bytes::lemma_id_value_round_trip(r.filesystem_id);
            bytes::lemma_id_value_round_trip(r.content_file_id);
            bytes::lemma_id_value_round_trip(r.owner_inode_id);
            bytes::lemma_id_value_round_trip(r.context_id);
            match r.key_commitment {
                Some(commitment) => {
                    lemma_digest_bytes(commitment);
                },
                None => {},
            }
            numeric::law_decimal_canonical(r.record_revision);
        },
        SqlStateRecord::DirectoryEntry(r) => {
            bytes::lemma_id_value_round_trip(r.filesystem_id);
            bytes::lemma_id_value_round_trip(r.parent_inode_id);
            numeric::law_decimal_canonical(r.cookie);
            bytes::lemma_id_value_round_trip(r.child_inode_id);
            numeric::law_decimal_canonical(r.record_revision);
        },
        SqlStateRecord::Open(r) => {
            bytes::lemma_id_value_round_trip(r.filesystem_id);
            bytes::lemma_id_value_round_trip(r.open_id);
            bytes::lemma_id_value_round_trip(r.inode_id);
            bytes::lemma_id_value_round_trip(r.client_incarnation_id);
            numeric::law_decimal_canonical(r.retained_inode_generation);
            numeric::law_decimal_canonical(r.record_revision);
        },
        SqlStateRecord::OpenPin(r) => {
            bytes::lemma_id_value_round_trip(r.filesystem_id);
            bytes::lemma_id_value_round_trip(r.inode_id);
            bytes::lemma_id_value_round_trip(r.open_id);
            numeric::law_decimal_canonical(r.record_revision);
        },
        SqlStateRecord::Orphan(r) => {
            bytes::lemma_id_value_round_trip(r.filesystem_id);
            bytes::lemma_id_value_round_trip(r.inode_id);
            numeric::law_decimal_canonical(r.open_pin_count);
            numeric::law_decimal_canonical(r.orphaned_revision);
            numeric::law_decimal_canonical(r.record_revision);
        },
        SqlStateRecord::Lock(r) => {
            bytes::lemma_id_value_round_trip(r.filesystem_id);
            bytes::lemma_id_value_round_trip(r.inode_id);
            bytes::lemma_id_value_round_trip(r.lock_id);
            numeric::law_decimal_canonical(r.range_start);
            match r.range_end {
                Some(end) => {
                    numeric::law_decimal_canonical(end);
                },
                None => {},
            }
            bytes::lemma_id_value_round_trip(r.owner_client_incarnation_id);
            bytes::lemma_id_value_round_trip(r.owner_open_id);
            numeric::law_decimal_canonical(r.lock_generation);
            numeric::law_decimal_canonical(r.record_revision);
        },
        SqlStateRecord::Xattr(r) => {
            bytes::lemma_id_value_round_trip(r.filesystem_id);
            bytes::lemma_id_value_round_trip(r.inode_id);
            numeric::law_decimal_canonical(r.record_revision);
        },
        SqlStateRecord::XattrStaging(r) => {
            bytes::lemma_id_value_round_trip(r.filesystem_id);
            bytes::lemma_id_value_round_trip(r.staging_id);
            bytes::lemma_id_value_round_trip(r.inode_id);
            numeric::law_decimal_canonical(r.expected_size);
            numeric::law_decimal_canonical(r.record_revision);
        },
        SqlStateRecord::Mutation(r) => {
            bytes::lemma_id_value_round_trip(r.filesystem_id);
            bytes::lemma_id_value_round_trip(r.mutation_id);
            lemma_digest_bytes(r.request_fingerprint);
            bytes::lemma_id_value_round_trip(r.client_incarnation_id);
            bytes::lemma_id_value_round_trip(r.writer_scope_id);
            bytes::lemma_id_value_round_trip(r.writer_incarnation_id);
            numeric::law_decimal_canonical(r.fencing_token);
            numeric::law_decimal_canonical(r.committed_revision);
            numeric::law_decimal_canonical(r.retention_horizon);
            numeric::law_decimal_canonical(r.record_revision);
        },
        SqlStateRecord::WriterLease(r) => {
            bytes::lemma_id_value_round_trip(r.filesystem_id);
            bytes::lemma_id_value_round_trip(r.writer_scope_id);
            bytes::lemma_id_value_round_trip(r.active_holder_id);
            bytes::lemma_id_value_round_trip(r.active_lease_id);
            numeric::law_decimal_canonical(r.active_deadline_tick);
            numeric::law_decimal_canonical(r.greatest_fencing_token);
            numeric::law_decimal_canonical(r.active_record_revision);
        },
    }
}

/// Every record that decoding accepts is valid, and stands under its own key.
pub proof fn law_decoded_records_are_valid(
    row: SqlStateRecord<Seq<u8>, Seq<char>>,
    limits: StateLimits,
)
    requires
        row_codec::row_failure(row, limits) is None,
    ensures
        record_valid(row_codec::row_record(row), limits),
        record::key_failure(row_codec::row_key(row), row_codec::row_record(row)) is None,
{
    match row {
        SqlStateRecord::Inode(r) => {
            assert(row_codec::inode_data_failure(r, limits) is None);
            assert(row_codec::inode_tail_failure(r) is None);
            assert(row_codec::context_failure(r) is None);
            if r.kind == 1 {
                assert(row_codec::content_failure(r) is None);
            }
        },
        _ => {},
    }
}

} // verus!
