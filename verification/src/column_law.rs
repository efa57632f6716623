//! Which column of a written row holds which field of the record.
use vstd::prelude::*;

use crate::bytes;
use crate::commit;
use crate::ids::FilesystemId;
use crate::key::RecordKey;
use crate::log_law;
use crate::page_law;
use crate::record::{
    InodeData, LockKind, LockRangeEnd, OpenAccess, StateRecord, StorageMethod,
};
use crate::record_write;
use crate::request::CommitRequest;
use crate::statement::ValueView;

verus! {

/// One column of a written row.
pub struct Column {
    /// Name.
    pub name: Seq<char>,
    /// Value.
    pub value: ValueView,
    /// The value travels as text and is cast to a number.
    pub numeric: bool,
}

/// A column whose value travels as it is.
pub open spec fn plain(name: Seq<char>, value: ValueView) -> Column {
    Column { name, value, numeric: false }
}

/// A column whose value is cast to a number.
pub open spec fn numeric(name: Seq<char>, value: ValueView) -> Column {
    Column { name, value, numeric: true }
}

/// An identity as a value.
pub open spec fn id(value: u128) -> ValueView {
    ValueView::Bytes(Some(bytes::id_bytes(value)))
}

/// The columns of a public record at a revision.
pub open spec fn record_columns(
    filesystem_id: FilesystemId,
    record: StateRecord<Seq<u8>, Seq<char>>,
    revision: u64,
) -> Seq<Column> {
    match record {
        StateRecord::Filesystem(r) => seq![
            plain("filesystem_id"@, id(filesystem_id.value)),
            numeric("state_revision"@, log_law::number(revision as int)),
            numeric("record_revision"@, log_law::number(revision as int)),
            plain("root_inode_id"@, id(r.root_inode_id.value)),
            numeric("next_qid_path"@, log_law::number(r.next_qid_path.value as int)),
            numeric("next_directory_cookie"@, log_law::number(r.next_directory_cookie.value as int)),
            numeric("policy_generation"@, log_law::number(r.policy_generation as int)),
        ],
        StateRecord::Inode(r) => seq![
            plain("filesystem_id"@, id(filesystem_id.value)),
            plain("inode_id"@, id(r.inode_id.value)),
            numeric("qid_path"@, log_law::number(r.qid_path.value as int)),
            numeric("record_revision"@, log_law::number(revision as int)),
            plain("mode"@, ValueView::Int4(Some(r.mode as i32))),
            plain("owner"@, ValueView::Bytes(Some(r.owner.bytes))),
            plain("group_id"@, ValueView::Bytes(Some(r.group.bytes))),
            plain("accessed_seconds"@, ValueView::Int8(Some(r.times.accessed.seconds))),
            plain("accessed_nanoseconds"@, ValueView::Int4(Some(r.times.accessed.nanoseconds as i32))),
            plain("modified_seconds"@, ValueView::Int8(Some(r.times.modified.seconds))),
            plain("modified_nanoseconds"@, ValueView::Int4(Some(r.times.modified.nanoseconds as i32))),
            plain("changed_seconds"@, ValueView::Int8(Some(r.times.changed.seconds))),
            plain("changed_nanoseconds"@, ValueView::Int4(Some(r.times.changed.nanoseconds as i32))),
            plain("created_seconds"@, ValueView::Int8(Some(r.times.created.seconds))),
            plain("created_nanoseconds"@, ValueView::Int4(Some(r.times.created.nanoseconds as i32))),
            numeric("logical_size"@, log_law::number(r.logical_size as int)),
            numeric("link_count"@, log_law::number(r.link_count as int)),
            numeric("inode_generation"@, log_law::number(r.inode_generation.value as int)),
            plain("kind"@, ValueView::Int2(Some(page_law::kind_number(r.data)))),
            plain("content_file_id"@, match r.data {
                    InodeData::RegularFile { content_file_id, .. } => id(content_file_id.value),
                    _ => ValueView::Bytes(None),
                }),
            plain("content_context_id"@, match r.content_context_id {
                    Some(context) => id(context.value),
                    None => ValueView::Bytes(None),
                }),
            numeric("data_generation"@, match r.data {
                    InodeData::RegularFile { data_generation, .. } => log_law::number(
                        data_generation as int,
                    ),
                    _ => ValueView::Text(None),
                }),
            numeric("content_generation"@, match r.data {
                    InodeData::RegularFile { content: Some(content), .. } => log_law::number(
                        content.generation as int,
                    ),
                    _ => ValueView::Text(None),
                }),
            numeric("content_logical_size"@, match r.data {
                    InodeData::RegularFile { content: Some(content), .. } => log_law::number(
                        content.logical_size as int,
                    ),
                    _ => ValueView::Text(None),
                }),
            plain("content_manifest_key"@, match r.data {
                    InodeData::RegularFile { content: Some(content), .. } => ValueView::Text(
                        Some(content.manifest_key.text),
                    ),
                    _ => ValueView::Text(None),
                }),
            plain("content_manifest_digest"@, match r.data {
                    InodeData::RegularFile { content: Some(content), .. } => ValueView::Bytes(
                        Some(
                            bytes::id_bytes(content.manifest_digest.high) + bytes::id_bytes(
                                content.manifest_digest.low,
                            ),
                        ),
                    ),
                    _ => ValueView::Bytes(None),
                }),
            plain("content_storage_method"@, match r.data {
                    InodeData::RegularFile { content: Some(content), .. } => ValueView::Int2(
                        Some(
                            match content.method {
                                StorageMethod::Raw => 1,
                                StorageMethod::BlockSplit => 2,
                            },
                        ),
                    ),
                    _ => ValueView::Int2(None),
                }),
            numeric("directory_generation"@, match r.data {
                    InodeData::Directory { generation, .. } => log_law::number(generation.value as int),
                    _ => ValueView::Text(None),
                }),
            plain("symlink_target"@, match r.data {
                    InodeData::Symlink { target } => ValueView::Bytes(Some(target.bytes)),
                    _ => ValueView::Bytes(None),
                }),
            plain("device_major"@, match r.data {
                    InodeData::CharacterDevice(device) => ValueView::Int8(
                        Some(device.major as i64),
                    ),
                    InodeData::BlockDevice(device) => ValueView::Int8(Some(device.major as i64)),
                    _ => ValueView::Int8(None),
                }),
            plain("device_minor"@, match r.data {
                    InodeData::CharacterDevice(device) => ValueView::Int8(
                        Some(device.minor as i64),
                    ),
                    InodeData::BlockDevice(device) => ValueView::Int8(Some(device.minor as i64)),
                    _ => ValueView::Int8(None),
                }),
            plain("directory_parent_inode_id"@, match r.data {
                    InodeData::Directory { parent_inode_id, .. } => id(parent_inode_id.value),
                    _ => ValueView::Bytes(None),
                }),
        ],
        StateRecord::ContentMetadata(r) => seq![
            plain("filesystem_id"@, id(filesystem_id.value)),
            plain("content_file_id"@, id(r.content_file_id.value)),
            plain("owner_inode_id"@, id(r.owner_inode_id.value)),
            plain("context_id"@, id(r.context_id.value)),
            plain("policy_format"@, ValueView::Int4(Some(r.policy_format as i32))),
            plain("policy_bytes"@, ValueView::Bytes(Some(r.policy_bytes))),
            plain("key_commitment"@, ValueView::Bytes(
                    match r.key_commitment {
                        Some(digest) => Some(
                            bytes::id_bytes(digest.high) + bytes::id_bytes(digest.low),
                        ),
                        None => None,
                    },
                )),
            plain("wrapped_key_bytes"@, ValueView::Bytes(r.wrapped_key_bytes)),
            numeric("record_revision"@, log_law::number(revision as int)),
        ],
        StateRecord::DirectoryEntry(r) => seq![
            plain("filesystem_id"@, id(filesystem_id.value)),
            plain("parent_inode_id"@, id(r.parent_inode_id.value)),
            plain("name"@, ValueView::Bytes(Some(r.name.bytes))),
            numeric("cookie"@, log_law::number(r.cookie.value as int)),
            plain("child_inode_id"@, id(r.child_inode_id.value)),
            numeric("record_revision"@, log_law::number(revision as int)),
        ],
        StateRecord::Open(r) => seq![
            plain("filesystem_id"@, id(filesystem_id.value)),
            plain("open_id"@, id(r.open_id.value)),
            plain("inode_id"@, id(r.inode_id.value)),
            plain("client_incarnation_id"@, id(r.client_incarnation.value)),
            plain("access"@, ValueView::Int2(
                    Some(
                        match r.access {
                            OpenAccess::ReadOnly => 1,
                            OpenAccess::WriteOnly => 2,
                            OpenAccess::ReadWrite => 3,
                            OpenAccess::DirectoryRead => 4,
                        },
                    ),
                )),
            plain("append"@, ValueView::Bool(r.append)),
            numeric("retained_inode_generation"@, log_law::number(r.retained_inode_generation.value as int)),
            numeric("record_revision"@, log_law::number(revision as int)),
        ],
        StateRecord::OpenPin(r) => seq![
            plain("filesystem_id"@, id(filesystem_id.value)),
            plain("inode_id"@, id(r.inode_id.value)),
            plain("open_id"@, id(r.open_id.value)),
            numeric("record_revision"@, log_law::number(revision as int)),
        ],
        StateRecord::Orphan(r) => seq![
            plain("filesystem_id"@, id(filesystem_id.value)),
            plain("inode_id"@, id(r.inode_id.value)),
            numeric("open_pin_count"@, log_law::number(r.open_pin_count as int)),
            numeric("orphaned_revision"@, log_law::number(r.orphaned_revision.value as int)),
            numeric("record_revision"@, log_law::number(revision as int)),
        ],
        StateRecord::Lock(r) => seq![
            plain("filesystem_id"@, id(filesystem_id.value)),
            plain("inode_id"@, id(r.inode_id.value)),
            plain("lock_id"@, id(r.lock_id.value)),
            numeric("range_start"@, log_law::number(r.range.start as int)),
            numeric("range_end"@, match r.range.end {
                    LockRangeEnd::Exclusive(end) => log_law::number(end as int),
                    LockRangeEnd::ThroughEof => ValueView::Text(None),
                }),
            plain("kind"@, ValueView::Int2(
                    Some(
                        match r.kind {
                            LockKind::Shared => 1,
                            LockKind::Exclusive => 2,
                        },
                    ),
                )),
            plain("owner_client_incarnation_id"@, id(r.owner.client_incarnation.value)),
            plain("owner_open_id"@, id(r.owner.open_id.value)),
            numeric("lock_generation"@, log_law::number(r.generation.value as int)),
            numeric("record_revision"@, log_law::number(revision as int)),
        ],
        StateRecord::Xattr(r) => seq![
            plain("filesystem_id"@, id(filesystem_id.value)),
            plain("inode_id"@, id(r.inode_id.value)),
            plain("name"@, ValueView::Bytes(Some(r.name.bytes))),
            plain("value"@, ValueView::Bytes(Some(r.value.bytes))),
            numeric("record_revision"@, log_law::number(revision as int)),
        ],
        StateRecord::XattrStaging(r) => seq![
            plain("filesystem_id"@, id(filesystem_id.value)),
            plain("staging_id"@, id(r.staging_id.value)),
            plain("inode_id"@, id(r.inode_id.value)),
            plain("name"@, ValueView::Bytes(Some(r.name.bytes))),
            numeric("expected_size"@, log_law::number(r.expected_size as int)),
            plain("staged_bytes"@, ValueView::Bytes(Some(r.bytes.bytes))),
            numeric("record_revision"@, log_law::number(revision as int)),
        ],
        StateRecord::Mutation(_) => Seq::empty(),
        StateRecord::WriterLease(_) => Seq::empty(),
    }
}

/// The table of a public record, and how many of its columns are its key.
pub open spec fn record_table(record: StateRecord<Seq<u8>, Seq<char>>) -> (Seq<char>, nat) {
    match record {
        StateRecord::Filesystem(_) => ("filesystem_records"@, 1),
        StateRecord::Inode(_) => ("inodes"@, 2),
        StateRecord::ContentMetadata(_) => ("content_metadata"@, 2),
        StateRecord::DirectoryEntry(_) => ("directory_entries"@, 3),
        StateRecord::Open(_) => ("opens"@, 2),
        StateRecord::OpenPin(_) => ("open_pins"@, 3),
        StateRecord::Orphan(_) => ("orphans"@, 2),
        StateRecord::Lock(_) => ("locks"@, 3),
        StateRecord::Xattr(_) => ("xattrs"@, 3),
        StateRecord::XattrStaging(_) => ("xattr_staging"@, 2),
        StateRecord::Mutation(_) => ("mutation_results"@, 2),
        StateRecord::WriterLease(_) => ("writer_fences"@, 2),
    }
}

/// The names of columns.
pub open spec fn names(columns: Seq<Column>) -> Seq<Seq<char>> {
    Seq::new(columns.len(), |i: int| columns[i].name)
}

/// The casts of columns.
pub open spec fn casts(columns: Seq<Column>) -> Seq<Option<Seq<char>>> {
    Seq::new(
        columns.len(),
        |i: int|
            if columns[i].numeric {
                Some("numeric"@)
            } else {
                None
            },
    )
}

/// The values of columns.
pub open spec fn values(columns: Seq<Column>) -> Seq<ValueView> {
    Seq::new(columns.len(), |i: int| columns[i].value)
}


/// The statements that write a public record at a revision name and bind its
/// columns in one order.
pub open spec fn writes_columns(
    key: RecordKey<Seq<u8>>,
    record: StateRecord<Seq<u8>, Seq<char>>,
    revision: u64,
) -> bool {
    let row = record_write::written_row(key, record, revision);
    let columns = record_columns(crate::key::key_filesystem(key), record, revision);
    let (table, keys) = record_table(record);
    &&& record_write::row_insertion(row) matches Some(insertion)
    &&& insertion.values == values(columns)
    &&& insertion.sql == record_write::insert_text(table, names(columns), casts(columns))
    &&& record_write::row_replacement(row) matches Some(replacement)
    &&& replacement.values == values(columns)
    &&& replacement.sql == record_write::replace_text(table, names(columns), casts(columns), keys)
}

#[verifier::spinoff_prover]
proof fn lemma_filesystem_columns(
    key: RecordKey<Seq<u8>>,
    record: StateRecord<Seq<u8>, Seq<char>>,
    revision: u64,
)
    requires
        record is Filesystem,
    ensures
        writes_columns(key, record, revision),
{
    let columns = record_columns(crate::key::key_filesystem(key), record, revision);
    let row = record_write::written_row(key, record, revision);
    assert(record_write::texts(record_write::FILESYSTEM_COLUMNS@) =~= names(columns));
    assert(record_write::numeric_casts(record_write::FILESYSTEM_NUMERIC@) =~= casts(columns));
    assert(record_write::row_insertion(row)->0.values =~= values(columns));
}

#[verifier::spinoff_prover]
proof fn lemma_inode_columns(
    key: RecordKey<Seq<u8>>,
    record: StateRecord<Seq<u8>, Seq<char>>,
    revision: u64,
)
    requires
        record is Inode,
    ensures
        writes_columns(key, record, revision),
{
    let columns = record_columns(crate::key::key_filesystem(key), record, revision);
    let row = record_write::written_row(key, record, revision);
    assert(record_write::texts(record_write::INODE_COLUMNS@) =~= names(columns));
    assert(record_write::numeric_casts(record_write::INODE_NUMERIC@) =~= casts(columns));
    assert(record_write::row_insertion(row)->0.values =~= values(columns));
}

#[verifier::spinoff_prover]
proof fn lemma_content_metadata_columns(
    key: RecordKey<Seq<u8>>,
    record: StateRecord<Seq<u8>, Seq<char>>,
    revision: u64,
)
    requires
        record is ContentMetadata,
    ensures
        writes_columns(key, record, revision),
{
    let columns = record_columns(crate::key::key_filesystem(key), record, revision);
    let row = record_write::written_row(key, record, revision);
    assert(record_write::texts(record_write::CONTENT_METADATA_COLUMNS@) =~= names(columns));
    assert(record_write::numeric_casts(record_write::CONTENT_METADATA_NUMERIC@) =~= casts(columns));
    assert(record_write::row_insertion(row)->0.values =~= values(columns));
}

#[verifier::spinoff_prover]
proof fn lemma_directory_entry_columns(
    key: RecordKey<Seq<u8>>,
    record: StateRecord<Seq<u8>, Seq<char>>,
    revision: u64,
)
    requires
        record is DirectoryEntry,
    ensures
        writes_columns(key, record, revision),
{
    let columns = record_columns(crate::key::key_filesystem(key), record, revision);
    let row = record_write::written_row(key, record, revision);
    assert(record_write::texts(record_write::DIRECTORY_ENTRY_COLUMNS@) =~= names(columns));
    assert(record_write::numeric_casts(record_write::DIRECTORY_ENTRY_NUMERIC@) =~= casts(columns));
    assert(record_write::row_insertion(row)->0.values =~= values(columns));
}

#[verifier::spinoff_prover]
proof fn lemma_open_columns(
    key: RecordKey<Seq<u8>>,
    record: StateRecord<Seq<u8>, Seq<char>>,
    revision: u64,
)
    requires
        record is Open,
    ensures
        writes_columns(key, record, revision),
{
    let columns = record_columns(crate::key::key_filesystem(key), record, revision);
    let row = record_write::written_row(key, record, revision);
    assert(record_write::texts(record_write::OPEN_COLUMNS@) =~= names(columns));
    assert(record_write::numeric_casts(record_write::OPEN_NUMERIC@) =~= casts(columns));
    assert(record_write::row_insertion(row)->0.values =~= values(columns));
}

#[verifier::spinoff_prover]
proof fn lemma_open_pin_columns(
    key: RecordKey<Seq<u8>>,
    record: StateRecord<Seq<u8>, Seq<char>>,
    revision: u64,
)
    requires
        record is OpenPin,
    ensures
        writes_columns(key, record, revision),
{
    let columns = record_columns(crate::key::key_filesystem(key), record, revision);
    let row = record_write::written_row(key, record, revision);
    assert(record_write::texts(record_write::OPEN_PIN_COLUMNS@) =~= names(columns));
    assert(record_write::numeric_casts(record_write::OPEN_PIN_NUMERIC@) =~= casts(columns));
    assert(record_write::row_insertion(row)->0.values =~= values(columns));
}

#[verifier::spinoff_prover]
proof fn lemma_orphan_columns(
    key: RecordKey<Seq<u8>>,
    record: StateRecord<Seq<u8>, Seq<char>>,
    revision: u64,
)
    requires
        record is Orphan,
    ensures
        writes_columns(key, record, revision),
{
    let columns = record_columns(crate::key::key_filesystem(key), record, revision);
    let row = record_write::written_row(key, record, revision);
    assert(record_write::texts(record_write::ORPHAN_COLUMNS@) =~= names(columns));
    assert(record_write::numeric_casts(record_write::ORPHAN_NUMERIC@) =~= casts(columns));
    assert(record_write::row_insertion(row)->0.values =~= values(columns));
}

#[verifier::spinoff_prover]
proof fn lemma_lock_columns(
    key: RecordKey<Seq<u8>>,
    record: StateRecord<Seq<u8>, Seq<char>>,
    revision: u64,
)
    requires
        record is Lock,
    ensures
        writes_columns(key, record, revision),
{
    let columns = record_columns(crate::key::key_filesystem(key), record, revision);
    let row = record_write::written_row(key, record, revision);
    assert(record_write::texts(record_write::LOCK_COLUMNS@) =~= names(columns));
    assert(record_write::numeric_casts(record_write::LOCK_NUMERIC@) =~= casts(columns));
    assert(record_write::row_insertion(row)->0.values =~= values(columns));
}

#[verifier::spinoff_prover]
proof fn lemma_xattr_columns(
    key: RecordKey<Seq<u8>>,
    record: StateRecord<Seq<u8>, Seq<char>>,
    revision: u64,
)
    requires
        record is Xattr,
    ensures
        writes_columns(key, record, revision),
{
    let columns = record_columns(crate::key::key_filesystem(key), record, revision);
    let row = record_write::written_row(key, record, revision);
    assert(record_write::texts(record_write::XATTR_COLUMNS@) =~= names(columns));
    assert(record_write::numeric_casts(record_write::XATTR_NUMERIC@) =~= casts(columns));
    assert(record_write::row_insertion(row)->0.values =~= values(columns));
}

#[verifier::spinoff_prover]
proof fn lemma_xattr_staging_columns(
    key: RecordKey<Seq<u8>>,
    record: StateRecord<Seq<u8>, Seq<char>>,
    revision: u64,
)
    requires
        record is XattrStaging,
    ensures
        writes_columns(key, record, revision),
{
    let columns = record_columns(crate::key::key_filesystem(key), record, revision);
    let row = record_write::written_row(key, record, revision);
    assert(record_write::texts(record_write::XATTR_STAGING_COLUMNS@) =~= names(columns));
    assert(record_write::numeric_casts(record_write::XATTR_STAGING_NUMERIC@) =~= casts(columns));
    assert(record_write::row_insertion(row)->0.values =~= values(columns));
}

/// Every written column holds the field of its name, at the allocated revision:
/// an insertion names and binds the columns of the record in one order, and so
/// does a replacement, which finds the row by the columns of its key.
pub proof fn law_written_columns_hold_their_fields(
    key: RecordKey<Seq<u8>>,
    record: StateRecord<Seq<u8>, Seq<char>>,
    revision: u64,
)
    requires
        !(record is Mutation),
        !(record is WriterLease),
    ensures
        writes_columns(key, record, revision),
{
    match record {
        StateRecord::Filesystem(_) => {
            lemma_filesystem_columns(key, record, revision);
        },
        StateRecord::Inode(_) => {
            lemma_inode_columns(key, record, revision);
        },
        StateRecord::ContentMetadata(_) => {
            lemma_content_metadata_columns(key, record, revision);
        },
        StateRecord::DirectoryEntry(_) => {
            lemma_directory_entry_columns(key, record, revision);
        },
        StateRecord::Open(_) => {
            lemma_open_columns(key, record, revision);
        },
        StateRecord::OpenPin(_) => {
            lemma_open_pin_columns(key, record, revision);
        },
        StateRecord::Orphan(_) => {
            lemma_orphan_columns(key, record, revision);
        },
        StateRecord::Lock(_) => {
            lemma_lock_columns(key, record, revision);
        },
        StateRecord::Xattr(_) => {
            lemma_xattr_columns(key, record, revision);
        },
        StateRecord::XattrStaging(_) => {
            lemma_xattr_staging_columns(key, record, revision);
        },
        _ => {},
    }
}

/// The columns of the ledger row of a request that is committed at a revision.
pub open spec fn ledger_columns(request: CommitRequest, revision: u64) -> Seq<Column> {
    seq![
        plain("filesystem_id"@, id(request.filesystem_id.value)),
        plain("mutation_id"@, id(request.mutation.mutation_id.value)),
        plain("request_fingerprint"@, ValueView::Bytes(
            Some(
                bytes::id_bytes(request.mutation.fingerprint.high) + bytes::id_bytes(
                    request.mutation.fingerprint.low,
                ),
            ),
        )),
        plain("client_incarnation_id"@, id(request.mutation.client_incarnation.value)),
        plain("writer_scope_id"@, id(request.fence.scope.value)),
        plain("writer_incarnation_id"@, id(request.fence.holder.value)),
        numeric("fencing_token"@, log_law::number(request.fence.fencing_token.value as int)),
        plain("result_kind"@, ValueView::Int4(Some(request.terminal_result@.kind as i32))),
        plain("result_format"@, ValueView::Int4(Some(request.terminal_result@.format as i32))),
        plain("result_bytes"@, ValueView::Bytes(Some(request.terminal_result@.bytes))),
        numeric("committed_revision"@, log_law::number(revision as int)),
        numeric("retention_horizon"@, log_law::number(request.mutation.retention.value as int)),
        numeric("record_revision"@, log_law::number(revision as int)),
    ]
}

/// The ledger row of a committed request holds the identity, the fingerprint
/// and the client of its mutation, the scope, the holder and the token of its
/// fence, its result and its retention, and the revision that it committed at.
pub proof fn law_ledger_columns_hold_the_request(request: CommitRequest, revision: u64)
    ensures
        ({
            let columns = ledger_columns(request, revision);
            let statement = commit::ledger_statement(request, revision);
            &&& statement.values == values(columns)
            &&& statement.sql == record_write::insert_text(
                "mutation_results"@,
                names(columns),
                casts(columns),
            )
        }),
{
    let columns = ledger_columns(request, revision);
    let statement = commit::ledger_statement(request, revision);
    assert(record_write::texts(record_write::MUTATION_COLUMNS@) =~= names(columns));
    assert(record_write::numeric_casts(record_write::MUTATION_NUMERIC@) =~= casts(columns));
    assert(statement.values =~= values(columns));
}


/// The table of a key and the condition that finds its row.
pub open spec fn row_condition(key: RecordKey<Seq<u8>>) -> Seq<char> {
    match key {
        RecordKey::Filesystem(_) => "\"public\".\"w9pt_fs_state_filesystem_records\" WHERE \"filesystem_id\" = $1"@,
        RecordKey::Inode(_, _) => "\"public\".\"w9pt_fs_state_inodes\" WHERE \"filesystem_id\" = $1 AND \"inode_id\" = $2"@,
        RecordKey::DirectoryEntry(_, _, _) => "\"public\".\"w9pt_fs_state_directory_entries\" WHERE \"filesystem_id\" = $1 AND \"parent_inode_id\" = $2 AND \"name\" = $3"@,
        RecordKey::Open(_, _) => "\"public\".\"w9pt_fs_state_opens\" WHERE \"filesystem_id\" = $1 AND \"open_id\" = $2"@,
        RecordKey::OpenPin(_, _, _) => "\"public\".\"w9pt_fs_state_open_pins\" WHERE \"filesystem_id\" = $1 AND \"inode_id\" = $2 AND \"open_id\" = $3"@,
        RecordKey::Orphan(_, _) => "\"public\".\"w9pt_fs_state_orphans\" WHERE \"filesystem_id\" = $1 AND \"inode_id\" = $2"@,
        RecordKey::Lock(_, _, _) => "\"public\".\"w9pt_fs_state_locks\" WHERE \"filesystem_id\" = $1 AND \"inode_id\" = $2 AND \"lock_id\" = $3"@,
        RecordKey::Xattr(_, _, _) => "\"public\".\"w9pt_fs_state_xattrs\" WHERE \"filesystem_id\" = $1 AND \"inode_id\" = $2 AND \"name\" = $3"@,
        RecordKey::XattrStaging(_, _) => "\"public\".\"w9pt_fs_state_xattr_staging\" WHERE \"filesystem_id\" = $1 AND \"staging_id\" = $2"@,
        RecordKey::Mutation(_, _) => "\"public\".\"w9pt_fs_state_mutation_results\" WHERE \"filesystem_id\" = $1 AND \"mutation_id\" = $2"@,
        RecordKey::WriterLease(_, _) => "\"public\".\"w9pt_fs_state_writer_fences\" WHERE \"filesystem_id\" = $1 AND \"writer_scope_id\" = $2"@,
        RecordKey::ContentMetadata(_, _) => "\"public\".\"w9pt_fs_state_content_metadata\" WHERE \"filesystem_id\" = $1 AND \"content_file_id\" = $2"@,
    }
}


/// The row of a key is locked and deleted by the same condition, which names
/// every part of the key in its order.
pub proof fn law_rows_are_locked_and_deleted_by_their_key(key: RecordKey<Seq<u8>>)
    ensures
        ({
            let locked = record_write::key_statement(record_write::lock_text(key)@, key);
            let deleted = record_write::key_statement(record_write::delete_text(key)@, key);
            &&& locked.sql == "SELECT 1 FROM "@ + row_condition(key) + " FOR UPDATE"@
            &&& locked.values == page_law::key_values(key)
            &&& !(key is Mutation || key is WriterLease) ==> deleted.sql == "DELETE FROM "@
                + row_condition(key)
            &&& deleted.values == page_law::key_values(key)
        }),
{
    let locked = record_write::key_statement(record_write::lock_text(key)@, key);
    assert(locked.values =~= page_law::key_values(key));
    reveal_strlit("SELECT 1 FROM ");
    reveal_strlit(" FOR UPDATE");
    reveal_strlit("DELETE FROM ");
    match key {
        RecordKey::Filesystem(_) => {
            reveal_strlit("\"public\".\"w9pt_fs_state_filesystem_records\" WHERE \"filesystem_id\" = $1");
            reveal_strlit("SELECT 1 FROM \"public\".\"w9pt_fs_state_filesystem_records\" WHERE \"filesystem_id\" = $1 FOR UPDATE");
            reveal_strlit("DELETE FROM \"public\".\"w9pt_fs_state_filesystem_records\" WHERE \"filesystem_id\" = $1");
            assert(record_write::delete_text(key)@ =~= "DELETE FROM "@ + row_condition(key));
            assert(record_write::lock_text(key)@ =~= "SELECT 1 FROM "@ + row_condition(key) + " FOR UPDATE"@);
        },
        RecordKey::Inode(_, _) => {
            reveal_strlit("\"public\".\"w9pt_fs_state_inodes\" WHERE \"filesystem_id\" = $1 AND \"inode_id\" = $2");
            reveal_strlit("SELECT 1 FROM \"public\".\"w9pt_fs_state_inodes\" WHERE \"filesystem_id\" = $1 AND \"inode_id\" = $2 FOR UPDATE");
            reveal_strlit("DELETE FROM \"public\".\"w9pt_fs_state_inodes\" WHERE \"filesystem_id\" = $1 AND \"inode_id\" = $2");
            assert(record_write::delete_text(key)@ =~= "DELETE FROM "@ + row_condition(key));
            assert(record_write::lock_text(key)@ =~= "SELECT 1 FROM "@ + row_condition(key) + " FOR UPDATE"@);
        },
        RecordKey::DirectoryEntry(_, _, _) => {
            reveal_strlit("\"public\".\"w9pt_fs_state_directory_entries\" WHERE \"filesystem_id\" = $1 AND \"parent_inode_id\" = $2 AND \"name\" = $3");
            reveal_strlit("SELECT 1 FROM \"public\".\"w9pt_fs_state_directory_entries\" WHERE \"filesystem_id\" = $1 AND \"parent_inode_id\" = $2 AND \"name\" = $3 FOR UPDATE");
            reveal_strlit("DELETE FROM \"public\".\"w9pt_fs_state_directory_entries\" WHERE \"filesystem_id\" = $1 AND \"parent_inode_id\" = $2 AND \"name\" = $3");
            assert(record_write::delete_text(key)@ =~= "DELETE FROM "@ + row_condition(key));
            assert(record_write::lock_text(key)@ =~= "SELECT 1 FROM "@ + row_condition(key) + " FOR UPDATE"@);
        },
        RecordKey::Open(_, _) => {
            reveal_strlit("\"public\".\"w9pt_fs_state_opens\" WHERE \"filesystem_id\" = $1 AND \"open_id\" = $2");
            reveal_strlit("SELECT 1 FROM \"public\".\"w9pt_fs_state_opens\" WHERE \"filesystem_id\" = $1 AND \"open_id\" = $2 FOR UPDATE");
            reveal_strlit("DELETE FROM \"public\".\"w9pt_fs_state_opens\" WHERE \"filesystem_id\" = $1 AND \"open_id\" = $2");
            assert(record_write::delete_text(key)@ =~= "DELETE FROM "@ + row_condition(key));
            assert(record_write::lock_text(key)@ =~= "SELECT 1 FROM "@ + row_condition(key) + " FOR UPDATE"@);
        },
        RecordKey::OpenPin(_, _, _) => {
            reveal_strlit("\"public\".\"w9pt_fs_state_open_pins\" WHERE \"filesystem_id\" = $1 AND \"inode_id\" = $2 AND \"open_id\" = $3");
            reveal_strlit("SELECT 1 FROM \"public\".\"w9pt_fs_state_open_pins\" WHERE \"filesystem_id\" = $1 AND \"inode_id\" = $2 AND \"open_id\" = $3 FOR UPDATE");
            reveal_strlit("DELETE FROM \"public\".\"w9pt_fs_state_open_pins\" WHERE \"filesystem_id\" = $1 AND \"inode_id\" = $2 AND \"open_id\" = $3");
            assert(record_write::delete_text(key)@ =~= "DELETE FROM "@ + row_condition(key));
            assert(record_write::lock_text(key)@ =~= "SELECT 1 FROM "@ + row_condition(key) + " FOR UPDATE"@);
        },
        RecordKey::Orphan(_, _) => {
            reveal_strlit("\"public\".\"w9pt_fs_state_orphans\" WHERE \"filesystem_id\" = $1 AND \"inode_id\" = $2");
            reveal_strlit("SELECT 1 FROM \"public\".\"w9pt_fs_state_orphans\" WHERE \"filesystem_id\" = $1 AND \"inode_id\" = $2 FOR UPDATE");
            reveal_strlit("DELETE FROM \"public\".\"w9pt_fs_state_orphans\" WHERE \"filesystem_id\" = $1 AND \"inode_id\" = $2");
            assert(record_write::delete_text(key)@ =~= "DELETE FROM "@ + row_condition(key));
            assert(record_write::lock_text(key)@ =~= "SELECT 1 FROM "@ + row_condition(key) + " FOR UPDATE"@);
        },
        RecordKey::Lock(_, _, _) => {
            reveal_strlit("\"public\".\"w9pt_fs_state_locks\" WHERE \"filesystem_id\" = $1 AND \"inode_id\" = $2 AND \"lock_id\" = $3");
            reveal_strlit("SELECT 1 FROM \"public\".\"w9pt_fs_state_locks\" WHERE \"filesystem_id\" = $1 AND \"inode_id\" = $2 AND \"lock_id\" = $3 FOR UPDATE");
            reveal_strlit("DELETE FROM \"public\".\"w9pt_fs_state_locks\" WHERE \"filesystem_id\" = $1 AND \"inode_id\" = $2 AND \"lock_id\" = $3");
            assert(record_write::delete_text(key)@ =~= "DELETE FROM "@ + row_condition(key));
            assert(record_write::lock_text(key)@ =~= "SELECT 1 FROM "@ + row_condition(key) + " FOR UPDATE"@);
        },
        RecordKey::Xattr(_, _, _) => {
            reveal_strlit("\"public\".\"w9pt_fs_state_xattrs\" WHERE \"filesystem_id\" = $1 AND \"inode_id\" = $2 AND \"name\" = $3");
            reveal_strlit("SELECT 1 FROM \"public\".\"w9pt_fs_state_xattrs\" WHERE \"filesystem_id\" = $1 AND \"inode_id\" = $2 AND \"name\" = $3 FOR UPDATE");
            reveal_strlit("DELETE FROM \"public\".\"w9pt_fs_state_xattrs\" WHERE \"filesystem_id\" = $1 AND \"inode_id\" = $2 AND \"name\" = $3");
            assert(record_write::delete_text(key)@ =~= "DELETE FROM "@ + row_condition(key));
            assert(record_write::lock_text(key)@ =~= "SELECT 1 FROM "@ + row_condition(key) + " FOR UPDATE"@);
        },
        RecordKey::XattrStaging(_, _) => {
            reveal_strlit("\"public\".\"w9pt_fs_state_xattr_staging\" WHERE \"filesystem_id\" = $1 AND \"staging_id\" = $2");
            reveal_strlit("SELECT 1 FROM \"public\".\"w9pt_fs_state_xattr_staging\" WHERE \"filesystem_id\" = $1 AND \"staging_id\" = $2 FOR UPDATE");
            reveal_strlit("DELETE FROM \"public\".\"w9pt_fs_state_xattr_staging\" WHERE \"filesystem_id\" = $1 AND \"staging_id\" = $2");
            assert(record_write::delete_text(key)@ =~= "DELETE FROM "@ + row_condition(key));
            assert(record_write::lock_text(key)@ =~= "SELECT 1 FROM "@ + row_condition(key) + " FOR UPDATE"@);
        },
        RecordKey::Mutation(_, _) => {
            reveal_strlit("\"public\".\"w9pt_fs_state_mutation_results\" WHERE \"filesystem_id\" = $1 AND \"mutation_id\" = $2");
            reveal_strlit("SELECT 1 FROM \"public\".\"w9pt_fs_state_mutation_results\" WHERE \"filesystem_id\" = $1 AND \"mutation_id\" = $2 FOR UPDATE");
            assert(record_write::lock_text(key)@ =~= "SELECT 1 FROM "@ + row_condition(key) + " FOR UPDATE"@);
        },
        RecordKey::WriterLease(_, _) => {
            reveal_strlit("\"public\".\"w9pt_fs_state_writer_fences\" WHERE \"filesystem_id\" = $1 AND \"writer_scope_id\" = $2");
            reveal_strlit("SELECT 1 FROM \"public\".\"w9pt_fs_state_writer_fences\" WHERE \"filesystem_id\" = $1 AND \"writer_scope_id\" = $2 FOR UPDATE");
            assert(record_write::lock_text(key)@ =~= "SELECT 1 FROM "@ + row_condition(key) + " FOR UPDATE"@);
        },
        RecordKey::ContentMetadata(_, _) => {
            reveal_strlit("\"public\".\"w9pt_fs_state_content_metadata\" WHERE \"filesystem_id\" = $1 AND \"content_file_id\" = $2");
            reveal_strlit("SELECT 1 FROM \"public\".\"w9pt_fs_state_content_metadata\" WHERE \"filesystem_id\" = $1 AND \"content_file_id\" = $2 FOR UPDATE");
            reveal_strlit("DELETE FROM \"public\".\"w9pt_fs_state_content_metadata\" WHERE \"filesystem_id\" = $1 AND \"content_file_id\" = $2");
            assert(record_write::delete_text(key)@ =~= "DELETE FROM "@ + row_condition(key));
            assert(record_write::lock_text(key)@ =~= "SELECT 1 FROM "@ + row_condition(key) + " FOR UPDATE"@);
        },
    }
}

} // verus!
