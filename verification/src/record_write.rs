//! Point statements that lock and write the record tables.
use vstd::prelude::*;

use crate::failure;
use crate::failure::{
    AdapterFailureKind, FailureCause, PostgresStateError, StateFailure, StateStoreOperation,
};
use crate::ids::StateRevision;
use crate::key::RecordKey;
use crate::numeric;
use crate::numeric::encode_u64;
use crate::record;
use crate::record::{MutationRecord, StateRecord};
use crate::row_codec;
use crate::row_codec::RowCodecError;
use crate::rows::{
    ContentMetadataRow, DirectoryEntryRow, FilesystemRow, InodeRow, LockRow, MutationRow, OpenPinRow, OpenRow, OrphanRow, XattrRow, XattrStagingRow, SqlStateRecord,
};
use crate::statement;
use crate::statement::{query, PostgresQuery, SqlValue, StatementView, ValueView};
use crate::text::copy_text;

verus! {

/// Whether a point lock or write found its exact row.
#[derive(Clone, Copy, Debug, PartialEq, Eq, Structural)]
pub enum RowPresence {
    /// No row had the key.
    Absent,
    /// Exactly one row had the key or was inserted.
    Present,
}

/// Why a record cannot be written.
#[derive(Clone, Debug, PartialEq, Eq)]
pub enum RecordWritePrepareError<T = String> {
    /// Mutation and writer-lease records have their own protocol.
    ProtectedRecordFamily,
    /// A mutation record did not encode as a mutation row.
    MutationKeyMismatch,
    /// The record could not be encoded.
    Codec(RowCodecError<T>),
}

impl View for RecordWritePrepareError<String> {
    type V = RecordWritePrepareError<Seq<char>>;

    open spec fn view(&self) -> RecordWritePrepareError<Seq<char>> {
        match self {
            RecordWritePrepareError::ProtectedRecordFamily =>
                RecordWritePrepareError::ProtectedRecordFamily,
            RecordWritePrepareError::MutationKeyMismatch =>
                RecordWritePrepareError::MutationKeyMismatch,
            RecordWritePrepareError::Codec(error) => RecordWritePrepareError::Codec(error@),
        }
    }
}

/// The failure that a refused write is reported as.
pub open spec fn prepare_failure(error: RecordWritePrepareError<Seq<char>>) -> StateFailure {
    match error {
        RecordWritePrepareError::ProtectedRecordFamily => failure::plain_failure(
            StateStoreOperation::Commit,
            AdapterFailureKind::Internal,
            "mutation and writer-lease records require their dedicated persistence protocol",
            FailureCause::Plain,
        ),
        RecordWritePrepareError::MutationKeyMismatch => failure::plain_failure(
            StateStoreOperation::Commit,
            AdapterFailureKind::Internal,
            "mutation record did not encode as a mutation row",
            FailureCause::Plain,
        ),
        RecordWritePrepareError::Codec(error) => failure::plain_failure(
            StateStoreOperation::Commit,
            AdapterFailureKind::Internal,
            "record codec rejected write",
            FailureCause::Row(error),
        ),
    }
}

/// Reports a refused write.
pub fn prepare_error(error: RecordWritePrepareError) -> (result: PostgresStateError)
    ensures
        result@ == prepare_failure(error@),
{
    match error {
        RecordWritePrepareError::ProtectedRecordFamily => PostgresStateError::new(
            StateStoreOperation::Commit,
            AdapterFailureKind::Internal,
            "mutation and writer-lease records require their dedicated persistence protocol",
            FailureCause::Plain,
        ),
        RecordWritePrepareError::MutationKeyMismatch => PostgresStateError::new(
            StateStoreOperation::Commit,
            AdapterFailureKind::Internal,
            "mutation record did not encode as a mutation row",
            FailureCause::Plain,
        ),
        RecordWritePrepareError::Codec(error) => PostgresStateError::new(
            StateStoreOperation::Commit,
            AdapterFailureKind::Internal,
            "record codec rejected write",
            FailureCause::Row(error),
        ),
    }
}

/// Parts with a separator between each two.
pub open spec fn joined(parts: Seq<Seq<char>>, separator: Seq<char>) -> Seq<char>
    decreases parts.len(),
{
    if parts.len() == 0 {
        Seq::empty()
    } else if parts.len() == 1 {
        parts[0]
    } else {
        joined(parts.drop_last(), separator) + separator + parts.last()
    }
}

/// A quoted column name.
pub open spec fn quoted(column: Seq<char>) -> Seq<char> {
    "\""@ + column + "\""@
}

/// The placeholder of the value at an index.
pub open spec fn placeholder(index: int, cast: Option<Seq<char>>) -> Seq<char> {
    let plain = "$"@ + numeric::decimal((index + 1) as nat);
    match cast {
        Some(cast) => plain + "::"@ + cast,
        None => plain,
    }
}

/// A column set to, or compared with, the value at an index.
pub open spec fn equated(column: Seq<char>, index: int, cast: Option<Seq<char>>) -> Seq<char> {
    quoted(column) + " = "@ + placeholder(index, cast)
}

/// The characters of several slices.
pub open spec fn texts(slices: Seq<&str>) -> Seq<Seq<char>> {
    slices.map_values(|slice: &str| slice@)
}

/// The characters of several optional slices.
pub open spec fn optional_texts(slices: Seq<Option<&str>>) -> Seq<Option<Seq<char>>> {
    slices.map_values(|slice: Option<&str>| crate::sqlstate::optional_str(slice))
}

/// Text of a single-row insertion.
pub open spec fn insert_text(
    table: Seq<char>,
    columns: Seq<Seq<char>>,
    casts: Seq<Option<Seq<char>>>,
) -> Seq<char> {
    "INSERT INTO \"public\".\"w9pt_fs_state_"@ + table + "\" ("@ + joined(
        Seq::new(columns.len(), |i: int| quoted(columns[i])),
        ", "@,
    ) + ") VALUES ("@ + joined(
        Seq::new(casts.len(), |i: int| placeholder(i, casts[i])),
        ", "@,
    ) + ")"@
}

/// The smaller of two lengths.
pub open spec fn shorter(left: nat, right: nat) -> nat {
    if left < right {
        left
    } else {
        right
    }
}

/// Text of a single-row update by the first `keys` columns.
pub open spec fn replace_text(
    table: Seq<char>,
    columns: Seq<Seq<char>>,
    casts: Seq<Option<Seq<char>>>,
    keys: nat,
) -> Seq<char> {
    let pairs = shorter(columns.len(), casts.len());
    let assigned = if keys < pairs {
        (pairs - keys) as nat
    } else {
        0
    };
    "UPDATE \"public\".\"w9pt_fs_state_"@ + table + "\" SET "@ + joined(
        Seq::new(assigned, |i: int| equated(columns[i + keys], i + keys, casts[i + keys])),
        ", "@,
    ) + " WHERE "@ + joined(
        Seq::new(shorter(columns.len(), keys), |i: int| equated(columns[i], i, None)),
        " AND "@,
    )
}

fn placeholder_text(index: usize, cast: Option<&str>) -> (result: String)
    requires
        index < usize::MAX,
    ensures
        result@ == placeholder(index as int, crate::sqlstate::optional_str(cast)),
{
    let number: u64 = index as u64 + 1;
    let mut text = String::from_str("$");
    text.append(encode_u64(number).as_str());
    match cast {
        Some(cast) => {
            text.append("::");
            text.append(cast);
        },
        None => {},
    }
    text
}

fn quoted_text(column: &str) -> (result: String)
    ensures
        result@ == quoted(column@),
{
    let mut text = String::from_str("\"");
    text.append(column);
    text.append("\"");
    text
}

fn equated_text(column: &str, index: usize, cast: Option<&str>) -> (result: String)
    requires
        index < usize::MAX,
    ensures
        result@ == equated(column@, index as int, crate::sqlstate::optional_str(cast)),
{
    let mut text = quoted_text(column);
    text.append(" = ");
    text.append(placeholder_text(index, cast).as_str());
    text
}

/// Adds one part, after a separator unless it is the first.
fn append_part(text: &mut String, first: bool, separator: &str, part: &str)
    ensures
        final(text)@ == (if first {
            old(text)@ + part@
        } else {
            old(text)@ + separator@ + part@
        }),
{
    if !first {
        text.append(separator);
    }
    text.append(part);
}

/// Text of a single-row insertion into a table of the schema.
pub fn insert_sql(table: &str, columns: &[&str], casts: &[Option<&str>]) -> (result: String)
    ensures
        result@ == insert_text(table@, texts(columns@), optional_texts(casts@)),
{
    let ghost names = Seq::new(texts(columns@).len(), |i: int| quoted(texts(columns@)[i]));
    let mut list = String::new();
    let mut index: usize = 0;
    assert(list@ =~= joined(names.take(0), ", "@));
    while index < columns.len()
        invariant
            index <= columns@.len(),
            names == Seq::new(texts(columns@).len(), |i: int| quoted(texts(columns@)[i])),
            list@ == joined(names.take(index as int), ", "@),
        decreases columns@.len() - index,
    {
        let part = quoted_text(columns[index]);
        append_part(&mut list, index == 0, ", ", part.as_str());
        proof {
            let next = names.take(index + 1);
            assert(next.drop_last() =~= names.take(index as int));
            assert(next.last() == part@);
        }
        index = index + 1;
    }
    assert(names.take(index as int) =~= names);
    let ghost slots = Seq::new(
        optional_texts(casts@).len(),
        |i: int| placeholder(i, optional_texts(casts@)[i]),
    );
    let mut values = String::new();
    let mut slot: usize = 0;
    assert(values@ =~= joined(slots.take(0), ", "@));
    while slot < casts.len()
        invariant
            slot <= casts@.len(),
            slots == Seq::new(
                optional_texts(casts@).len(),
                |i: int| placeholder(i, optional_texts(casts@)[i]),
            ),
            values@ == joined(slots.take(slot as int), ", "@),
        decreases casts@.len() - slot,
    {
        let part = placeholder_text(slot, casts[slot]);
        append_part(&mut values, slot == 0, ", ", part.as_str());
        proof {
            let next = slots.take(slot + 1);
            assert(next.drop_last() =~= slots.take(slot as int));
            assert(next.last() == part@);
        }
        slot = slot + 1;
    }
    assert(slots.take(slot as int) =~= slots);
    let mut text = String::from_str("INSERT INTO \"public\".\"w9pt_fs_state_");
    text.append(table);
    text.append("\" (");
    text.append(list.as_str());
    text.append(") VALUES (");
    text.append(values.as_str());
    text.append(")");
    text
}

/// Text of a single-row update by the first `key_count` columns of a table of
/// the schema.
pub fn replace_sql(
    table: &str,
    columns: &[&str],
    casts: &[Option<&str>],
    key_count: usize,
) -> (result: String)
    ensures
        result@ == replace_text(
            table@,
            texts(columns@),
            optional_texts(casts@),
            key_count as nat,
        ),
{
    let pairs: usize = if columns.len() < casts.len() {
        columns.len()
    } else {
        casts.len()
    };
    let assigned: usize = if key_count < pairs {
        pairs - key_count
    } else {
        0
    };
    let ghost settings = Seq::new(
        assigned as nat,
        |i: int|
            equated(
                texts(columns@)[i + key_count],
                i + key_count,
                optional_texts(casts@)[i + key_count],
            ),
    );
    let mut assignments = String::new();
    let mut index: usize = 0;
    assert(assignments@ =~= joined(settings.take(0), ", "@));
    while index < assigned
        invariant
            index <= assigned,
            pairs <= columns@.len(),
            pairs <= casts@.len(),
            assigned == (if key_count < pairs {
                pairs - key_count
            } else {
                0
            }),
            settings == Seq::new(
                assigned as nat,
                |i: int|
                    equated(
                        texts(columns@)[i + key_count],
                        i + key_count,
                        optional_texts(casts@)[i + key_count],
                    ),
            ),
            assignments@ == joined(settings.take(index as int), ", "@),
        decreases assigned - index,
    {
        let position: usize = index + key_count;
        let part = equated_text(columns[position], position, casts[position]);
        append_part(&mut assignments, index == 0, ", ", part.as_str());
        proof {
            let next = settings.take(index + 1);
            assert(next.drop_last() =~= settings.take(index as int));
            assert(next.last() == part@);
        }
        index = index + 1;
    }
    assert(settings.take(index as int) =~= settings);
    let keys: usize = if columns.len() < key_count {
        columns.len()
    } else {
        key_count
    };
    let ghost conditions = Seq::new(keys as nat, |i: int| equated(texts(columns@)[i], i, None));
    let mut predicates = String::new();
    let mut slot: usize = 0;
    assert(predicates@ =~= joined(conditions.take(0), " AND "@));
    while slot < keys
        invariant
            slot <= keys,
            keys <= columns@.len(),
            conditions == Seq::new(keys as nat, |i: int| equated(texts(columns@)[i], i, None)),
            predicates@ == joined(conditions.take(slot as int), " AND "@),
        decreases keys - slot,
    {
        let part = equated_text(columns[slot], slot, None);
        append_part(&mut predicates, slot == 0, " AND ", part.as_str());
        proof {
            let next = conditions.take(slot + 1);
            assert(next.drop_last() =~= conditions.take(slot as int));
            assert(next.last() == part@);
        }
        slot = slot + 1;
    }
    assert(conditions.take(slot as int) =~= conditions);
    let mut text = String::from_str("UPDATE \"public\".\"w9pt_fs_state_");
    text.append(table);
    text.append("\" SET ");
    text.append(assignments.as_str());
    text.append(" WHERE ");
    text.append(predicates.as_str());
    text
}

/// The casts of columns, numeric where flagged.
pub open spec fn numeric_casts(flags: Seq<bool>) -> Seq<Option<Seq<char>>> {
    flags.map_values(
        |flag: bool|
            if flag {
                Some("numeric"@)
            } else {
                None
            },
    )
}

fn casts_for(flags: &[bool]) -> (result: Vec<Option<&'static str>>)
    ensures
        optional_texts(result@) == numeric_casts(flags@),
{
    let mut casts: Vec<Option<&'static str>> = Vec::new();
    let mut index: usize = 0;
    while index < flags.len()
        invariant
            index <= flags@.len(),
            casts@.len() == index,
            forall|i: int|
                0 <= i < index ==> crate::sqlstate::optional_str(#[trigger] casts@[i])
                    == numeric_casts(flags@)[i],
        decreases flags@.len() - index,
    {
        let cast: Option<&'static str> = if flags[index] {
            Some("numeric")
        } else {
            None
        };
        casts.push(cast);
        index = index + 1;
    }
    assert(optional_texts(casts@) =~= numeric_casts(flags@));
    casts
}

/// Columns of `filesystem_records`, keys first.
pub const FILESYSTEM_COLUMNS: [&'static str; 7] = [
    "filesystem_id",
    "state_revision",
    "record_revision",
    "root_inode_id",
    "next_qid_path",
    "next_directory_cookie",
    "policy_generation",
];

/// Which columns of `filesystem_records` travel as decimal text.
pub const FILESYSTEM_NUMERIC: [bool; 7] = [
    false,
    true,
    true,
    false,
    true,
    true,
    true,
];

/// Column values of a `filesystem_records` row.
pub open spec fn filesystem_values(row: FilesystemRow<Seq<u8>, Seq<char>>) -> Seq<ValueView> {
    seq![
        SqlValue::Bytes(Some(row.filesystem_id)),
        SqlValue::Text(Some(row.state_revision)),
        SqlValue::Text(Some(row.record_revision)),
        SqlValue::Bytes(Some(row.root_inode_id)),
        SqlValue::Text(Some(row.next_qid_path)),
        SqlValue::Text(Some(row.next_directory_cookie)),
        SqlValue::Text(Some(row.policy_generation)),
    ]
}

fn bind_filesystem(row: FilesystemRow) -> (result: Vec<SqlValue>)
    ensures
        statement::value_views(result@) == filesystem_values(row@),
{
    let ghost view = row@;
    let values: Vec<SqlValue> = vec![
        SqlValue::Bytes(Some(row.filesystem_id)),
        SqlValue::Text(Some(row.state_revision)),
        SqlValue::Text(Some(row.record_revision)),
        SqlValue::Bytes(Some(row.root_inode_id)),
        SqlValue::Text(Some(row.next_qid_path)),
        SqlValue::Text(Some(row.next_directory_cookie)),
        SqlValue::Text(Some(row.policy_generation)),
    ];
    assert(statement::value_views(values@) =~= filesystem_values(view));
    values
}

/// Columns of `inodes`, keys first.
pub const INODE_COLUMNS: [&'static str; 32] = [
    "filesystem_id",
    "inode_id",
    "qid_path",
    "record_revision",
    "mode",
    "owner",
    "group_id",
    "accessed_seconds",
    "accessed_nanoseconds",
    "modified_seconds",
    "modified_nanoseconds",
    "changed_seconds",
    "changed_nanoseconds",
    "created_seconds",
    "created_nanoseconds",
    "logical_size",
    "link_count",
    "inode_generation",
    "kind",
    "content_file_id",
    "content_context_id",
    "data_generation",
    "content_generation",
    "content_logical_size",
    "content_manifest_key",
    "content_manifest_digest",
    "content_storage_method",
    "directory_generation",
    "symlink_target",
    "device_major",
    "device_minor",
    "directory_parent_inode_id",
];

/// Which columns of `inodes` travel as decimal text.
pub const INODE_NUMERIC: [bool; 32] = [
    false,
    false,
    true,
    true,
    false,
    false,
    false,
    false,
    false,
    false,
    false,
    false,
    false,
    false,
    false,
    true,
    true,
    true,
    false,
    false,
    false,
    true,
    true,
    true,
    false,
    false,
    false,
    true,
    false,
    false,
    false,
    false,
];

/// Column values of a `inodes` row.
pub open spec fn inode_values(row: InodeRow<Seq<u8>, Seq<char>>) -> Seq<ValueView> {
    seq![
        SqlValue::Bytes(Some(row.filesystem_id)),
        SqlValue::Bytes(Some(row.inode_id)),
        SqlValue::Text(Some(row.qid_path)),
        SqlValue::Text(Some(row.record_revision)),
        SqlValue::Int4(Some(row.mode)),
        SqlValue::Bytes(Some(row.owner)),
        SqlValue::Bytes(Some(row.group_id)),
        SqlValue::Int8(Some(row.accessed_seconds)),
        SqlValue::Int4(Some(row.accessed_nanoseconds)),
        SqlValue::Int8(Some(row.modified_seconds)),
        SqlValue::Int4(Some(row.modified_nanoseconds)),
        SqlValue::Int8(Some(row.changed_seconds)),
        SqlValue::Int4(Some(row.changed_nanoseconds)),
        SqlValue::Int8(Some(row.created_seconds)),
        SqlValue::Int4(Some(row.created_nanoseconds)),
        SqlValue::Text(Some(row.logical_size)),
        SqlValue::Text(Some(row.link_count)),
        SqlValue::Text(Some(row.inode_generation)),
        SqlValue::Int2(Some(row.kind)),
        SqlValue::Bytes(row.content_file_id),
        SqlValue::Bytes(row.content_context_id),
        SqlValue::Text(row.data_generation),
        SqlValue::Text(row.content_generation),
        SqlValue::Text(row.content_logical_size),
        SqlValue::Text(row.content_manifest_key),
        SqlValue::Bytes(row.content_manifest_digest),
        SqlValue::Int2(row.content_storage_method),
        SqlValue::Text(row.directory_generation),
        SqlValue::Bytes(row.symlink_target),
        SqlValue::Int8(row.device_major),
        SqlValue::Int8(row.device_minor),
        SqlValue::Bytes(row.directory_parent_inode_id),
    ]
}

fn bind_inode(row: InodeRow) -> (result: Vec<SqlValue>)
    ensures
        statement::value_views(result@) == inode_values(row@),
{
    let ghost view = row@;
    let values: Vec<SqlValue> = vec![
        SqlValue::Bytes(Some(row.filesystem_id)),
        SqlValue::Bytes(Some(row.inode_id)),
        SqlValue::Text(Some(row.qid_path)),
        SqlValue::Text(Some(row.record_revision)),
        SqlValue::Int4(Some(row.mode)),
        SqlValue::Bytes(Some(row.owner)),
        SqlValue::Bytes(Some(row.group_id)),
        SqlValue::Int8(Some(row.accessed_seconds)),
        SqlValue::Int4(Some(row.accessed_nanoseconds)),
        SqlValue::Int8(Some(row.modified_seconds)),
        SqlValue::Int4(Some(row.modified_nanoseconds)),
        SqlValue::Int8(Some(row.changed_seconds)),
        SqlValue::Int4(Some(row.changed_nanoseconds)),
        SqlValue::Int8(Some(row.created_seconds)),
        SqlValue::Int4(Some(row.created_nanoseconds)),
        SqlValue::Text(Some(row.logical_size)),
        SqlValue::Text(Some(row.link_count)),
        SqlValue::Text(Some(row.inode_generation)),
        SqlValue::Int2(Some(row.kind)),
        SqlValue::Bytes(row.content_file_id),
        SqlValue::Bytes(row.content_context_id),
        SqlValue::Text(row.data_generation),
        SqlValue::Text(row.content_generation),
        SqlValue::Text(row.content_logical_size),
        SqlValue::Text(row.content_manifest_key),
        SqlValue::Bytes(row.content_manifest_digest),
        SqlValue::Int2(row.content_storage_method),
        SqlValue::Text(row.directory_generation),
        SqlValue::Bytes(row.symlink_target),
        SqlValue::Int8(row.device_major),
        SqlValue::Int8(row.device_minor),
        SqlValue::Bytes(row.directory_parent_inode_id),
    ];
    assert(statement::value_views(values@) =~= inode_values(view));
    values
}

/// Columns of `content_metadata`, keys first.
pub const CONTENT_METADATA_COLUMNS: [&'static str; 9] = [
    "filesystem_id",
    "content_file_id",
    "owner_inode_id",
    "context_id",
    "policy_format",
    "policy_bytes",
    "key_commitment",
    "wrapped_key_bytes",
    "record_revision",
];

/// Which columns of `content_metadata` travel as decimal text.
pub const CONTENT_METADATA_NUMERIC: [bool; 9] = [
    false,
    false,
    false,
    false,
    false,
    false,
    false,
    false,
    true,
];

/// Column values of a `content_metadata` row.
pub open spec fn content_metadata_values(row: ContentMetadataRow<Seq<u8>, Seq<char>>) -> Seq<ValueView> {
    seq![
        SqlValue::Bytes(Some(row.filesystem_id)),
        SqlValue::Bytes(Some(row.content_file_id)),
        SqlValue::Bytes(Some(row.owner_inode_id)),
        SqlValue::Bytes(Some(row.context_id)),
        SqlValue::Int4(Some(row.policy_format)),
        SqlValue::Bytes(Some(row.policy_bytes)),
        SqlValue::Bytes(row.key_commitment),
        SqlValue::Bytes(row.wrapped_key_bytes),
        SqlValue::Text(Some(row.record_revision)),
    ]
}

fn bind_content_metadata(row: ContentMetadataRow) -> (result: Vec<SqlValue>)
    ensures
        statement::value_views(result@) == content_metadata_values(row@),
{
    let ghost view = row@;
    let values: Vec<SqlValue> = vec![
        SqlValue::Bytes(Some(row.filesystem_id)),
        SqlValue::Bytes(Some(row.content_file_id)),
        SqlValue::Bytes(Some(row.owner_inode_id)),
        SqlValue::Bytes(Some(row.context_id)),
        SqlValue::Int4(Some(row.policy_format)),
        SqlValue::Bytes(Some(row.policy_bytes)),
        SqlValue::Bytes(row.key_commitment),
        SqlValue::Bytes(row.wrapped_key_bytes),
        SqlValue::Text(Some(row.record_revision)),
    ];
    assert(statement::value_views(values@) =~= content_metadata_values(view));
    values
}

/// Columns of `directory_entries`, keys first.
pub const DIRECTORY_ENTRY_COLUMNS: [&'static str; 6] = [
    "filesystem_id",
    "parent_inode_id",
    "name",
    "cookie",
    "child_inode_id",
    "record_revision",
];

/// Which columns of `directory_entries` travel as decimal text.
pub const DIRECTORY_ENTRY_NUMERIC: [bool; 6] = [
    false,
    false,
    false,
    true,
    false,
    true,
];

/// Column values of a `directory_entries` row.
pub open spec fn directory_entry_values(row: DirectoryEntryRow<Seq<u8>, Seq<char>>) -> Seq<ValueView> {
    seq![
        SqlValue::Bytes(Some(row.filesystem_id)),
        SqlValue::Bytes(Some(row.parent_inode_id)),
        SqlValue::Bytes(Some(row.name)),
        SqlValue::Text(Some(row.cookie)),
        SqlValue::Bytes(Some(row.child_inode_id)),
        SqlValue::Text(Some(row.record_revision)),
    ]
}

fn bind_directory_entry(row: DirectoryEntryRow) -> (result: Vec<SqlValue>)
    ensures
        statement::value_views(result@) == directory_entry_values(row@),
{
    let ghost view = row@;
    let values: Vec<SqlValue> = vec![
        SqlValue::Bytes(Some(row.filesystem_id)),
        SqlValue::Bytes(Some(row.parent_inode_id)),
        SqlValue::Bytes(Some(row.name)),
        SqlValue::Text(Some(row.cookie)),
        SqlValue::Bytes(Some(row.child_inode_id)),
        SqlValue::Text(Some(row.record_revision)),
    ];
    assert(statement::value_views(values@) =~= directory_entry_values(view));
    values
}

/// Columns of `opens`, keys first.
pub const OPEN_COLUMNS: [&'static str; 8] = [
    "filesystem_id",
    "open_id",
    "inode_id",
    "client_incarnation_id",
    "access",
    "append",
    "retained_inode_generation",
    "record_revision",
];

/// Which columns of `opens` travel as decimal text.
pub const OPEN_NUMERIC: [bool; 8] = [
    false,
    false,
    false,
    false,
    false,
    false,
    true,
    true,
];

/// Column values of a `opens` row.
pub open spec fn open_values(row: OpenRow<Seq<u8>, Seq<char>>) -> Seq<ValueView> {
    seq![
        SqlValue::Bytes(Some(row.filesystem_id)),
        SqlValue::Bytes(Some(row.open_id)),
        SqlValue::Bytes(Some(row.inode_id)),
        SqlValue::Bytes(Some(row.client_incarnation_id)),
        SqlValue::Int2(Some(row.access)),
        SqlValue::Bool(row.append),
        SqlValue::Text(Some(row.retained_inode_generation)),
        SqlValue::Text(Some(row.record_revision)),
    ]
}

fn bind_open(row: OpenRow) -> (result: Vec<SqlValue>)
    ensures
        statement::value_views(result@) == open_values(row@),
{
    let ghost view = row@;
    let values: Vec<SqlValue> = vec![
        SqlValue::Bytes(Some(row.filesystem_id)),
        SqlValue::Bytes(Some(row.open_id)),
        SqlValue::Bytes(Some(row.inode_id)),
        SqlValue::Bytes(Some(row.client_incarnation_id)),
        SqlValue::Int2(Some(row.access)),
        SqlValue::Bool(row.append),
        SqlValue::Text(Some(row.retained_inode_generation)),
        SqlValue::Text(Some(row.record_revision)),
    ];
    assert(statement::value_views(values@) =~= open_values(view));
    values
}

/// Columns of `open_pins`, keys first.
pub const OPEN_PIN_COLUMNS: [&'static str; 4] = [
    "filesystem_id",
    "inode_id",
    "open_id",
    "record_revision",
];

/// Which columns of `open_pins` travel as decimal text.
pub const OPEN_PIN_NUMERIC: [bool; 4] = [
    false,
    false,
    false,
    true,
];

/// Column values of a `open_pins` row.
pub open spec fn open_pin_values(row: OpenPinRow<Seq<u8>, Seq<char>>) -> Seq<ValueView> {
    seq![
        SqlValue::Bytes(Some(row.filesystem_id)),
        SqlValue::Bytes(Some(row.inode_id)),
        SqlValue::Bytes(Some(row.open_id)),
        SqlValue::Text(Some(row.record_revision)),
    ]
}

fn bind_open_pin(row: OpenPinRow) -> (result: Vec<SqlValue>)
    ensures
        statement::value_views(result@) == open_pin_values(row@),
{
    let ghost view = row@;
    let values: Vec<SqlValue> = vec![
        SqlValue::Bytes(Some(row.filesystem_id)),
        SqlValue::Bytes(Some(row.inode_id)),
        SqlValue::Bytes(Some(row.open_id)),
        SqlValue::Text(Some(row.record_revision)),
    ];
    assert(statement::value_views(values@) =~= open_pin_values(view));
    values
}

/// Columns of `orphans`, keys first.
pub const ORPHAN_COLUMNS: [&'static str; 5] = [
    "filesystem_id",
    "inode_id",
    "open_pin_count",
    "orphaned_revision",
    "record_revision",
];

/// Which columns of `orphans` travel as decimal text.
pub const ORPHAN_NUMERIC: [bool; 5] = [
    false,
    false,
    true,
    true,
    true,
];

/// Column values of a `orphans` row.
pub open spec fn orphan_values(row: OrphanRow<Seq<u8>, Seq<char>>) -> Seq<ValueView> {
    seq![
        SqlValue::Bytes(Some(row.filesystem_id)),
        SqlValue::Bytes(Some(row.inode_id)),
        SqlValue::Text(Some(row.open_pin_count)),
        SqlValue::Text(Some(row.orphaned_revision)),
        SqlValue::Text(Some(row.record_revision)),
    ]
}

fn bind_orphan(row: OrphanRow) -> (result: Vec<SqlValue>)
    ensures
        statement::value_views(result@) == orphan_values(row@),
{
    let ghost view = row@;
    let values: Vec<SqlValue> = vec![
        SqlValue::Bytes(Some(row.filesystem_id)),
        SqlValue::Bytes(Some(row.inode_id)),
        SqlValue::Text(Some(row.open_pin_count)),
        SqlValue::Text(Some(row.orphaned_revision)),
        SqlValue::Text(Some(row.record_revision)),
    ];
    assert(statement::value_views(values@) =~= orphan_values(view));
    values
}

/// Columns of `locks`, keys first.
pub const LOCK_COLUMNS: [&'static str; 10] = [
    "filesystem_id",
    "inode_id",
    "lock_id",
    "range_start",
    "range_end",
    "kind",
    "owner_client_incarnation_id",
    "owner_open_id",
    "lock_generation",
    "record_revision",
];

/// Which columns of `locks` travel as decimal text.
pub const LOCK_NUMERIC: [bool; 10] = [
    false,
    false,
    false,
    true,
    true,
    false,
    false,
    false,
    true,
    true,
];

/// Column values of a `locks` row.
pub open spec fn lock_values(row: LockRow<Seq<u8>, Seq<char>>) -> Seq<ValueView> {
    seq![
        SqlValue::Bytes(Some(row.filesystem_id)),
        SqlValue::Bytes(Some(row.inode_id)),
        SqlValue::Bytes(Some(row.lock_id)),
        SqlValue::Text(Some(row.range_start)),
        SqlValue::Text(row.range_end),
        SqlValue::Int2(Some(row.kind)),
        SqlValue::Bytes(Some(row.owner_client_incarnation_id)),
        SqlValue::Bytes(Some(row.owner_open_id)),
        SqlValue::Text(Some(row.lock_generation)),
        SqlValue::Text(Some(row.record_revision)),
    ]
}

fn bind_lock(row: LockRow) -> (result: Vec<SqlValue>)
    ensures
        statement::value_views(result@) == lock_values(row@),
{
    let ghost view = row@;
    let values: Vec<SqlValue> = vec![
        SqlValue::Bytes(Some(row.filesystem_id)),
        SqlValue::Bytes(Some(row.inode_id)),
        SqlValue::Bytes(Some(row.lock_id)),
        SqlValue::Text(Some(row.range_start)),
        SqlValue::Text(row.range_end),
        SqlValue::Int2(Some(row.kind)),
        SqlValue::Bytes(Some(row.owner_client_incarnation_id)),
        SqlValue::Bytes(Some(row.owner_open_id)),
        SqlValue::Text(Some(row.lock_generation)),
        SqlValue::Text(Some(row.record_revision)),
    ];
    assert(statement::value_views(values@) =~= lock_values(view));
    values
}

/// Columns of `xattrs`, keys first.
pub const XATTR_COLUMNS: [&'static str; 5] = [
    "filesystem_id",
    "inode_id",
    "name",
    "value",
    "record_revision",
];

/// Which columns of `xattrs` travel as decimal text.
pub const XATTR_NUMERIC: [bool; 5] = [
    false,
    false,
    false,
    false,
    true,
];

/// Column values of a `xattrs` row.
pub open spec fn xattr_values(row: XattrRow<Seq<u8>, Seq<char>>) -> Seq<ValueView> {
    seq![
        SqlValue::Bytes(Some(row.filesystem_id)),
        SqlValue::Bytes(Some(row.inode_id)),
        SqlValue::Bytes(Some(row.name)),
        SqlValue::Bytes(Some(row.value)),
        SqlValue::Text(Some(row.record_revision)),
    ]
}

fn bind_xattr(row: XattrRow) -> (result: Vec<SqlValue>)
    ensures
        statement::value_views(result@) == xattr_values(row@),
{
    let ghost view = row@;
    let values: Vec<SqlValue> = vec![
        SqlValue::Bytes(Some(row.filesystem_id)),
        SqlValue::Bytes(Some(row.inode_id)),
        SqlValue::Bytes(Some(row.name)),
        SqlValue::Bytes(Some(row.value)),
        SqlValue::Text(Some(row.record_revision)),
    ];
    assert(statement::value_views(values@) =~= xattr_values(view));
    values
}

/// Columns of `xattr_staging`, keys first.
pub const XATTR_STAGING_COLUMNS: [&'static str; 7] = [
    "filesystem_id",
    "staging_id",
    "inode_id",
    "name",
    "expected_size",
    "staged_bytes",
    "record_revision",
];

/// Which columns of `xattr_staging` travel as decimal text.
pub const XATTR_STAGING_NUMERIC: [bool; 7] = [
    false,
    false,
    false,
    false,
    true,
    false,
    true,
];

/// Column values of a `xattr_staging` row.
pub open spec fn xattr_staging_values(row: XattrStagingRow<Seq<u8>, Seq<char>>) -> Seq<ValueView> {
    seq![
        SqlValue::Bytes(Some(row.filesystem_id)),
        SqlValue::Bytes(Some(row.staging_id)),
        SqlValue::Bytes(Some(row.inode_id)),
        SqlValue::Bytes(Some(row.name)),
        SqlValue::Text(Some(row.expected_size)),
        SqlValue::Bytes(Some(row.staged_bytes)),
        SqlValue::Text(Some(row.record_revision)),
    ]
}

fn bind_xattr_staging(row: XattrStagingRow) -> (result: Vec<SqlValue>)
    ensures
        statement::value_views(result@) == xattr_staging_values(row@),
{
    let ghost view = row@;
    let values: Vec<SqlValue> = vec![
        SqlValue::Bytes(Some(row.filesystem_id)),
        SqlValue::Bytes(Some(row.staging_id)),
        SqlValue::Bytes(Some(row.inode_id)),
        SqlValue::Bytes(Some(row.name)),
        SqlValue::Text(Some(row.expected_size)),
        SqlValue::Bytes(Some(row.staged_bytes)),
        SqlValue::Text(Some(row.record_revision)),
    ];
    assert(statement::value_views(values@) =~= xattr_staging_values(view));
    values
}

/// Columns of `mutation_results`, keys first.
pub const MUTATION_COLUMNS: [&'static str; 13] = [
    "filesystem_id",
    "mutation_id",
    "request_fingerprint",
    "client_incarnation_id",
    "writer_scope_id",
    "writer_incarnation_id",
    "fencing_token",
    "result_kind",
    "result_format",
    "result_bytes",
    "committed_revision",
    "retention_horizon",
    "record_revision",
];

/// Which columns of `mutation_results` travel as decimal text.
pub const MUTATION_NUMERIC: [bool; 13] = [
    false,
    false,
    false,
    false,
    false,
    false,
    true,
    false,
    false,
    false,
    true,
    true,
    true,
];

/// Column values of a `mutation_results` row.
pub open spec fn mutation_values(row: MutationRow<Seq<u8>, Seq<char>>) -> Seq<ValueView> {
    seq![
        SqlValue::Bytes(Some(row.filesystem_id)),
        SqlValue::Bytes(Some(row.mutation_id)),
        SqlValue::Bytes(Some(row.request_fingerprint)),
        SqlValue::Bytes(Some(row.client_incarnation_id)),
        SqlValue::Bytes(Some(row.writer_scope_id)),
        SqlValue::Bytes(Some(row.writer_incarnation_id)),
        SqlValue::Text(Some(row.fencing_token)),
        SqlValue::Int4(Some(row.result_kind)),
        SqlValue::Int4(Some(row.result_format)),
        SqlValue::Bytes(Some(row.result_bytes)),
        SqlValue::Text(Some(row.committed_revision)),
        SqlValue::Text(Some(row.retention_horizon)),
        SqlValue::Text(Some(row.record_revision)),
    ]
}

fn bind_mutation(row: MutationRow) -> (result: Vec<SqlValue>)
    ensures
        statement::value_views(result@) == mutation_values(row@),
{
    let ghost view = row@;
    let values: Vec<SqlValue> = vec![
        SqlValue::Bytes(Some(row.filesystem_id)),
        SqlValue::Bytes(Some(row.mutation_id)),
        SqlValue::Bytes(Some(row.request_fingerprint)),
        SqlValue::Bytes(Some(row.client_incarnation_id)),
        SqlValue::Bytes(Some(row.writer_scope_id)),
        SqlValue::Bytes(Some(row.writer_incarnation_id)),
        SqlValue::Text(Some(row.fencing_token)),
        SqlValue::Int4(Some(row.result_kind)),
        SqlValue::Int4(Some(row.result_format)),
        SqlValue::Bytes(Some(row.result_bytes)),
        SqlValue::Text(Some(row.committed_revision)),
        SqlValue::Text(Some(row.retention_horizon)),
        SqlValue::Text(Some(row.record_revision)),
    ];
    assert(statement::value_views(values@) =~= mutation_values(view));
    values
}

/// Single-row insertion of values.
pub open spec fn insertion(
    table: &'static str,
    columns: Seq<&'static str>,
    flags: Seq<bool>,
    values: Seq<ValueView>,
) -> StatementView {
    StatementView { sql: insert_text(table@, texts(columns), numeric_casts(flags)), values }
}

/// Single-row update of values.
pub open spec fn replacement(
    table: &'static str,
    columns: Seq<&'static str>,
    flags: Seq<bool>,
    keys: nat,
    values: Seq<ValueView>,
) -> StatementView {
    StatementView { sql: replace_text(table@, texts(columns), numeric_casts(flags), keys), values }
}

fn insertion_of(
    table: &'static str,
    columns: &[&'static str],
    flags: &[bool],
    values: Vec<SqlValue>,
) -> (result: PostgresQuery)
    ensures
        result@ == insertion(table, columns@, flags@, statement::value_views(values@)),
{
    let casts = casts_for(flags);
    PostgresQuery { sql: insert_sql(table, columns, casts.as_slice()), values }
}

fn replacement_of(
    table: &'static str,
    columns: &[&'static str],
    flags: &[bool],
    keys: usize,
    values: Vec<SqlValue>,
) -> (result: PostgresQuery)
    ensures
        result@ == replacement(
            table,
            columns@,
            flags@,
            keys as nat,
            statement::value_views(values@),
        ),
{
    let casts = casts_for(flags);
    PostgresQuery { sql: replace_sql(table, columns, casts.as_slice(), keys), values }
}

/// The statement that inserts a public row, unless its family is protected.
pub open spec fn row_insertion(row: SqlStateRecord<Seq<u8>, Seq<char>>) -> Option<StatementView> {
    match row {
        SqlStateRecord::Filesystem(row) => Some(
            insertion("filesystem_records", FILESYSTEM_COLUMNS@, FILESYSTEM_NUMERIC@, filesystem_values(row)),
        ),
        SqlStateRecord::Inode(row) => Some(
            insertion("inodes", INODE_COLUMNS@, INODE_NUMERIC@, inode_values(row)),
        ),
        SqlStateRecord::ContentMetadata(row) => Some(
            insertion("content_metadata", CONTENT_METADATA_COLUMNS@, CONTENT_METADATA_NUMERIC@, content_metadata_values(row)),
        ),
        SqlStateRecord::DirectoryEntry(row) => Some(
            insertion("directory_entries", DIRECTORY_ENTRY_COLUMNS@, DIRECTORY_ENTRY_NUMERIC@, directory_entry_values(row)),
        ),
        SqlStateRecord::Open(row) => Some(
            insertion("opens", OPEN_COLUMNS@, OPEN_NUMERIC@, open_values(row)),
        ),
        SqlStateRecord::OpenPin(row) => Some(
            insertion("open_pins", OPEN_PIN_COLUMNS@, OPEN_PIN_NUMERIC@, open_pin_values(row)),
        ),
        SqlStateRecord::Orphan(row) => Some(
            insertion("orphans", ORPHAN_COLUMNS@, ORPHAN_NUMERIC@, orphan_values(row)),
        ),
        SqlStateRecord::Lock(row) => Some(
            insertion("locks", LOCK_COLUMNS@, LOCK_NUMERIC@, lock_values(row)),
        ),
        SqlStateRecord::Xattr(row) => Some(
            insertion("xattrs", XATTR_COLUMNS@, XATTR_NUMERIC@, xattr_values(row)),
        ),
        SqlStateRecord::XattrStaging(row) => Some(
            insertion("xattr_staging", XATTR_STAGING_COLUMNS@, XATTR_STAGING_NUMERIC@, xattr_staging_values(row)),
        ),
        _ => None,
    }
}

fn insert_encoded(row: SqlStateRecord) -> (result: Result<PostgresQuery, RecordWritePrepareError>)
    ensures
        match result {
            Ok(statement) => row_insertion(row@) == Some(statement@),
            Err(error) => row_insertion(row@) is None && error
                == RecordWritePrepareError::<String>::ProtectedRecordFamily,
        },
{
    match row {
        SqlStateRecord::Filesystem(row) => Ok(
            insertion_of("filesystem_records", &FILESYSTEM_COLUMNS, &FILESYSTEM_NUMERIC, bind_filesystem(row)),
        ),
        SqlStateRecord::Inode(row) => Ok(
            insertion_of("inodes", &INODE_COLUMNS, &INODE_NUMERIC, bind_inode(row)),
        ),
        SqlStateRecord::ContentMetadata(row) => Ok(
            insertion_of("content_metadata", &CONTENT_METADATA_COLUMNS, &CONTENT_METADATA_NUMERIC, bind_content_metadata(row)),
        ),
        SqlStateRecord::DirectoryEntry(row) => Ok(
            insertion_of("directory_entries", &DIRECTORY_ENTRY_COLUMNS, &DIRECTORY_ENTRY_NUMERIC, bind_directory_entry(row)),
        ),
        SqlStateRecord::Open(row) => Ok(
            insertion_of("opens", &OPEN_COLUMNS, &OPEN_NUMERIC, bind_open(row)),
        ),
        SqlStateRecord::OpenPin(row) => Ok(
            insertion_of("open_pins", &OPEN_PIN_COLUMNS, &OPEN_PIN_NUMERIC, bind_open_pin(row)),
        ),
        SqlStateRecord::Orphan(row) => Ok(
            insertion_of("orphans", &ORPHAN_COLUMNS, &ORPHAN_NUMERIC, bind_orphan(row)),
        ),
        SqlStateRecord::Lock(row) => Ok(
            insertion_of("locks", &LOCK_COLUMNS, &LOCK_NUMERIC, bind_lock(row)),
        ),
        SqlStateRecord::Xattr(row) => Ok(
            insertion_of("xattrs", &XATTR_COLUMNS, &XATTR_NUMERIC, bind_xattr(row)),
        ),
        SqlStateRecord::XattrStaging(row) => Ok(
            insertion_of("xattr_staging", &XATTR_STAGING_COLUMNS, &XATTR_STAGING_NUMERIC, bind_xattr_staging(row)),
        ),
        _ => Err(RecordWritePrepareError::ProtectedRecordFamily),
    }
}

/// The statement that replaces a public row, unless its family is protected.
pub open spec fn row_replacement(row: SqlStateRecord<Seq<u8>, Seq<char>>) -> Option<StatementView> {
    match row {
        SqlStateRecord::Filesystem(row) => Some(
            replacement("filesystem_records", FILESYSTEM_COLUMNS@, FILESYSTEM_NUMERIC@, 1, filesystem_values(row)),
        ),
        SqlStateRecord::Inode(row) => Some(
            replacement("inodes", INODE_COLUMNS@, INODE_NUMERIC@, 2, inode_values(row)),
        ),
        SqlStateRecord::ContentMetadata(row) => Some(
            replacement("content_metadata", CONTENT_METADATA_COLUMNS@, CONTENT_METADATA_NUMERIC@, 2, content_metadata_values(row)),
        ),
        SqlStateRecord::DirectoryEntry(row) => Some(
            replacement("directory_entries", DIRECTORY_ENTRY_COLUMNS@, DIRECTORY_ENTRY_NUMERIC@, 3, directory_entry_values(row)),
        ),
        SqlStateRecord::Open(row) => Some(
            replacement("opens", OPEN_COLUMNS@, OPEN_NUMERIC@, 2, open_values(row)),
        ),
        SqlStateRecord::OpenPin(row) => Some(
            replacement("open_pins", OPEN_PIN_COLUMNS@, OPEN_PIN_NUMERIC@, 3, open_pin_values(row)),
        ),
        SqlStateRecord::Orphan(row) => Some(
            replacement("orphans", ORPHAN_COLUMNS@, ORPHAN_NUMERIC@, 2, orphan_values(row)),
        ),
        SqlStateRecord::Lock(row) => Some(
            replacement("locks", LOCK_COLUMNS@, LOCK_NUMERIC@, 3, lock_values(row)),
        ),
        SqlStateRecord::Xattr(row) => Some(
            replacement("xattrs", XATTR_COLUMNS@, XATTR_NUMERIC@, 3, xattr_values(row)),
        ),
        SqlStateRecord::XattrStaging(row) => Some(
            replacement("xattr_staging", XATTR_STAGING_COLUMNS@, XATTR_STAGING_NUMERIC@, 2, xattr_staging_values(row)),
        ),
        _ => None,
    }
}

fn replace_encoded(row: SqlStateRecord) -> (result: Result<PostgresQuery, RecordWritePrepareError>)
    ensures
        match result {
            Ok(statement) => row_replacement(row@) == Some(statement@),
            Err(error) => row_replacement(row@) is None && error
                == RecordWritePrepareError::<String>::ProtectedRecordFamily,
        },
{
    match row {
        SqlStateRecord::Filesystem(row) => Ok(
            replacement_of("filesystem_records", &FILESYSTEM_COLUMNS, &FILESYSTEM_NUMERIC, 1, bind_filesystem(row)),
        ),
        SqlStateRecord::Inode(row) => Ok(
            replacement_of("inodes", &INODE_COLUMNS, &INODE_NUMERIC, 2, bind_inode(row)),
        ),
        SqlStateRecord::ContentMetadata(row) => Ok(
            replacement_of("content_metadata", &CONTENT_METADATA_COLUMNS, &CONTENT_METADATA_NUMERIC, 2, bind_content_metadata(row)),
        ),
        SqlStateRecord::DirectoryEntry(row) => Ok(
            replacement_of("directory_entries", &DIRECTORY_ENTRY_COLUMNS, &DIRECTORY_ENTRY_NUMERIC, 3, bind_directory_entry(row)),
        ),
        SqlStateRecord::Open(row) => Ok(
            replacement_of("opens", &OPEN_COLUMNS, &OPEN_NUMERIC, 2, bind_open(row)),
        ),
        SqlStateRecord::OpenPin(row) => Ok(
            replacement_of("open_pins", &OPEN_PIN_COLUMNS, &OPEN_PIN_NUMERIC, 3, bind_open_pin(row)),
        ),
        SqlStateRecord::Orphan(row) => Ok(
            replacement_of("orphans", &ORPHAN_COLUMNS, &ORPHAN_NUMERIC, 2, bind_orphan(row)),
        ),
        SqlStateRecord::Lock(row) => Ok(
            replacement_of("locks", &LOCK_COLUMNS, &LOCK_NUMERIC, 3, bind_lock(row)),
        ),
        SqlStateRecord::Xattr(row) => Ok(
            replacement_of("xattrs", &XATTR_COLUMNS, &XATTR_NUMERIC, 3, bind_xattr(row)),
        ),
        SqlStateRecord::XattrStaging(row) => Ok(
            replacement_of("xattr_staging", &XATTR_STAGING_COLUMNS, &XATTR_STAGING_NUMERIC, 2, bind_xattr_staging(row)),
        ),
        _ => Err(RecordWritePrepareError::ProtectedRecordFamily),
    }
}

/// A public row at the allocated revision, unless its family is protected.
pub open spec fn stamped(row: SqlStateRecord<Seq<u8>, Seq<char>>, revision: u64) -> Option<
    SqlStateRecord<Seq<u8>, Seq<char>>,
> {
    let text = numeric::decimal(revision as nat);
    match row {
        SqlStateRecord::Filesystem(row) => Some(
            SqlStateRecord::Filesystem(
                FilesystemRow { state_revision: text, record_revision: text, ..row },
            ),
        ),
        SqlStateRecord::Inode(row) => Some(
            SqlStateRecord::Inode(InodeRow { record_revision: text, ..row }),
        ),
        SqlStateRecord::ContentMetadata(row) => Some(
            SqlStateRecord::ContentMetadata(ContentMetadataRow { record_revision: text, ..row }),
        ),
        SqlStateRecord::DirectoryEntry(row) => Some(
            SqlStateRecord::DirectoryEntry(DirectoryEntryRow { record_revision: text, ..row }),
        ),
        SqlStateRecord::Open(row) => Some(
            SqlStateRecord::Open(OpenRow { record_revision: text, ..row }),
        ),
        SqlStateRecord::OpenPin(row) => Some(
            SqlStateRecord::OpenPin(OpenPinRow { record_revision: text, ..row }),
        ),
        SqlStateRecord::Orphan(row) => Some(
            SqlStateRecord::Orphan(OrphanRow { record_revision: text, ..row }),
        ),
        SqlStateRecord::Lock(row) => Some(
            SqlStateRecord::Lock(LockRow { record_revision: text, ..row }),
        ),
        SqlStateRecord::Xattr(row) => Some(
            SqlStateRecord::Xattr(XattrRow { record_revision: text, ..row }),
        ),
        SqlStateRecord::XattrStaging(row) => Some(
            SqlStateRecord::XattrStaging(XattrStagingRow { record_revision: text, ..row }),
        ),
        _ => None,
    }
}

/// Why a public record cannot be prepared for writing.
pub open spec fn prepare_refusal(
    key: RecordKey<Seq<u8>>,
    record: StateRecord<Seq<u8>, Seq<char>>,
) -> Option<RecordWritePrepareError<Seq<char>>> {
    match row_codec::record_failure(record::key_failure(key, record)) {
        Some(error) => Some(RecordWritePrepareError::Codec(error)),
        None => if record is Mutation || record is WriterLease {
            Some(RecordWritePrepareError::ProtectedRecordFamily)
        } else {
            None
        },
    }
}

/// Encodes a public record at the allocated revision.
pub fn prepare_public_record(key: &RecordKey, record: &StateRecord, revision: StateRevision) -> (result:
    Result<SqlStateRecord, RecordWritePrepareError>)
    requires
        row_codec::encodable(record@),
    ensures
        match result {
            Ok(row) => prepare_refusal(key@, record@) is None && stamped(
                row_codec::row_of(crate::key::key_filesystem(key@), record@),
                revision.value,
            ) == Some(row@),
            Err(error) => prepare_refusal(key@, record@) == Some(error@),
        },
{
    let row = match SqlStateRecord::encode(key, record) {
        Ok(row) => row,
        Err(error) => {
            return Err(RecordWritePrepareError::Codec(error));
        },
    };
    let allocated = encode_u64(revision.value);
    match row {
        SqlStateRecord::Filesystem(mut row) => {
            row.state_revision = copy_text(allocated.as_str());
            row.record_revision = allocated;
            Ok(SqlStateRecord::Filesystem(row))
        },
        SqlStateRecord::Inode(mut row) => {
            row.record_revision = allocated;
            Ok(SqlStateRecord::Inode(row))
        },
        SqlStateRecord::ContentMetadata(mut row) => {
            row.record_revision = allocated;
            Ok(SqlStateRecord::ContentMetadata(row))
        },
        SqlStateRecord::DirectoryEntry(mut row) => {
            row.record_revision = allocated;
            Ok(SqlStateRecord::DirectoryEntry(row))
        },
        SqlStateRecord::Open(mut row) => {
            row.record_revision = allocated;
            Ok(SqlStateRecord::Open(row))
        },
        SqlStateRecord::OpenPin(mut row) => {
            row.record_revision = allocated;
            Ok(SqlStateRecord::OpenPin(row))
        },
        SqlStateRecord::Orphan(mut row) => {
            row.record_revision = allocated;
            Ok(SqlStateRecord::Orphan(row))
        },
        SqlStateRecord::Lock(mut row) => {
            row.record_revision = allocated;
            Ok(SqlStateRecord::Lock(row))
        },
        SqlStateRecord::Xattr(mut row) => {
            row.record_revision = allocated;
            Ok(SqlStateRecord::Xattr(row))
        },
        SqlStateRecord::XattrStaging(mut row) => {
            row.record_revision = allocated;
            Ok(SqlStateRecord::XattrStaging(row))
        },
        _ => Err(RecordWritePrepareError::ProtectedRecordFamily),
    }
}

/// The row that a public record is written as.
pub open spec fn written_row(
    key: RecordKey<Seq<u8>>,
    record: StateRecord<Seq<u8>, Seq<char>>,
    revision: u64,
) -> SqlStateRecord<Seq<u8>, Seq<char>> {
    stamped(row_codec::row_of(crate::key::key_filesystem(key), record), revision)->0
}

/// The statement that inserts one public record, without upsert.
pub fn insert_record(key: &RecordKey, record: &StateRecord, revision: StateRevision) -> (result:
    Result<PostgresQuery, PostgresStateError>)
    requires
        row_codec::encodable(record@),
    ensures
        match result {
            Ok(statement) => prepare_refusal(key@, record@) is None && row_insertion(
                written_row(key@, record@, revision.value),
            ) == Some(statement@),
            Err(error) => prepare_refusal(key@, record@) is Some && error@ == prepare_failure(
                prepare_refusal(key@, record@)->0,
            ),
        },
{
    match prepare_public_record(key, record, revision) {
        Ok(row) => match insert_encoded(row) {
            Ok(statement) => Ok(statement),
            Err(error) => Err(prepare_error(error)),
        },
        Err(error) => Err(prepare_error(error)),
    }
}

/// The statement that replaces one public record by its exact key.
pub fn replace_record(key: &RecordKey, record: &StateRecord, revision: StateRevision) -> (result:
    Result<PostgresQuery, PostgresStateError>)
    requires
        row_codec::encodable(record@),
    ensures
        match result {
            Ok(statement) => prepare_refusal(key@, record@) is None && row_replacement(
                written_row(key@, record@, revision.value),
            ) == Some(statement@),
            Err(error) => prepare_refusal(key@, record@) is Some && error@ == prepare_failure(
                prepare_refusal(key@, record@)->0,
            ),
        },
{
    match prepare_public_record(key, record, revision) {
        Ok(row) => match replace_encoded(row) {
            Ok(statement) => Ok(statement),
            Err(error) => Err(prepare_error(error)),
        },
        Err(error) => Err(prepare_error(error)),
    }
}

/// A mutation row at the allocated revision.
pub open spec fn stamped_mutation(
    row: MutationRow<Seq<u8>, Seq<char>>,
    revision: u64,
) -> MutationRow<Seq<u8>, Seq<char>> {
    let text = numeric::decimal(revision as nat);
    MutationRow { committed_revision: text, record_revision: text, ..row }
}

/// Why a mutation cannot be written.
pub open spec fn mutation_refusal(
    key: RecordKey<Seq<u8>>,
    record: MutationRecord<Seq<u8>>,
) -> Option<RecordWritePrepareError<Seq<char>>> {
    match row_codec::record_failure(
        record::key_failure(key, StateRecord::Mutation(record)),
    ) {
        Some(error) => Some(RecordWritePrepareError::Codec(error)),
        None => None,
    }
}

/// The statement that writes a terminal mutation at the allocated revision.
pub fn insert_mutation_record(
    key: &RecordKey,
    record: MutationRecord,
    revision: StateRevision,
) -> (result: Result<PostgresQuery, PostgresStateError>)
    ensures
        match result {
            Ok(statement) => mutation_refusal(key@, record@) is None && statement@ == insertion(
                "mutation_results",
                MUTATION_COLUMNS@,
                MUTATION_NUMERIC@,
                mutation_values(
                    stamped_mutation(
                        row_codec::row_of(
                            crate::key::key_filesystem(key@),
                            StateRecord::Mutation(record@),
                        )->Mutation_0,
                        revision.value,
                    ),
                ),
            ),
            Err(error) => mutation_refusal(key@, record@) is Some && error@ == prepare_failure(
                mutation_refusal(key@, record@)->0,
            ),
        },
{
    let record = StateRecord::Mutation(record);
    match SqlStateRecord::encode(key, &record) {
        Ok(SqlStateRecord::Mutation(mut row)) => {
            let allocated = encode_u64(revision.value);
            row.committed_revision = copy_text(allocated.as_str());
            row.record_revision = allocated;
            Ok(
                insertion_of(
                    "mutation_results",
                    &MUTATION_COLUMNS,
                    &MUTATION_NUMERIC,
                    bind_mutation(row),
                ),
            )
        },
        Ok(_) => Err(prepare_error(RecordWritePrepareError::MutationKeyMismatch)),
        Err(error) => Err(prepare_error(RecordWritePrepareError::Codec(error))),
    }
}

/// Text that locks the row of a key.
pub open spec fn lock_text(key: RecordKey<Seq<u8>>) -> &'static str {
    match key {
        RecordKey::Filesystem(_) => "SELECT 1 FROM \"public\".\"w9pt_fs_state_filesystem_records\" WHERE \"filesystem_id\" = $1 FOR UPDATE",
        RecordKey::Inode(_, _) => "SELECT 1 FROM \"public\".\"w9pt_fs_state_inodes\" WHERE \"filesystem_id\" = $1 AND \"inode_id\" = $2 FOR UPDATE",
        RecordKey::DirectoryEntry(_, _, _) => "SELECT 1 FROM \"public\".\"w9pt_fs_state_directory_entries\" WHERE \"filesystem_id\" = $1 AND \"parent_inode_id\" = $2 AND \"name\" = $3 FOR UPDATE",
        RecordKey::Open(_, _) => "SELECT 1 FROM \"public\".\"w9pt_fs_state_opens\" WHERE \"filesystem_id\" = $1 AND \"open_id\" = $2 FOR UPDATE",
        RecordKey::OpenPin(_, _, _) => "SELECT 1 FROM \"public\".\"w9pt_fs_state_open_pins\" WHERE \"filesystem_id\" = $1 AND \"inode_id\" = $2 AND \"open_id\" = $3 FOR UPDATE",
        RecordKey::Orphan(_, _) => "SELECT 1 FROM \"public\".\"w9pt_fs_state_orphans\" WHERE \"filesystem_id\" = $1 AND \"inode_id\" = $2 FOR UPDATE",
        RecordKey::Lock(_, _, _) => "SELECT 1 FROM \"public\".\"w9pt_fs_state_locks\" WHERE \"filesystem_id\" = $1 AND \"inode_id\" = $2 AND \"lock_id\" = $3 FOR UPDATE",
        RecordKey::Xattr(_, _, _) => "SELECT 1 FROM \"public\".\"w9pt_fs_state_xattrs\" WHERE \"filesystem_id\" = $1 AND \"inode_id\" = $2 AND \"name\" = $3 FOR UPDATE",
        RecordKey::XattrStaging(_, _) => "SELECT 1 FROM \"public\".\"w9pt_fs_state_xattr_staging\" WHERE \"filesystem_id\" = $1 AND \"staging_id\" = $2 FOR UPDATE",
        RecordKey::Mutation(_, _) => "SELECT 1 FROM \"public\".\"w9pt_fs_state_mutation_results\" WHERE \"filesystem_id\" = $1 AND \"mutation_id\" = $2 FOR UPDATE",
        RecordKey::WriterLease(_, _) => "SELECT 1 FROM \"public\".\"w9pt_fs_state_writer_fences\" WHERE \"filesystem_id\" = $1 AND \"writer_scope_id\" = $2 FOR UPDATE",
        RecordKey::ContentMetadata(_, _) => "SELECT 1 FROM \"public\".\"w9pt_fs_state_content_metadata\" WHERE \"filesystem_id\" = $1 AND \"content_file_id\" = $2 FOR UPDATE",
    }
}

/// Text that deletes the row of a key of an unprotected family.
pub open spec fn delete_text(key: RecordKey<Seq<u8>>) -> &'static str {
    match key {
        RecordKey::Filesystem(_) => "DELETE FROM \"public\".\"w9pt_fs_state_filesystem_records\" WHERE \"filesystem_id\" = $1",
        RecordKey::Inode(_, _) => "DELETE FROM \"public\".\"w9pt_fs_state_inodes\" WHERE \"filesystem_id\" = $1 AND \"inode_id\" = $2",
        RecordKey::DirectoryEntry(_, _, _) => "DELETE FROM \"public\".\"w9pt_fs_state_directory_entries\" WHERE \"filesystem_id\" = $1 AND \"parent_inode_id\" = $2 AND \"name\" = $3",
        RecordKey::Open(_, _) => "DELETE FROM \"public\".\"w9pt_fs_state_opens\" WHERE \"filesystem_id\" = $1 AND \"open_id\" = $2",
        RecordKey::OpenPin(_, _, _) => "DELETE FROM \"public\".\"w9pt_fs_state_open_pins\" WHERE \"filesystem_id\" = $1 AND \"inode_id\" = $2 AND \"open_id\" = $3",
        RecordKey::Orphan(_, _) => "DELETE FROM \"public\".\"w9pt_fs_state_orphans\" WHERE \"filesystem_id\" = $1 AND \"inode_id\" = $2",
        RecordKey::Lock(_, _, _) => "DELETE FROM \"public\".\"w9pt_fs_state_locks\" WHERE \"filesystem_id\" = $1 AND \"inode_id\" = $2 AND \"lock_id\" = $3",
        RecordKey::Xattr(_, _, _) => "DELETE FROM \"public\".\"w9pt_fs_state_xattrs\" WHERE \"filesystem_id\" = $1 AND \"inode_id\" = $2 AND \"name\" = $3",
        RecordKey::XattrStaging(_, _) => "DELETE FROM \"public\".\"w9pt_fs_state_xattr_staging\" WHERE \"filesystem_id\" = $1 AND \"staging_id\" = $2",
        RecordKey::ContentMetadata(_, _) => "DELETE FROM \"public\".\"w9pt_fs_state_content_metadata\" WHERE \"filesystem_id\" = $1 AND \"content_file_id\" = $2",
        _ => "",
    }
}

/// The values that identify the row of a key.
pub open spec fn key_statement(sql: Seq<char>, key: RecordKey<Seq<u8>>) -> StatementView {
    let base = statement::text_only(sql).with_id(crate::key::key_filesystem(key).value);
    let first = match crate::key::key_first(key) {
        Some(id) => base.with_id(id),
        None => base,
    };
    match key {
        RecordKey::DirectoryEntry(_, _, name) => first.with(SqlValue::Bytes(Some(name.bytes))),
        RecordKey::Xattr(_, _, name) => first.with(SqlValue::Bytes(Some(name.bytes))),
        RecordKey::OpenPin(_, _, open_id) => first.with_id(open_id.value),
        RecordKey::Lock(_, _, lock_id) => first.with_id(lock_id.value),
        _ => first,
    }
}

/// A statement with the values that identify the row of a key.
pub fn bind_key(sql: &str, key: &RecordKey) -> (result: PostgresQuery)
    ensures
        result@ == key_statement(sql@, key@),
{
    let base = query(sql).bind_id(key.filesystem_id().value);
    let first = match key.first_identity() {
        Some(id) => base.bind_id(id),
        None => base,
    };
    match key {
        RecordKey::DirectoryEntry(_, _, name) => first.bind_bytes(&name.bytes),
        RecordKey::Xattr(_, _, name) => first.bind_bytes(&name.bytes),
        RecordKey::OpenPin(_, _, open_id) => first.bind_id(open_id.value),
        RecordKey::Lock(_, _, lock_id) => first.bind_id(lock_id.value),
        _ => first,
    }
}

/// The statement that locks the row of a key.
pub fn lock_existing_record(key: &RecordKey) -> (result: PostgresQuery)
    ensures
        result@ == key_statement(lock_text(key@)@, key@),
{
    let sql: &'static str = match key {
        RecordKey::Filesystem(_) => "SELECT 1 FROM \"public\".\"w9pt_fs_state_filesystem_records\" WHERE \"filesystem_id\" = $1 FOR UPDATE",
        RecordKey::Inode(_, _) => "SELECT 1 FROM \"public\".\"w9pt_fs_state_inodes\" WHERE \"filesystem_id\" = $1 AND \"inode_id\" = $2 FOR UPDATE",
        RecordKey::DirectoryEntry(_, _, _) => "SELECT 1 FROM \"public\".\"w9pt_fs_state_directory_entries\" WHERE \"filesystem_id\" = $1 AND \"parent_inode_id\" = $2 AND \"name\" = $3 FOR UPDATE",
        RecordKey::Open(_, _) => "SELECT 1 FROM \"public\".\"w9pt_fs_state_opens\" WHERE \"filesystem_id\" = $1 AND \"open_id\" = $2 FOR UPDATE",
        RecordKey::OpenPin(_, _, _) => "SELECT 1 FROM \"public\".\"w9pt_fs_state_open_pins\" WHERE \"filesystem_id\" = $1 AND \"inode_id\" = $2 AND \"open_id\" = $3 FOR UPDATE",
        RecordKey::Orphan(_, _) => "SELECT 1 FROM \"public\".\"w9pt_fs_state_orphans\" WHERE \"filesystem_id\" = $1 AND \"inode_id\" = $2 FOR UPDATE",
        RecordKey::Lock(_, _, _) => "SELECT 1 FROM \"public\".\"w9pt_fs_state_locks\" WHERE \"filesystem_id\" = $1 AND \"inode_id\" = $2 AND \"lock_id\" = $3 FOR UPDATE",
        RecordKey::Xattr(_, _, _) => "SELECT 1 FROM \"public\".\"w9pt_fs_state_xattrs\" WHERE \"filesystem_id\" = $1 AND \"inode_id\" = $2 AND \"name\" = $3 FOR UPDATE",
        RecordKey::XattrStaging(_, _) => "SELECT 1 FROM \"public\".\"w9pt_fs_state_xattr_staging\" WHERE \"filesystem_id\" = $1 AND \"staging_id\" = $2 FOR UPDATE",
        RecordKey::Mutation(_, _) => "SELECT 1 FROM \"public\".\"w9pt_fs_state_mutation_results\" WHERE \"filesystem_id\" = $1 AND \"mutation_id\" = $2 FOR UPDATE",
        RecordKey::WriterLease(_, _) => "SELECT 1 FROM \"public\".\"w9pt_fs_state_writer_fences\" WHERE \"filesystem_id\" = $1 AND \"writer_scope_id\" = $2 FOR UPDATE",
        RecordKey::ContentMetadata(_, _) => "SELECT 1 FROM \"public\".\"w9pt_fs_state_content_metadata\" WHERE \"filesystem_id\" = $1 AND \"content_file_id\" = $2 FOR UPDATE",
    };
    bind_key(sql, key)
}

/// What the answer to a lock statement says.
pub fn lock_presence(found: bool) -> (result: RowPresence)
    ensures
        result == (if found {
            RowPresence::Present
        } else {
            RowPresence::Absent
        }),
{
    if found {
        RowPresence::Present
    } else {
        RowPresence::Absent
    }
}

/// The statement that deletes one public record by its exact key.
pub fn delete_record(key: &RecordKey) -> (result: Result<PostgresQuery, PostgresStateError>)
    ensures
        match result {
            Ok(statement) => !(key@ is Mutation) && !(key@ is WriterLease) && statement@
                == key_statement(delete_text(key@)@, key@),
            Err(error) => (key@ is Mutation || key@ is WriterLease) && error@ == prepare_failure(
                RecordWritePrepareError::ProtectedRecordFamily,
            ),
        },
{
    let sql: &'static str = match key {
        RecordKey::Filesystem(_) => "DELETE FROM \"public\".\"w9pt_fs_state_filesystem_records\" WHERE \"filesystem_id\" = $1",
        RecordKey::Inode(_, _) => "DELETE FROM \"public\".\"w9pt_fs_state_inodes\" WHERE \"filesystem_id\" = $1 AND \"inode_id\" = $2",
        RecordKey::DirectoryEntry(_, _, _) => "DELETE FROM \"public\".\"w9pt_fs_state_directory_entries\" WHERE \"filesystem_id\" = $1 AND \"parent_inode_id\" = $2 AND \"name\" = $3",
        RecordKey::Open(_, _) => "DELETE FROM \"public\".\"w9pt_fs_state_opens\" WHERE \"filesystem_id\" = $1 AND \"open_id\" = $2",
        RecordKey::OpenPin(_, _, _) => "DELETE FROM \"public\".\"w9pt_fs_state_open_pins\" WHERE \"filesystem_id\" = $1 AND \"inode_id\" = $2 AND \"open_id\" = $3",
        RecordKey::Orphan(_, _) => "DELETE FROM \"public\".\"w9pt_fs_state_orphans\" WHERE \"filesystem_id\" = $1 AND \"inode_id\" = $2",
        RecordKey::Lock(_, _, _) => "DELETE FROM \"public\".\"w9pt_fs_state_locks\" WHERE \"filesystem_id\" = $1 AND \"inode_id\" = $2 AND \"lock_id\" = $3",
        RecordKey::Xattr(_, _, _) => "DELETE FROM \"public\".\"w9pt_fs_state_xattrs\" WHERE \"filesystem_id\" = $1 AND \"inode_id\" = $2 AND \"name\" = $3",
        RecordKey::XattrStaging(_, _) => "DELETE FROM \"public\".\"w9pt_fs_state_xattr_staging\" WHERE \"filesystem_id\" = $1 AND \"staging_id\" = $2",
        RecordKey::ContentMetadata(_, _) => "DELETE FROM \"public\".\"w9pt_fs_state_content_metadata\" WHERE \"filesystem_id\" = $1 AND \"content_file_id\" = $2",
        _ => {
            return Err(prepare_error(RecordWritePrepareError::ProtectedRecordFamily));
        },
    };
    Ok(bind_key(sql, key))
}

/// What an affected-row count of a point write says.
pub fn affected_presence(rows: u64) -> (result: Result<RowPresence, PostgresStateError>)
    ensures
        match result {
            Ok(RowPresence::Absent) => rows == 0,
            Ok(RowPresence::Present) => rows == 1,
            Err(error) => rows > 1 && error@ == failure::plain_failure(
                StateStoreOperation::Commit,
                AdapterFailureKind::Corruption,
                "",
                FailureCause::PointWrite(rows),
            ),
        },
{
    if rows == 0 {
        Ok(RowPresence::Absent)
    } else if rows == 1 {
        Ok(RowPresence::Present)
    } else {
        Err(
            PostgresStateError::new(
                StateStoreOperation::Commit,
                AdapterFailureKind::Corruption,
                "",
                FailureCause::PointWrite(rows),
            ),
        )
    }
}

} // verus!
