//! Lossless conversion between state records and plain column values.
use vstd::prelude::*;

use crate::bytes;
use crate::bytes::{be_read, copy_bytes, copy_optional_bytes, id_from_bytes};
use crate::ids::{
    ClientIncarnationId, ContentContextId, Digest, DirectoryCookie, DirectoryGeneration,
    FencingToken, FileId, FilesystemId, InodeGeneration, InodeId, InvalidValue, LeaseDeadline,
    LeaseId, LockGeneration, LockId, MutationId, MutationRetention, OpenId, QidPath,
    RecordRevision, RequestFingerprint, StateRevision, UnixTimestamp, WriterIncarnationId,
    WriterScopeId, XattrStagingId,
};
use crate::key::RecordKey;
use crate::limits::{StateLimitError, StateLimitKind, StateLimits};
use crate::numeric;
use crate::numeric::{decode_u64, encode_u64, NumericCodecError};
use crate::record;
use crate::record::{
    ContentMetadataRecord, ContentRef, DeviceNumbers, DirectoryEntryRecord, FilesystemRecord,
    InodeData, InodeKind, InodeRecord, InodeTimes, InvalidContentRef, InvalidObjectKey, LockKind,
    LockOwner, LockRange, LockRangeEnd, LockRecord, MutationRecord, MutationResult, ObjectKey,
    OpenAccess, OpenPinRecord, OpenRecord, OrphanRecord, RecordValidationError, StateRecord,
    StorageMethod, WriterLeaseRecord, XattrRecord, XattrStagingRecord,
};
use crate::rows::{
    ContentMetadataRow, DirectoryEntryRow, FilesystemRow, InodeRow, LockRow, MutationRow,
    OpenPinRow, OpenRow, OrphanRow, SqlStateRecord, WriterLeaseRow, XattrRow, XattrStagingRow,
};
use crate::text::copy_text;
use crate::values;
use crate::values::{
    BoundedValueError, EntryName, GroupId, PrincipalId, SymlinkTarget, XattrName, XattrValue,
};

verus! {

/// A plain row could not be converted losslessly.
#[derive(Clone, Debug, PartialEq, Eq)]
pub enum RowCodecError<T = String> {
    /// A fixed-width value has another length.
    FixedWidth {
        /// Column name.
        field: &'static str,
        /// Demanded bytes.
        expected: usize,
        /// Observed bytes.
        actual: usize,
    },
    /// A signed column lies outside its unsigned range.
    IntegerRange {
        /// Column name.
        field: &'static str,
        /// Observed number.
        value: i64,
    },
    /// A tag stands for nothing.
    UnknownTag {
        /// Meaning of the tag.
        field: &'static str,
        /// Observed tag.
        tag: i16,
    },
    /// A required column is absent.
    MissingField {
        /// Kind of row.
        record: &'static str,
        /// Column name.
        field: &'static str,
    },
    /// Columns do not fit each other.
    InvalidShape {
        /// Kind of row.
        record: &'static str,
        /// What is wrong.
        detail: &'static str,
    },
    /// A number is not canonical.
    Numeric(NumericCodecError<T>),
    /// A bounded value is out of bounds.
    Bounded(BoundedValueError),
    /// A checked number is out of its domain.
    InvalidValue(InvalidValue),
    /// A manifest key is malformed.
    InvalidObjectKey(InvalidObjectKey),
    /// A content reference is malformed.
    InvalidContentRef(InvalidContentRef),
    /// The fields do not form a valid record.
    InvalidRecord(RecordValidationError),
    /// The record exceeds the receiver's limits.
    Limit(StateLimitError),
}

impl View for RowCodecError<String> {
    type V = RowCodecError<Seq<char>>;

    open spec fn view(&self) -> RowCodecError<Seq<char>> {
        match self {
            RowCodecError::FixedWidth { field, expected, actual } => RowCodecError::FixedWidth {
                field: *field,
                expected: *expected,
                actual: *actual,
            },
            RowCodecError::IntegerRange { field, value } => RowCodecError::IntegerRange {
                field: *field,
                value: *value,
            },
            RowCodecError::UnknownTag { field, tag } => RowCodecError::UnknownTag {
                field: *field,
                tag: *tag,
            },
            RowCodecError::MissingField { record, field } => RowCodecError::MissingField {
                record: *record,
                field: *field,
            },
            RowCodecError::InvalidShape { record, detail } => RowCodecError::InvalidShape {
                record: *record,
                detail: *detail,
            },
            RowCodecError::Numeric(error) => RowCodecError::Numeric(error@),
            RowCodecError::Bounded(error) => RowCodecError::Bounded(*error),
            RowCodecError::InvalidValue(error) => RowCodecError::InvalidValue(*error),
            RowCodecError::InvalidObjectKey(error) => RowCodecError::InvalidObjectKey(*error),
            RowCodecError::InvalidContentRef(error) => RowCodecError::InvalidContentRef(*error),
            RowCodecError::InvalidRecord(error) => RowCodecError::InvalidRecord(*error),
            RowCodecError::Limit(error) => RowCodecError::Limit(*error),
        }
    }
}

/// Failure of one check, if it fails.
pub type Failure = Option<RowCodecError<Seq<char>>>;

/// The first failure of two checks in order.
pub open spec fn both(first: Failure, second: Failure) -> Failure {
    values::first_failure(first, second)
}

/// A fixed-width value has another length.
pub open spec fn width_failure(field: &'static str, bytes: Seq<u8>, expected: usize) -> Failure {
    if bytes.len() == expected {
        None
    } else {
        Some(RowCodecError::FixedWidth { field, expected, actual: bytes.len() as usize })
    }
}

/// A number is not canonical decimal text.
pub open spec fn number_failure(field: &'static str, text: Seq<char>) -> Failure {
    if numeric::parses(text) {
        None
    } else {
        Some(RowCodecError::Numeric(NumericCodecError { field, value: text }))
    }
}

/// A number is not canonical decimal text or is zero.
pub open spec fn nonzero_failure(field: &'static str, text: Seq<char>) -> Failure {
    if !numeric::parses(text) {
        number_failure(field, text)
    } else if numeric::parsed(text) == 0 {
        Some(RowCodecError::InvalidValue(InvalidValue::Zero))
    } else {
        None
    }
}

/// A signed number does not fit an unsigned type.
pub open spec fn range_failure(field: &'static str, value: i64, maximum: int) -> Failure {
    if 0 <= value <= maximum {
        None
    } else {
        Some(RowCodecError::IntegerRange { field, value })
    }
}

/// A required column is absent.
pub open spec fn missing_failure(record: &'static str, field: &'static str) -> Failure {
    Some(RowCodecError::MissingField { record, field })
}

/// Columns do not fit each other.
pub open spec fn shape_failure(record: &'static str, detail: &'static str) -> Failure {
    Some(RowCodecError::InvalidShape { record, detail })
}

/// A bounded value is rejected.
pub open spec fn bounded_failure(failure: Option<BoundedValueError>) -> Failure {
    match failure {
        Some(error) => Some(RowCodecError::Bounded(error)),
        None => None,
    }
}

/// A record is rejected.
pub open spec fn record_failure(failure: Option<RecordValidationError>) -> Failure {
    match failure {
        Some(error) => Some(RowCodecError::InvalidRecord(error)),
        None => None,
    }
}

/// A timestamp is out of range.
pub open spec fn timestamp_failure(field: &'static str, nanoseconds: i32) -> Failure {
    if nanoseconds < 0 {
        Some(RowCodecError::IntegerRange { field, value: nanoseconds as i64 })
    } else if nanoseconds >= 1_000_000_000 {
        Some(RowCodecError::InvalidValue(InvalidValue::Nanoseconds))
    } else {
        None
    }
}

/// The digest that thirty-two bytes spell.
pub open spec fn digest_of(bytes: Seq<u8>) -> Digest {
    Digest {
        high: bytes::id_value(bytes.subrange(0, 16)),
        low: bytes::id_value(bytes.subrange(16, 32)),
    }
}

/// The fingerprint that thirty-two bytes spell.
pub open spec fn fingerprint_of(bytes: Seq<u8>) -> RequestFingerprint {
    RequestFingerprint {
        high: bytes::id_value(bytes.subrange(0, 16)),
        low: bytes::id_value(bytes.subrange(16, 32)),
    }
}

fn fixed_id(field: &'static str, bytes: &Vec<u8>) -> (result: Result<u128, RowCodecError>)
    ensures
        match result {
            Ok(value) => width_failure(field, bytes@, 16) is None && value == bytes::id_value(
                bytes@,
            ),
            Err(error) => width_failure(field, bytes@, 16) == Some(error@),
        },
{
    if bytes.len() == 16 {
        Ok(id_from_bytes(bytes))
    } else {
        Err(RowCodecError::FixedWidth { field, expected: 16, actual: bytes.len() })
    }
}

/// Reads two identities out of exactly thirty-two bytes.
pub fn fixed_bytes(field: &'static str, bytes: &Vec<u8>) -> (result: Result<
    (u128, u128),
    RowCodecError,
>)
    ensures
        match result {
            Ok(halves) => width_failure(field, bytes@, 32) is None && halves.0 == digest_of(
                bytes@,
            ).high && halves.1 == digest_of(bytes@).low,
            Err(error) => width_failure(field, bytes@, 32) == Some(error@),
        },
{
    if bytes.len() == 32 {
        Ok((be_read(bytes, 0), be_read(bytes, 16)))
    } else {
        Err(RowCodecError::FixedWidth { field, expected: 32, actual: bytes.len() })
    }
}

/// Reads a canonical number.
pub fn decode_u64_value(field: &'static str, value: &String) -> (result: Result<
    u64,
    RowCodecError,
>)
    ensures
        match result {
            Ok(number) => number_failure(field, value@) is None && number == numeric::parsed(
                value@,
            ),
            Err(error) => number_failure(field, value@) == Some(error@),
        },
{
    match decode_u64(field, value.as_str()) {
        Ok(number) => Ok(number),
        Err(error) => Err(RowCodecError::Numeric(error)),
    }
}

fn decode_nonzero(field: &'static str, value: &String) -> (result: Result<u64, RowCodecError>)
    ensures
        match result {
            Ok(number) => nonzero_failure(field, value@) is None && number == numeric::parsed(
                value@,
            ),
            Err(error) => nonzero_failure(field, value@) == Some(error@),
        },
{
    let number: u64 = decode_u64_value(field, value)?;
    if number == 0 {
        Err(RowCodecError::InvalidValue(InvalidValue::Zero))
    } else {
        Ok(number)
    }
}

/// Narrows a signed column to `u32`.
pub fn decode_u32(field: &'static str, value: i64) -> (result: Result<u32, RowCodecError>)
    ensures
        match result {
            Ok(number) => range_failure(field, value, u32::MAX as int) is None && number == value,
            Err(error) => range_failure(field, value, u32::MAX as int) == Some(error@),
        },
{
    if value < 0 || value > u32::MAX as i64 {
        Err(RowCodecError::IntegerRange { field, value })
    } else {
        Ok(value as u32)
    }
}

/// Narrows a signed column to `u16`.
pub fn decode_u16(field: &'static str, value: i64) -> (result: Result<u16, RowCodecError>)
    ensures
        match result {
            Ok(number) => range_failure(field, value, u16::MAX as int) is None && number == value,
            Err(error) => range_failure(field, value, u16::MAX as int) == Some(error@),
        },
{
    if value < 0 || value > u16::MAX as i64 {
        Err(RowCodecError::IntegerRange { field, value })
    } else {
        Ok(value as u16)
    }
}

fn decode_timestamp(
    nanoseconds_field: &'static str,
    seconds: i64,
    nanoseconds: i32,
) -> (result: Result<UnixTimestamp, RowCodecError>)
    ensures
        match result {
            Ok(time) => timestamp_failure(nanoseconds_field, nanoseconds) is None && time == (
            UnixTimestamp { seconds, nanoseconds: nanoseconds as u32 }),
            Err(error) => timestamp_failure(nanoseconds_field, nanoseconds) == Some(error@),
        },
{
    let checked: u32 = decode_u32(nanoseconds_field, nanoseconds as i64)?;
    match UnixTimestamp::new(seconds, checked) {
        Ok(time) => Ok(time),
        Err(error) => Err(RowCodecError::InvalidValue(error)),
    }
}

/// Demands an optional column.
pub fn required<'a, V>(record: &'static str, field: &'static str, value: &'a Option<V>) -> (result:
    Result<&'a V, RowCodecError>)
    ensures
        match result {
            Ok(present) => *value == Some(*present),
            Err(error) => value is None && missing_failure(record, field) == Some(error@),
        },
{
    match value {
        Some(present) => Ok(present),
        None => Err(RowCodecError::MissingField { record, field }),
    }
}

/// Demands that the columns of an inode row fit its kind.
pub fn require_inode_shape(record: &'static str, valid: bool) -> (result: Result<(), RowCodecError>)
    ensures
        match result {
            Ok(()) => valid,
            Err(error) => !valid && shape_failure("inode", record) == Some(error@),
        },
{
    if valid {
        Ok(())
    } else {
        Err(RowCodecError::InvalidShape { record: "inode", detail: record })
    }
}

/// No column of regular-file content is present.
pub open spec fn content_absent<B, T>(row: InodeRow<B, T>) -> bool {
    &&& row.content_file_id is None
    &&& row.content_context_id is None
    &&& row.data_generation is None
    &&& row.content_generation is None
    &&& row.content_logical_size is None
    &&& row.content_manifest_key is None
    &&& row.content_manifest_digest is None
    &&& row.content_storage_method is None
}

/// Exactly the named groups of kind-specific columns are present.
pub open spec fn kind_columns<B, T>(
    row: InodeRow<B, T>,
    directory: bool,
    symlink: bool,
    device: bool,
) -> bool {
    &&& (row.directory_generation is Some) == directory
    &&& (row.directory_parent_inode_id is Some) == directory
    &&& (row.symlink_target is Some) == symlink
    &&& (row.device_major is Some) == device
    &&& (row.device_minor is Some) == device
}

/// Whether no column of regular-file content is present.
pub fn content_values_absent(row: &InodeRow) -> (result: bool)
    ensures
        result == content_absent(row@),
{
    row.content_file_id.is_none() && row.content_context_id.is_none()
        && row.data_generation.is_none() && row.content_generation.is_none()
        && row.content_logical_size.is_none() && row.content_manifest_key.is_none()
        && row.content_manifest_digest.is_none() && row.content_storage_method.is_none()
}

/// Whether no kind-specific column is present.
pub fn no_kind_specific_values(row: &InodeRow) -> (result: bool)
    ensures
        result == (content_absent(row@) && kind_columns(row@, false, false, false)),
{
    content_values_absent(row) && row.directory_generation.is_none()
        && row.directory_parent_inode_id.is_none() && row.symlink_target.is_none()
        && row.device_major.is_none() && row.device_minor.is_none()
}

/// Whether exactly the directory columns are present.
pub fn only_directory_generation(row: &InodeRow) -> (result: bool)
    ensures
        result == (content_absent(row@) && kind_columns(row@, true, false, false)),
{
    content_values_absent(row) && row.directory_generation.is_some()
        && row.directory_parent_inode_id.is_some() && row.symlink_target.is_none()
        && row.device_major.is_none() && row.device_minor.is_none()
}

/// Whether exactly the symbolic-link column is present.
pub fn only_symlink_target(row: &InodeRow) -> (result: bool)
    ensures
        result == (content_absent(row@) && kind_columns(row@, false, true, false)),
{
    content_values_absent(row) && row.directory_generation.is_none()
        && row.directory_parent_inode_id.is_none() && row.symlink_target.is_some()
        && row.device_major.is_none() && row.device_minor.is_none()
}

/// Whether exactly the device columns are present.
pub fn only_device_numbers(row: &InodeRow) -> (result: bool)
    ensures
        result == (content_absent(row@) && kind_columns(row@, false, false, true)),
{
    content_values_absent(row) && row.directory_generation.is_none()
        && row.directory_parent_inode_id.is_none() && row.symlink_target.is_none()
        && row.device_major.is_some() && row.device_minor.is_some()
}

/// Tag of an access mode.
pub open spec fn access_tag(access: OpenAccess) -> i16 {
    match access {
        OpenAccess::ReadOnly => 1,
        OpenAccess::WriteOnly => 2,
        OpenAccess::ReadWrite => 3,
        OpenAccess::DirectoryRead => 4,
    }
}

/// Tag of a lock mode.
pub open spec fn lock_tag(kind: LockKind) -> i16 {
    match kind {
        LockKind::Shared => 1,
        LockKind::Exclusive => 2,
    }
}

/// Tag of a storage method.
pub open spec fn storage_tag(method: StorageMethod) -> i16 {
    match method {
        StorageMethod::Raw => 1,
        StorageMethod::BlockSplit => 2,
    }
}

/// Tag of an inode kind.
pub open spec fn kind_tag(kind: InodeKind) -> i16 {
    match kind {
        InodeKind::RegularFile => 1,
        InodeKind::Directory => 2,
        InodeKind::Symlink => 3,
        InodeKind::CharacterDevice => 4,
        InodeKind::BlockDevice => 5,
        InodeKind::Fifo => 6,
        InodeKind::Socket => 7,
    }
}

/// The access mode of a tag.
pub open spec fn tagged_access(tag: i16) -> OpenAccess {
    if tag == 1 {
        OpenAccess::ReadOnly
    } else if tag == 2 {
        OpenAccess::WriteOnly
    } else if tag == 3 {
        OpenAccess::ReadWrite
    } else {
        OpenAccess::DirectoryRead
    }
}

/// The lock mode of a tag.
pub open spec fn tagged_lock(tag: i16) -> LockKind {
    if tag == 1 {
        LockKind::Shared
    } else {
        LockKind::Exclusive
    }
}

/// The storage method of a tag.
pub open spec fn tagged_storage(tag: i16) -> StorageMethod {
    if tag == 1 {
        StorageMethod::Raw
    } else {
        StorageMethod::BlockSplit
    }
}

/// A tag lies outside `1..=maximum`.
pub open spec fn tag_failure(field: &'static str, tag: i16, maximum: i16) -> Failure {
    if 1 <= tag <= maximum {
        None
    } else {
        Some(RowCodecError::UnknownTag { field, tag })
    }
}

/// Tag of an access mode.
pub fn encode_open_access(access: OpenAccess) -> (result: i16)
    ensures
        result == access_tag(access),
{
    match access {
        OpenAccess::ReadOnly => 1,
        OpenAccess::WriteOnly => 2,
        OpenAccess::ReadWrite => 3,
        OpenAccess::DirectoryRead => 4,
    }
}

fn decode_open_access(tag: i16) -> (result: Result<OpenAccess, RowCodecError>)
    ensures
        match result {
            Ok(access) => tag_failure("open access", tag, 4) is None && access == tagged_access(
                tag,
            ),
            Err(error) => tag_failure("open access", tag, 4) == Some(error@),
        },
{
    if tag == 1 {
        Ok(OpenAccess::ReadOnly)
    } else if tag == 2 {
        Ok(OpenAccess::WriteOnly)
    } else if tag == 3 {
        Ok(OpenAccess::ReadWrite)
    } else if tag == 4 {
        Ok(OpenAccess::DirectoryRead)
    } else {
        Err(RowCodecError::UnknownTag { field: "open access", tag })
    }
}

/// Tag of a lock mode.
pub fn encode_lock_kind(kind: LockKind) -> (result: i16)
    ensures
        result == lock_tag(kind),
{
    match kind {
        LockKind::Shared => 1,
        LockKind::Exclusive => 2,
    }
}

fn decode_lock_kind(tag: i16) -> (result: Result<LockKind, RowCodecError>)
    ensures
        match result {
            Ok(kind) => tag_failure("lock kind", tag, 2) is None && kind == tagged_lock(tag),
            Err(error) => tag_failure("lock kind", tag, 2) == Some(error@),
        },
{
    if tag == 1 {
        Ok(LockKind::Shared)
    } else if tag == 2 {
        Ok(LockKind::Exclusive)
    } else {
        Err(RowCodecError::UnknownTag { field: "lock kind", tag })
    }
}

/// Tag of a storage method.
pub fn encode_storage_method(method: StorageMethod) -> (result: i16)
    ensures
        result == storage_tag(method),
{
    match method {
        StorageMethod::Raw => 1,
        StorageMethod::BlockSplit => 2,
    }
}

fn decode_storage_method(tag: i16) -> (result: Result<StorageMethod, RowCodecError>)
    ensures
        match result {
            Ok(method) => tag_failure("content storage method", tag, 2) is None && method
                == tagged_storage(tag),
            Err(error) => tag_failure("content storage method", tag, 2) == Some(error@),
        },
{
    if tag == 1 {
        Ok(StorageMethod::Raw)
    } else if tag == 2 {
        Ok(StorageMethod::BlockSplit)
    } else {
        Err(RowCodecError::UnknownTag { field: "content storage method", tag })
    }
}

/// Why the kind-specific columns of an inode row are rejected.
pub open spec fn inode_data_failure(
    row: InodeRow<Seq<u8>, Seq<char>>,
    limits: StateLimits,
) -> Failure {
    if row.kind == 1 {
        if !kind_columns(row, false, false, false) {
            shape_failure("inode", "regular file")
        } else if row.content_file_id is None {
            missing_failure("regular file", "content_file_id")
        } else if row.content_file_id->0.len() != 16 {
            width_failure("content_file_id", row.content_file_id->0, 16)
        } else if row.data_generation is None {
            missing_failure("regular file", "data_generation")
        } else {
            both(
                number_failure("data_generation", row.data_generation->0),
                content_failure(row),
            )
        }
    } else if row.kind == 2 {
        if !(content_absent(row) && kind_columns(row, true, false, false)) {
            shape_failure("inode", "directory")
        } else {
            both(
                nonzero_failure("directory_generation", row.directory_generation->0),
                width_failure("directory_parent_inode_id", row.directory_parent_inode_id->0, 16),
            )
        }
    } else if row.kind == 3 {
        if !(content_absent(row) && kind_columns(row, false, true, false)) {
            shape_failure("inode", "symlink")
        } else {
            bounded_failure(values::symlink_target_failure(row.symlink_target->0, limits))
        }
    } else if row.kind == 4 || row.kind == 5 {
        if !(content_absent(row) && kind_columns(row, false, false, true)) {
            shape_failure("inode", "device")
        } else {
            both(
                range_failure("device_major", row.device_major->0, u32::MAX as int),
                range_failure("device_minor", row.device_minor->0, u32::MAX as int),
            )
        }
    } else if row.kind == 6 || row.kind == 7 {
        if !(content_absent(row) && kind_columns(row, false, false, false)) {
            shape_failure("inode", "special inode")
        } else {
            None
        }
    } else {
        Some(RowCodecError::UnknownTag { field: "inode kind", tag: row.kind })
    }
}

/// All five content columns are absent.
pub open spec fn no_content<B, T>(row: InodeRow<B, T>) -> bool {
    &&& row.content_generation is None
    &&& row.content_logical_size is None
    &&& row.content_manifest_key is None
    &&& row.content_manifest_digest is None
    &&& row.content_storage_method is None
}

/// All five content columns are present.
pub open spec fn full_content<B, T>(row: InodeRow<B, T>) -> bool {
    &&& row.content_generation is Some
    &&& row.content_logical_size is Some
    &&& row.content_manifest_key is Some
    &&& row.content_manifest_digest is Some
    &&& row.content_storage_method is Some
}

/// Why the content columns of a regular file are rejected.
pub open spec fn content_failure(row: InodeRow<Seq<u8>, Seq<char>>) -> Failure {
    if no_content(row) {
        None
    } else if !full_content(row) {
        shape_failure("inode", "content reference fields are only partially present")
    } else {
        both(
            number_failure("content_generation", row.content_generation->0),
            both(
                number_failure("content_logical_size", row.content_logical_size->0),
                both(
                    match record::object_key_failure(row.content_manifest_key->0) {
                        Some(error) => Some(RowCodecError::InvalidObjectKey(error)),
                        None => None,
                    },
                    both(
                        width_failure(
                            "content_manifest_digest",
                            row.content_manifest_digest->0,
                            32,
                        ),
                        both(
                            tag_failure("content storage method", row.content_storage_method->0, 2),
                            if numeric::parsed(row.content_generation->0) == 0 {
                                Some(
                                    RowCodecError::InvalidContentRef(
                                        InvalidContentRef::ZeroGeneration,
                                    ),
                                )
                            } else {
                                None
                            },
                        ),
                    ),
                ),
            ),
        )
    }
}

/// The content reference that the columns spell.
pub open spec fn row_content(row: InodeRow<Seq<u8>, Seq<char>>) -> Option<ContentRef<Seq<char>>> {
    if no_content(row) {
        None
    } else {
        Some(
            ContentRef {
                file_id: FileId { value: bytes::id_value(row.content_file_id->0) },
                generation: numeric::parsed(row.content_generation->0),
                logical_size: numeric::parsed(row.content_logical_size->0),
                manifest_key: ObjectKey { text: row.content_manifest_key->0 },
                manifest_digest: digest_of(row.content_manifest_digest->0),
                method: tagged_storage(row.content_storage_method->0),
            },
        )
    }
}

/// The kind-specific data that the columns spell.
pub open spec fn row_data(row: InodeRow<Seq<u8>, Seq<char>>) -> InodeData<Seq<u8>, Seq<char>> {
    if row.kind == 1 {
        InodeData::RegularFile {
            content_file_id: FileId { value: bytes::id_value(row.content_file_id->0) },
            content: row_content(row),
            data_generation: numeric::parsed(row.data_generation->0),
        }
    } else if row.kind == 2 {
        InodeData::Directory {
            generation: DirectoryGeneration {
                value: numeric::parsed(row.directory_generation->0),
            },
            parent_inode_id: InodeId { value: bytes::id_value(row.directory_parent_inode_id->0) },
        }
    } else if row.kind == 3 {
        InodeData::Symlink { target: SymlinkTarget { bytes: row.symlink_target->0 } }
    } else if row.kind == 4 {
        InodeData::CharacterDevice(
            DeviceNumbers { major: row.device_major->0 as u32, minor: row.device_minor->0 as u32 },
        )
    } else if row.kind == 5 {
        InodeData::BlockDevice(
            DeviceNumbers { major: row.device_major->0 as u32, minor: row.device_minor->0 as u32 },
        )
    } else if row.kind == 6 {
        InodeData::Fifo
    } else {
        InodeData::Socket
    }
}

/// Reads the content reference of a regular-file row.
fn decode_content(row: &InodeRow, content_file_id: FileId) -> (result: Result<
    Option<ContentRef>,
    RowCodecError,
>)
    requires
        row@.content_file_id is Some,
        content_file_id.value == bytes::id_value(row@.content_file_id->0),
    ensures
        match result {
            Ok(content) => content_failure(row@) is None && record::optional_content(content)
                == row_content(row@),
            Err(error) => content_failure(row@) == Some(error@),
        },
{
    match (
        &row.content_generation,
        &row.content_logical_size,
        &row.content_manifest_key,
        &row.content_manifest_digest,
        &row.content_storage_method,
    ) {
        (None, None, None, None, None) => Ok(None),
        (Some(generation), Some(logical_size), Some(manifest_key), Some(digest), Some(method)) => {
            let generation: u64 = decode_u64_value("content_generation", generation)?;
            let logical_size: u64 = decode_u64_value("content_logical_size", logical_size)?;
            let manifest_key = match ObjectKey::new(copy_text(manifest_key.as_str())) {
                Ok(key) => key,
                Err(error) => {
                    return Err(RowCodecError::InvalidObjectKey(error));
                },
            };
            let halves = fixed_bytes("content_manifest_digest", digest)?;
            let method = decode_storage_method(*method)?;
            match ContentRef::from_persisted(
                content_file_id,
                generation,
                logical_size,
                manifest_key,
                Digest { high: halves.0, low: halves.1 },
                method,
            ) {
                Ok(content) => Ok(Some(content)),
                Err(error) => Err(RowCodecError::InvalidContentRef(error)),
            }
        },
        _ => Err(
            RowCodecError::InvalidShape {
                record: "inode",
                detail: "content reference fields are only partially present",
            },
        ),
    }
}

/// Reads the kind-specific data of an inode row.
pub fn decode_inode_data(row: &InodeRow, limits: StateLimits) -> (result: Result<
    InodeData,
    RowCodecError,
>)
    ensures
        match result {
            Ok(data) => inode_data_failure(row@, limits) is None && data@ == row_data(row@),
            Err(error) => inode_data_failure(row@, limits) == Some(error@),
        },
{
    if row.kind == 1 {
        require_inode_shape(
            "regular file",
            row.directory_generation.is_none() && row.directory_parent_inode_id.is_none()
                && row.symlink_target.is_none() && row.device_major.is_none()
                && row.device_minor.is_none(),
        )?;
        let content_file = required("regular file", "content_file_id", &row.content_file_id)?;
        let content_file_id = FileId { value: fixed_id("content_file_id", content_file)? };
        let data_generation: u64 = decode_u64_value(
            "data_generation",
            required("regular file", "data_generation", &row.data_generation)?,
        )?;
        let content = decode_content(row, content_file_id)?;
        Ok(InodeData::RegularFile { content_file_id, content, data_generation })
    } else if row.kind == 2 {
        require_inode_shape("directory", only_directory_generation(row))?;
        let generation: u64 = decode_nonzero(
            "directory_generation",
            required("directory", "directory_generation", &row.directory_generation)?,
        )?;
        let parent: u128 = fixed_id(
            "directory_parent_inode_id",
            required("directory", "directory_parent_inode_id", &row.directory_parent_inode_id)?,
        )?;
        Ok(
            InodeData::Directory {
                generation: DirectoryGeneration { value: generation },
                parent_inode_id: InodeId { value: parent },
            },
        )
    } else if row.kind == 3 {
        require_inode_shape("symlink", only_symlink_target(row))?;
        let target = required("symlink", "symlink_target", &row.symlink_target)?;
        match SymlinkTarget::new(copy_bytes(target), limits) {
            Ok(target) => Ok(InodeData::Symlink { target }),
            Err(error) => Err(RowCodecError::Bounded(error)),
        }
    } else if row.kind == 4 || row.kind == 5 {
        require_inode_shape("device", only_device_numbers(row))?;
        let major: u32 = decode_u32(
            "device_major",
            *required("device", "device_major", &row.device_major)?,
        )?;
        let minor: u32 = decode_u32(
            "device_minor",
            *required("device", "device_minor", &row.device_minor)?,
        )?;
        let device = DeviceNumbers { major, minor };
        if row.kind == 4 {
            Ok(InodeData::CharacterDevice(device))
        } else {
            Ok(InodeData::BlockDevice(device))
        }
    } else if row.kind == 6 || row.kind == 7 {
        require_inode_shape("special inode", no_kind_specific_values(row))?;
        if row.kind == 6 {
            Ok(InodeData::Fifo)
        } else {
            Ok(InodeData::Socket)
        }
    } else {
        Err(RowCodecError::UnknownTag { field: "inode kind", tag: row.kind })
    }
}

/// Why a signed column is no nonzero sixteen-bit code.
pub open spec fn code_failure(field: &'static str, value: i32) -> Failure {
    both(
        range_failure(field, value as i64, u16::MAX as int),
        if value == 0 {
            Some(RowCodecError::Bounded(BoundedValueError::Zero))
        } else {
            None
        },
    )
}

fn decode_code(field: &'static str, value: i32) -> (result: Result<u16, RowCodecError>)
    ensures
        match result {
            Ok(code) => code_failure(field, value) is None && code == value,
            Err(error) => code_failure(field, value) == Some(error@),
        },
{
    let code: u16 = decode_u16(field, value as i64)?;
    if code == 0 {
        Err(RowCodecError::Bounded(BoundedValueError::Zero))
    } else {
        Ok(code)
    }
}

/// Why a filesystem row is rejected.
pub open spec fn filesystem_row_failure(row: FilesystemRow<Seq<u8>, Seq<char>>) -> Failure {
    both(
        width_failure("filesystem_id", row.filesystem_id, 16),
        both(
        nonzero_failure("state_revision", row.state_revision),
        both(
        nonzero_failure("record_revision", row.record_revision),
        both(
        width_failure("root_inode_id", row.root_inode_id, 16),
        both(
        nonzero_failure("next_qid_path", row.next_qid_path),
        both(
        number_failure("next_directory_cookie", row.next_directory_cookie),
        both(
        number_failure("policy_generation", row.policy_generation),
        record_failure(record::filesystem_failure(filesystem_row_record(row))),
    ),
    ),
    ),
    ),
    ),
    ),
    )
}

/// The record that a filesystem row spells.
pub open spec fn filesystem_row_record(row: FilesystemRow<Seq<u8>, Seq<char>>) -> FilesystemRecord {
    FilesystemRecord {
        filesystem_id: FilesystemId { value: bytes::id_value(row.filesystem_id) },
        revision: StateRevision { value: numeric::parsed(row.state_revision) },
        record_revision: RecordRevision { value: numeric::parsed(row.record_revision) },
        root_inode_id: InodeId { value: bytes::id_value(row.root_inode_id) },
        next_qid_path: QidPath { value: numeric::parsed(row.next_qid_path) },
        next_directory_cookie: DirectoryCookie { value: numeric::parsed(row.next_directory_cookie) },
        policy_generation: numeric::parsed(row.policy_generation),
    }
}

fn decode_filesystem(row: &FilesystemRow) -> (result: Result<(RecordKey, StateRecord), RowCodecError>)
    ensures
        match result {
            Ok(pair) => {
                &&& filesystem_row_failure(row@) is None
                &&& pair.0@ == record::record_key(
                    FilesystemId { value: bytes::id_value(row@.filesystem_id) },
                    pair.1@,
                )
                &&& pair.1@ == StateRecord::Filesystem::<Seq<u8>, Seq<char>>(filesystem_row_record(row@))
            },
            Err(error) => filesystem_row_failure(row@) == Some(error@),
        },
{
    let filesystem_id = FilesystemId { value: fixed_id("filesystem_id", &row.filesystem_id)? };
    let record = FilesystemRecord {
        filesystem_id,
        revision: StateRevision { value: decode_nonzero("state_revision", &row.state_revision)? },
        record_revision: RecordRevision { value: decode_nonzero("record_revision", &row.record_revision)? },
        root_inode_id: InodeId { value: fixed_id("root_inode_id", &row.root_inode_id)? },
        next_qid_path: QidPath { value: decode_nonzero("next_qid_path", &row.next_qid_path)? },
        next_directory_cookie: DirectoryCookie { value: decode_u64_value("next_directory_cookie", &row.next_directory_cookie)? },
        policy_generation: decode_u64_value("policy_generation", &row.policy_generation)?,
    };
    match record.checked() {
        Ok(record) => Ok((RecordKey::Filesystem(filesystem_id), StateRecord::Filesystem(record))),
        Err(error) => Err(RowCodecError::InvalidRecord(error)),
    }
}

/// Why a directory-entry row is rejected.
pub open spec fn directory_entry_row_failure(row: DirectoryEntryRow<Seq<u8>, Seq<char>>, limits: StateLimits) -> Failure {
    both(
        width_failure("filesystem_id", row.filesystem_id, 16),
        both(
        width_failure("parent_inode_id", row.parent_inode_id, 16),
        both(
        bounded_failure(values::entry_name_failure(row.name, limits)),
        both(
        number_failure("cookie", row.cookie),
        both(
        width_failure("child_inode_id", row.child_inode_id, 16),
        both(
        nonzero_failure("record_revision", row.record_revision),
        if numeric::parsed(row.cookie) == 0 {
            record_failure(Some(RecordValidationError::ZeroDirectoryCookie))
        } else {
            None
        },
    ),
    ),
    ),
    ),
    ),
    )
}

/// The record that a directory-entry row spells.
pub open spec fn directory_entry_row_record(row: DirectoryEntryRow<Seq<u8>, Seq<char>>) -> DirectoryEntryRecord<Seq<u8>> {
    DirectoryEntryRecord {
        parent_inode_id: InodeId { value: bytes::id_value(row.parent_inode_id) },
        name: EntryName { bytes: row.name },
        cookie: DirectoryCookie { value: numeric::parsed(row.cookie) },
        child_inode_id: InodeId { value: bytes::id_value(row.child_inode_id) },
        revision: RecordRevision { value: numeric::parsed(row.record_revision) },
    }
}

fn decode_directory_entry(row: &DirectoryEntryRow, limits: StateLimits) -> (result: Result<(RecordKey, StateRecord), RowCodecError>)
    ensures
        match result {
            Ok(pair) => {
                &&& directory_entry_row_failure(row@, limits) is None
                &&& pair.0@ == record::record_key(
                    FilesystemId { value: bytes::id_value(row@.filesystem_id) },
                    pair.1@,
                )
                &&& pair.1@ == StateRecord::DirectoryEntry::<Seq<u8>, Seq<char>>(directory_entry_row_record(row@))
            },
            Err(error) => directory_entry_row_failure(row@, limits) == Some(error@),
        },
{
    let filesystem_id = FilesystemId { value: fixed_id("filesystem_id", &row.filesystem_id)? };
    let parent_inode_id = InodeId { value: fixed_id("parent_inode_id", &row.parent_inode_id)? };
    let name = match EntryName::new(copy_bytes(&row.name), limits) {
        Ok(name) => name,
        Err(error) => {
            return Err(RowCodecError::Bounded(error));
        },
    };
    let record = DirectoryEntryRecord {
        parent_inode_id,
        name: name.copied(),
        cookie: DirectoryCookie { value: decode_u64_value("cookie", &row.cookie)? },
        child_inode_id: InodeId { value: fixed_id("child_inode_id", &row.child_inode_id)? },
        revision: RecordRevision { value: decode_nonzero("record_revision", &row.record_revision)? },
    };
    if record.cookie.value == 0 {
        return Err(RowCodecError::InvalidRecord(RecordValidationError::ZeroDirectoryCookie));
    }
    Ok(
        (
            RecordKey::DirectoryEntry(filesystem_id, parent_inode_id, name),
            StateRecord::DirectoryEntry(record),
        ),
    )
}

/// Why a content-metadata row is rejected.
pub open spec fn content_metadata_row_failure(row: ContentMetadataRow<Seq<u8>, Seq<char>>) -> Failure {
    both(
        width_failure("filesystem_id", row.filesystem_id, 16),
        both(
        width_failure("content_file_id", row.content_file_id, 16),
        both(
        width_failure("owner_inode_id", row.owner_inode_id, 16),
        both(
        width_failure("context_id", row.context_id, 16),
        both(
        range_failure("policy_format", row.policy_format as i64, u16::MAX as int),
        both(
        match row.key_commitment {
            Some(commitment) => width_failure("key_commitment", commitment, 32),
            None => None,
        },
        both(
        nonzero_failure("record_revision", row.record_revision),
        if record::content_metadata_valid(content_metadata_row_record(row)) {
            None
        } else {
            shape_failure("content metadata", "opaque content metadata failed validation")
        },
    ),
    ),
    ),
    ),
    ),
    ),
    )
}

/// The record that a content-metadata row spells.
pub open spec fn content_metadata_row_record(row: ContentMetadataRow<Seq<u8>, Seq<char>>) -> ContentMetadataRecord<Seq<u8>> {
    ContentMetadataRecord {
        owner_inode_id: InodeId { value: bytes::id_value(row.owner_inode_id) },
        content_file_id: FileId { value: bytes::id_value(row.content_file_id) },
        context_id: ContentContextId { value: bytes::id_value(row.context_id) },
        policy_format: row.policy_format as u16,
        policy_bytes: row.policy_bytes,
        key_commitment: match row.key_commitment {
            Some(commitment) => Some(digest_of(commitment)),
            None => None,
        },
        wrapped_key_bytes: row.wrapped_key_bytes,
        revision: RecordRevision { value: numeric::parsed(row.record_revision) },
    }
}

fn decode_content_metadata(row: &ContentMetadataRow) -> (result: Result<(RecordKey, StateRecord), RowCodecError>)
    ensures
        match result {
            Ok(pair) => {
                &&& content_metadata_row_failure(row@) is None
                &&& pair.0@ == record::record_key(
                    FilesystemId { value: bytes::id_value(row@.filesystem_id) },
                    pair.1@,
                )
                &&& pair.1@ == StateRecord::ContentMetadata::<Seq<u8>, Seq<char>>(content_metadata_row_record(row@))
            },
            Err(error) => content_metadata_row_failure(row@) == Some(error@),
        },
{
    let filesystem_id = FilesystemId { value: fixed_id("filesystem_id", &row.filesystem_id)? };
    let content_file_id = FileId { value: fixed_id("content_file_id", &row.content_file_id)? };
    let owner_inode_id = InodeId { value: fixed_id("owner_inode_id", &row.owner_inode_id)? };
    let context_id = ContentContextId { value: fixed_id("context_id", &row.context_id)? };
    let policy_format: u16 = decode_u16("policy_format", row.policy_format as i64)?;
    let key_commitment = match &row.key_commitment {
        Some(commitment) => {
            let halves = fixed_bytes("key_commitment", commitment)?;
            Some(Digest { high: halves.0, low: halves.1 })
        },
        None => None,
    };
    let record = ContentMetadataRecord {
        owner_inode_id,
        content_file_id,
        context_id,
        policy_format,
        policy_bytes: copy_bytes(&row.policy_bytes),
        key_commitment,
        wrapped_key_bytes: copy_optional_bytes(&row.wrapped_key_bytes),
        revision: RecordRevision { value: decode_nonzero("record_revision", &row.record_revision)? },
    };
    if record.key_commitment.is_some() != record.wrapped_key_bytes.is_some() {
        return Err(
            RowCodecError::InvalidShape {
                record: "content metadata",
                detail: "opaque content metadata failed validation",
            },
        );
    }
    Ok(
        (
            RecordKey::ContentMetadata(filesystem_id, content_file_id),
            StateRecord::ContentMetadata(record),
        ),
    )
}

/// Why an open row is rejected.
pub open spec fn open_row_failure(row: OpenRow<Seq<u8>, Seq<char>>) -> Failure {
    both(
        width_failure("filesystem_id", row.filesystem_id, 16),
        both(
        width_failure("open_id", row.open_id, 16),
        both(
        width_failure("inode_id", row.inode_id, 16),
        both(
        width_failure("client_incarnation_id", row.client_incarnation_id, 16),
        both(
        tag_failure("open access", row.access, 4),
        both(
        nonzero_failure("retained_inode_generation", row.retained_inode_generation),
        nonzero_failure("record_revision", row.record_revision),
    ),
    ),
    ),
    ),
    ),
    )
}

/// The record that an open row spells.
pub open spec fn open_row_record(row: OpenRow<Seq<u8>, Seq<char>>) -> OpenRecord {
    OpenRecord {
        open_id: OpenId { value: bytes::id_value(row.open_id) },
        inode_id: InodeId { value: bytes::id_value(row.inode_id) },
        client_incarnation: ClientIncarnationId { value: bytes::id_value(row.client_incarnation_id) },
        access: tagged_access(row.access),
        append: row.append,
        retained_inode_generation: InodeGeneration { value: numeric::parsed(row.retained_inode_generation) },
        revision: RecordRevision { value: numeric::parsed(row.record_revision) },
    }
}

fn decode_open(row: &OpenRow) -> (result: Result<(RecordKey, StateRecord), RowCodecError>)
    ensures
        match result {
            Ok(pair) => {
                &&& open_row_failure(row@) is None
                &&& pair.0@ == record::record_key(
                    FilesystemId { value: bytes::id_value(row@.filesystem_id) },
                    pair.1@,
                )
                &&& pair.1@ == StateRecord::Open::<Seq<u8>, Seq<char>>(open_row_record(row@))
            },
            Err(error) => open_row_failure(row@) == Some(error@),
        },
{
    let filesystem_id = FilesystemId { value: fixed_id("filesystem_id", &row.filesystem_id)? };
    let open_id = OpenId { value: fixed_id("open_id", &row.open_id)? };
    let record = OpenRecord {
        open_id,
        inode_id: InodeId { value: fixed_id("inode_id", &row.inode_id)? },
        client_incarnation: ClientIncarnationId { value: fixed_id("client_incarnation_id", &row.client_incarnation_id)? },
        access: decode_open_access(row.access)?,
        append: row.append,
        retained_inode_generation: InodeGeneration { value: decode_nonzero("retained_inode_generation", &row.retained_inode_generation)? },
        revision: RecordRevision { value: decode_nonzero("record_revision", &row.record_revision)? },
    };
    Ok((RecordKey::Open(filesystem_id, open_id), StateRecord::Open(record)))
}

/// Why an open-pin row is rejected.
pub open spec fn open_pin_row_failure(row: OpenPinRow<Seq<u8>, Seq<char>>) -> Failure {
    both(
        width_failure("filesystem_id", row.filesystem_id, 16),
        both(
        width_failure("inode_id", row.inode_id, 16),
        both(
        width_failure("open_id", row.open_id, 16),
        nonzero_failure("record_revision", row.record_revision),
    ),
    ),
    )
}

/// The record that an open-pin row spells.
pub open spec fn open_pin_row_record(row: OpenPinRow<Seq<u8>, Seq<char>>) -> OpenPinRecord {
    OpenPinRecord {
        inode_id: InodeId { value: bytes::id_value(row.inode_id) },
        open_id: OpenId { value: bytes::id_value(row.open_id) },
        revision: RecordRevision { value: numeric::parsed(row.record_revision) },
    }
}

fn decode_open_pin(row: &OpenPinRow) -> (result: Result<(RecordKey, StateRecord), RowCodecError>)
    ensures
        match result {
            Ok(pair) => {
                &&& open_pin_row_failure(row@) is None
                &&& pair.0@ == record::record_key(
                    FilesystemId { value: bytes::id_value(row@.filesystem_id) },
                    pair.1@,
                )
                &&& pair.1@ == StateRecord::OpenPin::<Seq<u8>, Seq<char>>(open_pin_row_record(row@))
            },
            Err(error) => open_pin_row_failure(row@) == Some(error@),
        },
{
    let filesystem_id = FilesystemId { value: fixed_id("filesystem_id", &row.filesystem_id)? };
    let inode_id = InodeId { value: fixed_id("inode_id", &row.inode_id)? };
    let open_id = OpenId { value: fixed_id("open_id", &row.open_id)? };
    let record = OpenPinRecord {
        inode_id,
        open_id,
        revision: RecordRevision { value: decode_nonzero("record_revision", &row.record_revision)? },
    };
    Ok((RecordKey::OpenPin(filesystem_id, inode_id, open_id), StateRecord::OpenPin(record)))
}

/// Why an orphan row is rejected.
pub open spec fn orphan_row_failure(row: OrphanRow<Seq<u8>, Seq<char>>) -> Failure {
    both(
        width_failure("filesystem_id", row.filesystem_id, 16),
        both(
        width_failure("inode_id", row.inode_id, 16),
        both(
        number_failure("open_pin_count", row.open_pin_count),
        both(
        nonzero_failure("orphaned_revision", row.orphaned_revision),
        both(
        nonzero_failure("record_revision", row.record_revision),
        if numeric::parsed(row.open_pin_count) == 0 {
            record_failure(Some(RecordValidationError::ZeroOpenPins))
        } else {
            None
        },
    ),
    ),
    ),
    ),
    )
}

/// The record that an orphan row spells.
pub open spec fn orphan_row_record(row: OrphanRow<Seq<u8>, Seq<char>>) -> OrphanRecord {
    OrphanRecord {
        inode_id: InodeId { value: bytes::id_value(row.inode_id) },
        open_pin_count: numeric::parsed(row.open_pin_count),
        orphaned_revision: StateRevision { value: numeric::parsed(row.orphaned_revision) },
        revision: RecordRevision { value: numeric::parsed(row.record_revision) },
    }
}

fn decode_orphan(row: &OrphanRow) -> (result: Result<(RecordKey, StateRecord), RowCodecError>)
    ensures
        match result {
            Ok(pair) => {
                &&& orphan_row_failure(row@) is None
                &&& pair.0@ == record::record_key(
                    FilesystemId { value: bytes::id_value(row@.filesystem_id) },
                    pair.1@,
                )
                &&& pair.1@ == StateRecord::Orphan::<Seq<u8>, Seq<char>>(orphan_row_record(row@))
            },
            Err(error) => orphan_row_failure(row@) == Some(error@),
        },
{
    let filesystem_id = FilesystemId { value: fixed_id("filesystem_id", &row.filesystem_id)? };
    let inode_id = InodeId { value: fixed_id("inode_id", &row.inode_id)? };
    let record = OrphanRecord {
        inode_id,
        open_pin_count: decode_u64_value("open_pin_count", &row.open_pin_count)?,
        orphaned_revision: StateRevision { value: decode_nonzero("orphaned_revision", &row.orphaned_revision)? },
        revision: RecordRevision { value: decode_nonzero("record_revision", &row.record_revision)? },
    };
    if record.open_pin_count == 0 {
        return Err(RowCodecError::InvalidRecord(RecordValidationError::ZeroOpenPins));
    }
    Ok((RecordKey::Orphan(filesystem_id, inode_id), StateRecord::Orphan(record)))
}

/// Why a lock row is rejected.
pub open spec fn lock_row_failure(row: LockRow<Seq<u8>, Seq<char>>) -> Failure {
    both(
        width_failure("filesystem_id", row.filesystem_id, 16),
        both(
        width_failure("inode_id", row.inode_id, 16),
        both(
        width_failure("lock_id", row.lock_id, 16),
        both(
        number_failure("range_start", row.range_start),
        both(
        match row.range_end {
            Some(end) => both(
                number_failure("range_end", end),
                if numeric::parsed(row.range_start) < numeric::parsed(end) {
                    None
                } else {
                    record_failure(Some(RecordValidationError::EmptyLockRange))
                },
            ),
            None => None,
        },
        both(
        tag_failure("lock kind", row.kind, 2),
        both(
        width_failure("owner_client_incarnation_id", row.owner_client_incarnation_id, 16),
        both(
        width_failure("owner_open_id", row.owner_open_id, 16),
        both(
        nonzero_failure("lock_generation", row.lock_generation),
        nonzero_failure("record_revision", row.record_revision),
    ),
    ),
    ),
    ),
    ),
    ),
    ),
    ),
    )
}

/// The record that a lock row spells.
pub open spec fn lock_row_record(row: LockRow<Seq<u8>, Seq<char>>) -> LockRecord {
    LockRecord {
        lock_id: LockId { value: bytes::id_value(row.lock_id) },
        inode_id: InodeId { value: bytes::id_value(row.inode_id) },
        range: LockRange {
            start: numeric::parsed(row.range_start),
            end: match row.range_end {
                Some(end) => LockRangeEnd::Exclusive(numeric::parsed(end)),
                None => LockRangeEnd::ThroughEof,
            },
        },
        kind: tagged_lock(row.kind),
        owner: LockOwner {
            client_incarnation: ClientIncarnationId { value: bytes::id_value(row.owner_client_incarnation_id) },
            open_id: OpenId { value: bytes::id_value(row.owner_open_id) },
        },
        generation: LockGeneration { value: numeric::parsed(row.lock_generation) },
        revision: RecordRevision { value: numeric::parsed(row.record_revision) },
    }
}

fn decode_lock(row: &LockRow) -> (result: Result<(RecordKey, StateRecord), RowCodecError>)
    ensures
        match result {
            Ok(pair) => {
                &&& lock_row_failure(row@) is None
                &&& pair.0@ == record::record_key(
                    FilesystemId { value: bytes::id_value(row@.filesystem_id) },
                    pair.1@,
                )
                &&& pair.1@ == StateRecord::Lock::<Seq<u8>, Seq<char>>(lock_row_record(row@))
            },
            Err(error) => lock_row_failure(row@) == Some(error@),
        },
{
    let filesystem_id = FilesystemId { value: fixed_id("filesystem_id", &row.filesystem_id)? };
    let inode_id = InodeId { value: fixed_id("inode_id", &row.inode_id)? };
    let lock_id = LockId { value: fixed_id("lock_id", &row.lock_id)? };
    let start: u64 = decode_u64_value("range_start", &row.range_start)?;
    let range = match &row.range_end {
        Some(end) => match LockRange::finite(start, decode_u64_value("range_end", end)?) {
            Ok(range) => range,
            Err(error) => {
                return Err(RowCodecError::InvalidRecord(error));
            },
        },
        None => LockRange::through_eof(start),
    };
    let record = LockRecord {
        lock_id,
        inode_id,
        range,
        kind: decode_lock_kind(row.kind)?,
        owner: LockOwner {
            client_incarnation: ClientIncarnationId { value: fixed_id("owner_client_incarnation_id", &row.owner_client_incarnation_id)? },
            open_id: OpenId { value: fixed_id("owner_open_id", &row.owner_open_id)? },
        },
        generation: LockGeneration { value: decode_nonzero("lock_generation", &row.lock_generation)? },
        revision: RecordRevision { value: decode_nonzero("record_revision", &row.record_revision)? },
    };
    Ok((RecordKey::Lock(filesystem_id, inode_id, lock_id), StateRecord::Lock(record)))
}

/// Why an extended-attribute row is rejected.
pub open spec fn xattr_row_failure(row: XattrRow<Seq<u8>, Seq<char>>, limits: StateLimits) -> Failure {
    both(
        width_failure("filesystem_id", row.filesystem_id, 16),
        both(
        width_failure("inode_id", row.inode_id, 16),
        both(
        bounded_failure(values::xattr_name_failure(row.name, limits)),
        both(
        bounded_failure(values::xattr_value_failure(row.value, limits)),
        nonzero_failure("record_revision", row.record_revision),
    ),
    ),
    ),
    )
}

/// The record that an extended-attribute row spells.
pub open spec fn xattr_row_record(row: XattrRow<Seq<u8>, Seq<char>>) -> XattrRecord<Seq<u8>> {
    XattrRecord {
        inode_id: InodeId { value: bytes::id_value(row.inode_id) },
        name: XattrName { bytes: row.name },
        value: XattrValue { bytes: row.value },
        revision: RecordRevision { value: numeric::parsed(row.record_revision) },
    }
}

fn decode_xattr(row: &XattrRow, limits: StateLimits) -> (result: Result<(RecordKey, StateRecord), RowCodecError>)
    ensures
        match result {
            Ok(pair) => {
                &&& xattr_row_failure(row@, limits) is None
                &&& pair.0@ == record::record_key(
                    FilesystemId { value: bytes::id_value(row@.filesystem_id) },
                    pair.1@,
                )
                &&& pair.1@ == StateRecord::Xattr::<Seq<u8>, Seq<char>>(xattr_row_record(row@))
            },
            Err(error) => xattr_row_failure(row@, limits) == Some(error@),
        },
{
    let filesystem_id = FilesystemId { value: fixed_id("filesystem_id", &row.filesystem_id)? };
    let inode_id = InodeId { value: fixed_id("inode_id", &row.inode_id)? };
    let name = match XattrName::new(copy_bytes(&row.name), limits) {
        Ok(name) => name,
        Err(error) => {
            return Err(RowCodecError::Bounded(error));
        },
    };
    let value = match XattrValue::new(copy_bytes(&row.value), limits) {
        Ok(value) => value,
        Err(error) => {
            return Err(RowCodecError::Bounded(error));
        },
    };
    let record = XattrRecord {
        inode_id,
        name: name.copied(),
        value,
        revision: RecordRevision { value: decode_nonzero("record_revision", &row.record_revision)? },
    };
    Ok((RecordKey::Xattr(filesystem_id, inode_id, name), StateRecord::Xattr(record)))
}

/// Why a staged extended-attribute row is rejected.
pub open spec fn xattr_staging_row_failure(row: XattrStagingRow<Seq<u8>, Seq<char>>, limits: StateLimits) -> Failure {
    both(
        width_failure("filesystem_id", row.filesystem_id, 16),
        both(
        width_failure("staging_id", row.staging_id, 16),
        both(
        width_failure("inode_id", row.inode_id, 16),
        both(
        bounded_failure(values::xattr_name_failure(row.name, limits)),
        both(
        number_failure("expected_size", row.expected_size),
        both(
        bounded_failure(values::xattr_value_failure(row.staged_bytes, limits)),
        both(
        nonzero_failure("record_revision", row.record_revision),
        if record::staging_valid(xattr_staging_row_record(row), limits) {
            None
        } else {
            record_failure(Some(RecordValidationError::XattrStagingSize))
        },
    ),
    ),
    ),
    ),
    ),
    ),
    )
}

/// The record that a staged extended-attribute row spells.
pub open spec fn xattr_staging_row_record(row: XattrStagingRow<Seq<u8>, Seq<char>>) -> XattrStagingRecord<Seq<u8>> {
    XattrStagingRecord {
        staging_id: XattrStagingId { value: bytes::id_value(row.staging_id) },
        inode_id: InodeId { value: bytes::id_value(row.inode_id) },
        name: XattrName { bytes: row.name },
        expected_size: numeric::parsed(row.expected_size),
        bytes: XattrValue { bytes: row.staged_bytes },
        revision: RecordRevision { value: numeric::parsed(row.record_revision) },
    }
}

fn decode_xattr_staging(row: &XattrStagingRow, limits: StateLimits) -> (result: Result<(RecordKey, StateRecord), RowCodecError>)
    ensures
        match result {
            Ok(pair) => {
                &&& xattr_staging_row_failure(row@, limits) is None
                &&& pair.0@ == record::record_key(
                    FilesystemId { value: bytes::id_value(row@.filesystem_id) },
                    pair.1@,
                )
                &&& pair.1@ == StateRecord::XattrStaging::<Seq<u8>, Seq<char>>(xattr_staging_row_record(row@))
            },
            Err(error) => xattr_staging_row_failure(row@, limits) == Some(error@),
        },
{
    let filesystem_id = FilesystemId { value: fixed_id("filesystem_id", &row.filesystem_id)? };
    let staging_id = XattrStagingId { value: fixed_id("staging_id", &row.staging_id)? };
    let inode_id = InodeId { value: fixed_id("inode_id", &row.inode_id)? };
    let name = match XattrName::new(copy_bytes(&row.name), limits) {
        Ok(name) => name,
        Err(error) => {
            return Err(RowCodecError::Bounded(error));
        },
    };
    let expected_size: u64 = decode_u64_value("expected_size", &row.expected_size)?;
    let staged = match XattrValue::new(copy_bytes(&row.staged_bytes), limits) {
        Ok(value) => value,
        Err(error) => {
            return Err(RowCodecError::Bounded(error));
        },
    };
    let record = XattrStagingRecord {
        staging_id,
        inode_id,
        name,
        expected_size,
        bytes: staged,
        revision: RecordRevision { value: decode_nonzero("record_revision", &row.record_revision)? },
    };
    if record.expected_size > limits.values.max_xattr_value_bytes as u64
        || record.bytes.bytes.len() as u64 > record.expected_size {
        return Err(RowCodecError::InvalidRecord(RecordValidationError::XattrStagingSize));
    }
    Ok((RecordKey::XattrStaging(filesystem_id, staging_id), StateRecord::XattrStaging(record)))
}

/// Why a mutation row is rejected.
pub open spec fn mutation_row_failure(row: MutationRow<Seq<u8>, Seq<char>>, limits: StateLimits) -> Failure {
    both(
        width_failure("filesystem_id", row.filesystem_id, 16),
        both(
        width_failure("mutation_id", row.mutation_id, 16),
        both(
        code_failure("result_kind", row.result_kind),
        both(
        code_failure("result_format", row.result_format),
        both(
        width_failure("request_fingerprint", row.request_fingerprint, 32),
        both(
        width_failure("client_incarnation_id", row.client_incarnation_id, 16),
        both(
        width_failure("writer_scope_id", row.writer_scope_id, 16),
        both(
        width_failure("writer_incarnation_id", row.writer_incarnation_id, 16),
        both(
        nonzero_failure("fencing_token", row.fencing_token),
        both(
        bounded_failure(
            values::length_failure(
                StateLimitKind::MutationResult,
                row.result_bytes,
                limits.values.max_mutation_result_bytes,
            ),
        ),
        both(
        nonzero_failure("committed_revision", row.committed_revision),
        both(
        number_failure("retention_horizon", row.retention_horizon),
        nonzero_failure("record_revision", row.record_revision),
    ),
    ),
    ),
    ),
    ),
    ),
    ),
    ),
    ),
    ),
    ),
    )
}

/// The record that a mutation row spells.
pub open spec fn mutation_row_record(row: MutationRow<Seq<u8>, Seq<char>>) -> MutationRecord<Seq<u8>> {
    MutationRecord {
        filesystem_id: FilesystemId { value: bytes::id_value(row.filesystem_id) },
        mutation_id: MutationId { value: bytes::id_value(row.mutation_id) },
        fingerprint: fingerprint_of(row.request_fingerprint),
        client_incarnation: ClientIncarnationId { value: bytes::id_value(row.client_incarnation_id) },
        writer_scope: WriterScopeId { value: bytes::id_value(row.writer_scope_id) },
        writer_incarnation: WriterIncarnationId { value: bytes::id_value(row.writer_incarnation_id) },
        fencing_token: FencingToken { value: numeric::parsed(row.fencing_token) },
        result: MutationResult {
            kind: row.result_kind as u16,
            format: row.result_format as u16,
            bytes: row.result_bytes,
        },
        committed_revision: StateRevision { value: numeric::parsed(row.committed_revision) },
        retention: MutationRetention { value: numeric::parsed(row.retention_horizon) },
        revision: RecordRevision { value: numeric::parsed(row.record_revision) },
    }
}

fn decode_mutation(row: &MutationRow, limits: StateLimits) -> (result: Result<(RecordKey, StateRecord), RowCodecError>)
    ensures
        match result {
            Ok(pair) => {
                &&& mutation_row_failure(row@, limits) is None
                &&& pair.0@ == record::record_key(
                    FilesystemId { value: bytes::id_value(row@.filesystem_id) },
                    pair.1@,
                )
                &&& pair.1@ == StateRecord::Mutation::<Seq<u8>, Seq<char>>(mutation_row_record(row@))
            },
            Err(error) => mutation_row_failure(row@, limits) == Some(error@),
        },
{
    let filesystem_id = FilesystemId { value: fixed_id("filesystem_id", &row.filesystem_id)? };
    let mutation_id = MutationId { value: fixed_id("mutation_id", &row.mutation_id)? };
    let kind: u16 = decode_code("result_kind", row.result_kind)?;
    let format: u16 = decode_code("result_format", row.result_format)?;
    let fingerprint = fixed_bytes("request_fingerprint", &row.request_fingerprint)?;
    let client_incarnation = ClientIncarnationId { value: fixed_id("client_incarnation_id", &row.client_incarnation_id)? };
    let writer_scope = WriterScopeId { value: fixed_id("writer_scope_id", &row.writer_scope_id)? };
    let writer_incarnation = WriterIncarnationId { value: fixed_id("writer_incarnation_id", &row.writer_incarnation_id)? };
    let fencing_token = FencingToken { value: decode_nonzero("fencing_token", &row.fencing_token)? };
    match crate::limits::require_bytes(
        StateLimitKind::MutationResult,
        row.result_bytes.len(),
        limits.values.max_mutation_result_bytes,
    ) {
        Ok(()) => {},
        Err(error) => {
            return Err(RowCodecError::Bounded(BoundedValueError::Limit(error)));
        },
    }
    let record = MutationRecord {
        filesystem_id,
        mutation_id,
        fingerprint: RequestFingerprint { high: fingerprint.0, low: fingerprint.1 },
        client_incarnation,
        writer_scope,
        writer_incarnation,
        fencing_token,
        result: MutationResult { kind, format, bytes: copy_bytes(&row.result_bytes) },
        committed_revision: StateRevision { value: decode_nonzero("committed_revision", &row.committed_revision)? },
        retention: MutationRetention { value: decode_u64_value("retention_horizon", &row.retention_horizon)? },
        revision: RecordRevision { value: decode_nonzero("record_revision", &row.record_revision)? },
    };
    Ok((RecordKey::Mutation(filesystem_id, mutation_id), StateRecord::Mutation(record)))
}

/// Why a writer-fence row is rejected.
pub open spec fn writer_lease_row_failure(row: WriterLeaseRow<Seq<u8>, Seq<char>>) -> Failure {
    both(
        width_failure("filesystem_id", row.filesystem_id, 16),
        both(
        width_failure("writer_scope_id", row.writer_scope_id, 16),
        both(
        width_failure("active_holder_id", row.active_holder_id, 16),
        both(
        width_failure("active_lease_id", row.active_lease_id, 16),
        both(
        number_failure("active_deadline_tick", row.active_deadline_tick),
        both(
        nonzero_failure("greatest_fencing_token", row.greatest_fencing_token),
        nonzero_failure("active_record_revision", row.active_record_revision),
    ),
    ),
    ),
    ),
    ),
    )
}

/// The record that a writer-fence row spells.
pub open spec fn writer_lease_row_record(row: WriterLeaseRow<Seq<u8>, Seq<char>>) -> WriterLeaseRecord {
    WriterLeaseRecord {
        filesystem_id: FilesystemId { value: bytes::id_value(row.filesystem_id) },
        scope: WriterScopeId { value: bytes::id_value(row.writer_scope_id) },
        holder: WriterIncarnationId { value: bytes::id_value(row.active_holder_id) },
        lease_id: LeaseId { value: bytes::id_value(row.active_lease_id) },
        deadline: LeaseDeadline { value: numeric::parsed(row.active_deadline_tick) },
        fencing_token: FencingToken { value: numeric::parsed(row.greatest_fencing_token) },
        revision: RecordRevision { value: numeric::parsed(row.active_record_revision) },
    }
}

fn decode_writer_lease(row: &WriterLeaseRow) -> (result: Result<(RecordKey, StateRecord), RowCodecError>)
    ensures
        match result {
            Ok(pair) => {
                &&& writer_lease_row_failure(row@) is None
                &&& pair.0@ == record::record_key(
                    FilesystemId { value: bytes::id_value(row@.filesystem_id) },
                    pair.1@,
                )
                &&& pair.1@ == StateRecord::WriterLease::<Seq<u8>, Seq<char>>(writer_lease_row_record(row@))
            },
            Err(error) => writer_lease_row_failure(row@) == Some(error@),
        },
{
    let filesystem_id = FilesystemId { value: fixed_id("filesystem_id", &row.filesystem_id)? };
    let scope = WriterScopeId { value: fixed_id("writer_scope_id", &row.writer_scope_id)? };
    let holder = WriterIncarnationId { value: fixed_id("active_holder_id", &row.active_holder_id)? };
    let lease_id = LeaseId { value: fixed_id("active_lease_id", &row.active_lease_id)? };
    let deadline = LeaseDeadline { value: decode_u64_value("active_deadline_tick", &row.active_deadline_tick)? };
    let fencing_token = FencingToken { value: decode_nonzero("greatest_fencing_token", &row.greatest_fencing_token)? };
    let record = WriterLeaseRecord {
        filesystem_id,
        scope,
        holder,
        lease_id,
        deadline,
        fencing_token,
        revision: RecordRevision { value: decode_nonzero("active_record_revision", &row.active_record_revision)? },
    };
    Ok((RecordKey::WriterLease(filesystem_id, scope), StateRecord::WriterLease(record)))
}

/// Why an inode row is rejected.
pub open spec fn inode_row_failure(row: InodeRow<Seq<u8>, Seq<char>>, limits: StateLimits) -> Failure {
    both(
        width_failure("filesystem_id", row.filesystem_id, 16),
        both(
            width_failure("inode_id", row.inode_id, 16),
            both(
                inode_data_failure(row, limits),
                both(
                    nonzero_failure("qid_path", row.qid_path),
                    both(
                        nonzero_failure("record_revision", row.record_revision),
                        both(
                            range_failure("mode", row.mode as i64, u32::MAX as int),
                            both(
                                bounded_failure(values::principal_id_failure(row.owner, limits)),
                                both(
                                    bounded_failure(values::group_id_failure(row.group_id, limits)),
                                    inode_tail_failure(row),
                                ),
                            ),
                        ),
                    ),
                ),
            ),
        ),
    )
}

/// Why the timestamps, sizes, generation or context of an inode row are rejected.
pub open spec fn inode_tail_failure(row: InodeRow<Seq<u8>, Seq<char>>) -> Failure {
    both(
        timestamp_failure("accessed_nanoseconds", row.accessed_nanoseconds),
        both(
            timestamp_failure("modified_nanoseconds", row.modified_nanoseconds),
            both(
                timestamp_failure("changed_nanoseconds", row.changed_nanoseconds),
                both(
                    timestamp_failure("created_nanoseconds", row.created_nanoseconds),
                    both(
                        number_failure("logical_size", row.logical_size),
                        both(
                            number_failure("link_count", row.link_count),
                            both(
                                nonzero_failure("inode_generation", row.inode_generation),
                                context_failure(row),
                            ),
                        ),
                    ),
                ),
            ),
        ),
    )
}

/// Why the content context does not fit, or the fields form no valid inode.
pub open spec fn context_failure(row: InodeRow<Seq<u8>, Seq<char>>) -> Failure {
    let invalid = record_failure(
        record::inode_failure(
            row.mode as u32,
            numeric::parsed(row.logical_size),
            row_context(row),
            row_data(row),
        ),
    );
    if row.kind == 1 {
        match row.content_context_id {
            Some(context) => both(width_failure("content_context_id", context, 16), invalid),
            None => missing_failure("regular inode", "content_context_id"),
        }
    } else if row.content_context_id is Some {
        shape_failure("inode", "content context belongs only to regular files")
    } else {
        invalid
    }
}

/// The content context that the columns spell.
pub open spec fn row_context(row: InodeRow<Seq<u8>, Seq<char>>) -> Option<ContentContextId> {
    match row.content_context_id {
        Some(context) => Some(ContentContextId { value: bytes::id_value(context) }),
        None => None,
    }
}

/// The record that an inode row spells.
pub open spec fn inode_row_record(row: InodeRow<Seq<u8>, Seq<char>>) -> InodeRecord<
    Seq<u8>,
    Seq<char>,
> {
    InodeRecord {
        inode_id: InodeId { value: bytes::id_value(row.inode_id) },
        qid_path: QidPath { value: numeric::parsed(row.qid_path) },
        revision: RecordRevision { value: numeric::parsed(row.record_revision) },
        mode: row.mode as u32,
        owner: PrincipalId { bytes: row.owner },
        group: GroupId { bytes: row.group_id },
        times: InodeTimes {
            accessed: UnixTimestamp {
                seconds: row.accessed_seconds,
                nanoseconds: row.accessed_nanoseconds as u32,
            },
            modified: UnixTimestamp {
                seconds: row.modified_seconds,
                nanoseconds: row.modified_nanoseconds as u32,
            },
            changed: UnixTimestamp {
                seconds: row.changed_seconds,
                nanoseconds: row.changed_nanoseconds as u32,
            },
            created: UnixTimestamp {
                seconds: row.created_seconds,
                nanoseconds: row.created_nanoseconds as u32,
            },
        },
        logical_size: numeric::parsed(row.logical_size),
        link_count: numeric::parsed(row.link_count),
        inode_generation: InodeGeneration { value: numeric::parsed(row.inode_generation) },
        content_context_id: row_context(row),
        data: row_data(row),
    }
}

fn decode_inode(row: &InodeRow, limits: StateLimits) -> (result: Result<
    (RecordKey, StateRecord),
    RowCodecError,
>)
    ensures
        match result {
            Ok(pair) => {
                &&& inode_row_failure(row@, limits) is None
                &&& pair.0@ == record::record_key(
                    FilesystemId { value: bytes::id_value(row@.filesystem_id) },
                    pair.1@,
                )
                &&& pair.1@ == StateRecord::Inode::<Seq<u8>, Seq<char>>(inode_row_record(row@))
            },
            Err(error) => inode_row_failure(row@, limits) == Some(error@),
        },
{
    let filesystem_id = FilesystemId { value: fixed_id("filesystem_id", &row.filesystem_id)? };
    let inode_id = InodeId { value: fixed_id("inode_id", &row.inode_id)? };
    let data = decode_inode_data(row, limits)?;
    let qid_path = QidPath { value: decode_nonzero("qid_path", &row.qid_path)? };
    let revision = RecordRevision {
        value: decode_nonzero("record_revision", &row.record_revision)?,
    };
    let mode: u32 = decode_u32("mode", row.mode as i64)?;
    let owner = match PrincipalId::new(copy_bytes(&row.owner), limits) {
        Ok(owner) => owner,
        Err(error) => {
            return Err(RowCodecError::Bounded(error));
        },
    };
    let group = match GroupId::new(copy_bytes(&row.group_id), limits) {
        Ok(group) => group,
        Err(error) => {
            return Err(RowCodecError::Bounded(error));
        },
    };
    let times = InodeTimes {
        accessed: decode_timestamp(
            "accessed_nanoseconds",
            row.accessed_seconds,
            row.accessed_nanoseconds,
        )?,
        modified: decode_timestamp(
            "modified_nanoseconds",
            row.modified_seconds,
            row.modified_nanoseconds,
        )?,
        changed: decode_timestamp(
            "changed_nanoseconds",
            row.changed_seconds,
            row.changed_nanoseconds,
        )?,
        created: decode_timestamp(
            "created_nanoseconds",
            row.created_seconds,
            row.created_nanoseconds,
        )?,
    };
    let logical_size: u64 = decode_u64_value("logical_size", &row.logical_size)?;
    let link_count: u64 = decode_u64_value("link_count", &row.link_count)?;
    let inode_generation = InodeGeneration {
        value: decode_nonzero("inode_generation", &row.inode_generation)?,
    };
    let content_context_id = match (row.kind == 1, &row.content_context_id) {
        (true, Some(context)) => Some(
            ContentContextId { value: fixed_id("content_context_id", context)? },
        ),
        (true, None) => {
            return Err(
                RowCodecError::MissingField { record: "regular inode", field: "content_context_id" },
            );
        },
        (false, Some(_)) => {
            return Err(
                RowCodecError::InvalidShape {
                    record: "inode",
                    detail: "content context belongs only to regular files",
                },
            );
        },
        (false, None) => None,
    };
    match InodeRecord::checked(
        InodeRecord {
            inode_id,
            qid_path,
            revision,
            mode,
            owner,
            group,
            times,
            logical_size,
            link_count,
            inode_generation,
            content_context_id,
            data,
        },
    ) {
        Ok(record) => Ok((RecordKey::Inode(filesystem_id, inode_id), StateRecord::Inode(record))),
        Err(error) => Err(RowCodecError::InvalidRecord(error)),
    }
}

/// The filesystem column of a row.
pub open spec fn row_filesystem(row: SqlStateRecord<Seq<u8>, Seq<char>>) -> FilesystemId {
    FilesystemId {
        value: bytes::id_value(
            match row {
                SqlStateRecord::Filesystem(r) => r.filesystem_id,
                SqlStateRecord::Inode(r) => r.filesystem_id,
                SqlStateRecord::ContentMetadata(r) => r.filesystem_id,
                SqlStateRecord::DirectoryEntry(r) => r.filesystem_id,
                SqlStateRecord::Open(r) => r.filesystem_id,
                SqlStateRecord::OpenPin(r) => r.filesystem_id,
                SqlStateRecord::Orphan(r) => r.filesystem_id,
                SqlStateRecord::Lock(r) => r.filesystem_id,
                SqlStateRecord::Xattr(r) => r.filesystem_id,
                SqlStateRecord::XattrStaging(r) => r.filesystem_id,
                SqlStateRecord::Mutation(r) => r.filesystem_id,
                SqlStateRecord::WriterLease(r) => r.filesystem_id,
            },
        ),
    }
}

/// The record that a row spells.
pub open spec fn row_record(row: SqlStateRecord<Seq<u8>, Seq<char>>) -> StateRecord<
    Seq<u8>,
    Seq<char>,
> {
    match row {
        SqlStateRecord::Filesystem(r) => StateRecord::Filesystem(filesystem_row_record(r)),
        SqlStateRecord::Inode(r) => StateRecord::Inode(inode_row_record(r)),
        SqlStateRecord::ContentMetadata(r) => StateRecord::ContentMetadata(
            content_metadata_row_record(r),
        ),
        SqlStateRecord::DirectoryEntry(r) => StateRecord::DirectoryEntry(
            directory_entry_row_record(r),
        ),
        SqlStateRecord::Open(r) => StateRecord::Open(open_row_record(r)),
        SqlStateRecord::OpenPin(r) => StateRecord::OpenPin(open_pin_row_record(r)),
        SqlStateRecord::Orphan(r) => StateRecord::Orphan(orphan_row_record(r)),
        SqlStateRecord::Lock(r) => StateRecord::Lock(lock_row_record(r)),
        SqlStateRecord::Xattr(r) => StateRecord::Xattr(xattr_row_record(r)),
        SqlStateRecord::XattrStaging(r) => StateRecord::XattrStaging(xattr_staging_row_record(r)),
        SqlStateRecord::Mutation(r) => StateRecord::Mutation(mutation_row_record(r)),
        SqlStateRecord::WriterLease(r) => StateRecord::WriterLease(writer_lease_row_record(r)),
    }
}

/// The key of the record that a row spells.
pub open spec fn row_key(row: SqlStateRecord<Seq<u8>, Seq<char>>) -> RecordKey<Seq<u8>> {
    record::record_key(row_filesystem(row), row_record(row))
}

/// Why a row is rejected, in the order in which its columns are checked.
pub open spec fn row_failure(
    row: SqlStateRecord<Seq<u8>, Seq<char>>,
    limits: StateLimits,
) -> Failure {
    let columns = match row {
        SqlStateRecord::Filesystem(r) => filesystem_row_failure(r),
        SqlStateRecord::Inode(r) => inode_row_failure(r, limits),
        SqlStateRecord::ContentMetadata(r) => content_metadata_row_failure(r),
        SqlStateRecord::DirectoryEntry(r) => directory_entry_row_failure(r, limits),
        SqlStateRecord::Open(r) => open_row_failure(r),
        SqlStateRecord::OpenPin(r) => open_pin_row_failure(r),
        SqlStateRecord::Orphan(r) => orphan_row_failure(r),
        SqlStateRecord::Lock(r) => lock_row_failure(r),
        SqlStateRecord::Xattr(r) => xattr_row_failure(r, limits),
        SqlStateRecord::XattrStaging(r) => xattr_staging_row_failure(r, limits),
        SqlStateRecord::Mutation(r) => mutation_row_failure(r, limits),
        SqlStateRecord::WriterLease(r) => writer_lease_row_failure(r),
    };
    both(
        columns,
        match record::record_limit_failure(row_record(row), limits) {
            Some(error) => Some(RowCodecError::Limit(error)),
            None => None,
        },
    )
}

impl SqlStateRecord<Vec<u8>, String> {
    /// Decodes and independently validates one persisted row.
    pub fn decode(&self, limits: StateLimits) -> (result: Result<
        (RecordKey, StateRecord),
        RowCodecError,
    >)
        ensures
            match result {
                Ok(pair) => {
                    &&& row_failure(self@, limits) is None
                    &&& pair.0@ == row_key(self@)
                    &&& pair.1@ == row_record(self@)
                },
                Err(error) => row_failure(self@, limits) == Some(error@),
            },
    {
        let (key, record) = match self {
            SqlStateRecord::Filesystem(row) => decode_filesystem(row)?,
            SqlStateRecord::Inode(row) => decode_inode(row, limits)?,
            SqlStateRecord::ContentMetadata(row) => decode_content_metadata(row)?,
            SqlStateRecord::DirectoryEntry(row) => decode_directory_entry(row, limits)?,
            SqlStateRecord::Open(row) => decode_open(row)?,
            SqlStateRecord::OpenPin(row) => decode_open_pin(row)?,
            SqlStateRecord::Orphan(row) => decode_orphan(row)?,
            SqlStateRecord::Lock(row) => decode_lock(row)?,
            SqlStateRecord::Xattr(row) => decode_xattr(row, limits)?,
            SqlStateRecord::XattrStaging(row) => decode_xattr_staging(row, limits)?,
            SqlStateRecord::Mutation(row) => decode_mutation(row, limits)?,
            SqlStateRecord::WriterLease(row) => decode_writer_lease(row)?,
        };
        match record.validate_key(&key) {
            Ok(()) => {},
            Err(error) => {
                return Err(RowCodecError::InvalidRecord(error));
            },
        }
        match record.validate_against_limits(limits) {
            Ok(()) => {},
            Err(error) => {
                return Err(RowCodecError::Limit(error));
            },
        }
        Ok((key, record))
    }
}

/// The columns of an inode record.
pub open spec fn inode_row_of(
    filesystem_id: FilesystemId,
    r: InodeRecord<Seq<u8>, Seq<char>>,
) -> InodeRow<Seq<u8>, Seq<char>> {
    let content = record::inode_content(r);
    InodeRow {
        filesystem_id: bytes::id_bytes(filesystem_id.value),
        inode_id: bytes::id_bytes(r.inode_id.value),
        qid_path: numeric::decimal(r.qid_path.value as nat),
        record_revision: numeric::decimal(r.revision.value as nat),
        mode: r.mode as i32,
        owner: r.owner.bytes,
        group_id: r.group.bytes,
        accessed_seconds: r.times.accessed.seconds,
        accessed_nanoseconds: r.times.accessed.nanoseconds as i32,
        modified_seconds: r.times.modified.seconds,
        modified_nanoseconds: r.times.modified.nanoseconds as i32,
        changed_seconds: r.times.changed.seconds,
        changed_nanoseconds: r.times.changed.nanoseconds as i32,
        created_seconds: r.times.created.seconds,
        created_nanoseconds: r.times.created.nanoseconds as i32,
        logical_size: numeric::decimal(r.logical_size as nat),
        link_count: numeric::decimal(r.link_count as nat),
        inode_generation: numeric::decimal(r.inode_generation.value as nat),
        kind: kind_tag(record::data_kind(r.data)),
        content_file_id: match record::content_file(r) {
            Some(file) => Some(bytes::id_bytes(file.value)),
            None => None,
        },
        content_context_id: match r.content_context_id {
            Some(context) => Some(bytes::id_bytes(context.value)),
            None => None,
        },
        data_generation: match record::data_generation(r) {
            Some(generation) => Some(numeric::decimal(generation as nat)),
            None => None,
        },
        content_generation: match content {
            Some(content) => Some(numeric::decimal(content.generation as nat)),
            None => None,
        },
        content_logical_size: match content {
            Some(content) => Some(numeric::decimal(content.logical_size as nat)),
            None => None,
        },
        content_manifest_key: match content {
            Some(content) => Some(content.manifest_key.text),
            None => None,
        },
        content_manifest_digest: match content {
            Some(content) => Some(content.manifest_digest.bytes()),
            None => None,
        },
        content_storage_method: match content {
            Some(content) => Some(storage_tag(content.method)),
            None => None,
        },
        directory_generation: match record::directory_generation(r) {
            Some(generation) => Some(numeric::decimal(generation.value as nat)),
            None => None,
        },
        directory_parent_inode_id: match record::directory_parent(r) {
            Some(parent) => Some(bytes::id_bytes(parent.value)),
            None => None,
        },
        symlink_target: match r.data {
            InodeData::Symlink { target } => Some(target.bytes),
            _ => None,
        },
        device_major: match r.data {
            InodeData::CharacterDevice(device) => Some(device.major as i64),
            InodeData::BlockDevice(device) => Some(device.major as i64),
            _ => None,
        },
        device_minor: match r.data {
            InodeData::CharacterDevice(device) => Some(device.minor as i64),
            InodeData::BlockDevice(device) => Some(device.minor as i64),
            _ => None,
        },
    }
}

/// The columns of a record that stands under a key of a filesystem.
pub open spec fn row_of(
    filesystem_id: FilesystemId,
    record: StateRecord<Seq<u8>, Seq<char>>,
) -> SqlStateRecord<Seq<u8>, Seq<char>> {
    let filesystem = bytes::id_bytes(filesystem_id.value);
    match record {
        StateRecord::Filesystem(r) => SqlStateRecord::Filesystem(
            FilesystemRow {
                filesystem_id: filesystem,
                state_revision: numeric::decimal(r.revision.value as nat),
                record_revision: numeric::decimal(r.record_revision.value as nat),
                root_inode_id: bytes::id_bytes(r.root_inode_id.value),
                next_qid_path: numeric::decimal(r.next_qid_path.value as nat),
                next_directory_cookie: numeric::decimal(r.next_directory_cookie.value as nat),
                policy_generation: numeric::decimal(r.policy_generation as nat),
            },
        ),
        StateRecord::Inode(r) => SqlStateRecord::Inode(inode_row_of(filesystem_id, r)),
        StateRecord::ContentMetadata(r) => SqlStateRecord::ContentMetadata(
            ContentMetadataRow {
                filesystem_id: filesystem,
                content_file_id: bytes::id_bytes(r.content_file_id.value),
                owner_inode_id: bytes::id_bytes(r.owner_inode_id.value),
                context_id: bytes::id_bytes(r.context_id.value),
                policy_format: r.policy_format as i32,
                policy_bytes: r.policy_bytes,
                key_commitment: match r.key_commitment {
                    Some(commitment) => Some(commitment.bytes()),
                    None => None,
                },
                wrapped_key_bytes: r.wrapped_key_bytes,
                record_revision: numeric::decimal(r.revision.value as nat),
            },
        ),
        StateRecord::DirectoryEntry(r) => SqlStateRecord::DirectoryEntry(
            DirectoryEntryRow {
                filesystem_id: filesystem,
                parent_inode_id: bytes::id_bytes(r.parent_inode_id.value),
                name: r.name.bytes,
                cookie: numeric::decimal(r.cookie.value as nat),
                child_inode_id: bytes::id_bytes(r.child_inode_id.value),
                record_revision: numeric::decimal(r.revision.value as nat),
            },
        ),
        StateRecord::Open(r) => SqlStateRecord::Open(
            OpenRow {
                filesystem_id: filesystem,
                open_id: bytes::id_bytes(r.open_id.value),
                inode_id: bytes::id_bytes(r.inode_id.value),
                client_incarnation_id: bytes::id_bytes(r.client_incarnation.value),
                access: access_tag(r.access),
                append: r.append,
                retained_inode_generation: numeric::decimal(
                    r.retained_inode_generation.value as nat,
                ),
                record_revision: numeric::decimal(r.revision.value as nat),
            },
        ),
        StateRecord::OpenPin(r) => SqlStateRecord::OpenPin(
            OpenPinRow {
                filesystem_id: filesystem,
                inode_id: bytes::id_bytes(r.inode_id.value),
                open_id: bytes::id_bytes(r.open_id.value),
                record_revision: numeric::decimal(r.revision.value as nat),
            },
        ),
        StateRecord::Orphan(r) => SqlStateRecord::Orphan(
            OrphanRow {
                filesystem_id: filesystem,
                inode_id: bytes::id_bytes(r.inode_id.value),
                open_pin_count: numeric::decimal(r.open_pin_count as nat),
                orphaned_revision: numeric::decimal(r.orphaned_revision.value as nat),
                record_revision: numeric::decimal(r.revision.value as nat),
            },
        ),
        StateRecord::Lock(r) => SqlStateRecord::Lock(
            LockRow {
                filesystem_id: filesystem,
                inode_id: bytes::id_bytes(r.inode_id.value),
                lock_id: bytes::id_bytes(r.lock_id.value),
                range_start: numeric::decimal(r.range.start as nat),
                range_end: match r.range.end {
                    LockRangeEnd::Exclusive(end) => Some(numeric::decimal(end as nat)),
                    LockRangeEnd::ThroughEof => None,
                },
                kind: lock_tag(r.kind),
                owner_client_incarnation_id: bytes::id_bytes(r.owner.client_incarnation.value),
                owner_open_id: bytes::id_bytes(r.owner.open_id.value),
                lock_generation: numeric::decimal(r.generation.value as nat),
                record_revision: numeric::decimal(r.revision.value as nat),
            },
        ),
        StateRecord::Xattr(r) => SqlStateRecord::Xattr(
            XattrRow {
                filesystem_id: filesystem,
                inode_id: bytes::id_bytes(r.inode_id.value),
                name: r.name.bytes,
                value: r.value.bytes,
                record_revision: numeric::decimal(r.revision.value as nat),
            },
        ),
        StateRecord::XattrStaging(r) => SqlStateRecord::XattrStaging(
            XattrStagingRow {
                filesystem_id: filesystem,
                staging_id: bytes::id_bytes(r.staging_id.value),
                inode_id: bytes::id_bytes(r.inode_id.value),
                name: r.name.bytes,
                expected_size: numeric::decimal(r.expected_size as nat),
                staged_bytes: r.bytes.bytes,
                record_revision: numeric::decimal(r.revision.value as nat),
            },
        ),
        StateRecord::Mutation(r) => SqlStateRecord::Mutation(
            MutationRow {
                filesystem_id: filesystem,
                mutation_id: bytes::id_bytes(r.mutation_id.value),
                request_fingerprint: r.fingerprint.bytes(),
                client_incarnation_id: bytes::id_bytes(r.client_incarnation.value),
                writer_scope_id: bytes::id_bytes(r.writer_scope.value),
                writer_incarnation_id: bytes::id_bytes(r.writer_incarnation.value),
                fencing_token: numeric::decimal(r.fencing_token.value as nat),
                result_kind: r.result.kind as i32,
                result_format: r.result.format as i32,
                result_bytes: r.result.bytes,
                committed_revision: numeric::decimal(r.committed_revision.value as nat),
                retention_horizon: numeric::decimal(r.retention.value as nat),
                record_revision: numeric::decimal(r.revision.value as nat),
            },
        ),
        StateRecord::WriterLease(r) => SqlStateRecord::WriterLease(
            WriterLeaseRow {
                filesystem_id: filesystem,
                writer_scope_id: bytes::id_bytes(r.scope.value),
                greatest_fencing_token: numeric::decimal(r.fencing_token.value as nat),
                active_holder_id: bytes::id_bytes(r.holder.value),
                active_lease_id: bytes::id_bytes(r.lease_id.value),
                active_deadline_tick: numeric::decimal(r.deadline.value as nat),
                active_record_revision: numeric::decimal(r.revision.value as nat),
            },
        ),
    }
}

/// The mode and nanoseconds of an inode fit the signed columns.
pub open spec fn encodable(record: StateRecord<Seq<u8>, Seq<char>>) -> bool {
    match record {
        StateRecord::Inode(r) => {
            &&& r.mode <= i32::MAX
            &&& r.times.accessed.nanoseconds <= i32::MAX
            &&& r.times.modified.nanoseconds <= i32::MAX
            &&& r.times.changed.nanoseconds <= i32::MAX
            &&& r.times.created.nanoseconds <= i32::MAX
        },
        _ => true,
    }
}

/// Whether the mode and nanoseconds of an inode fit the signed columns.
pub fn is_encodable(record: &StateRecord) -> (result: bool)
    ensures
        result == encodable(record@),
{
    let maximum: u32 = 0x7fff_ffff;
    match record {
        StateRecord::Inode(r) => r.mode <= maximum && r.times.accessed.nanoseconds <= maximum
            && r.times.modified.nanoseconds <= maximum && r.times.changed.nanoseconds <= maximum
            && r.times.created.nanoseconds <= maximum,
        _ => true,
    }
}

fn encode_inode(filesystem_id: FilesystemId, record: &InodeRecord) -> (result: InodeRow)
    requires
        encodable(StateRecord::Inode(record@)),
    ensures
        result@ == inode_row_of(filesystem_id, record@),
{
    let mut row = InodeRow {
        filesystem_id: filesystem_id.to_vec(),
        inode_id: record.inode_id.to_vec(),
        qid_path: encode_u64(record.qid_path.value),
        record_revision: encode_u64(record.revision.value),
        mode: record.mode as i32,
        owner: copy_bytes(&record.owner.bytes),
        group_id: copy_bytes(&record.group.bytes),
        accessed_seconds: record.times.accessed.seconds,
        accessed_nanoseconds: record.times.accessed.nanoseconds as i32,
        modified_seconds: record.times.modified.seconds,
        modified_nanoseconds: record.times.modified.nanoseconds as i32,
        changed_seconds: record.times.changed.seconds,
        changed_nanoseconds: record.times.changed.nanoseconds as i32,
        created_seconds: record.times.created.seconds,
        created_nanoseconds: record.times.created.nanoseconds as i32,
        logical_size: encode_u64(record.logical_size),
        link_count: encode_u64(record.link_count),
        inode_generation: encode_u64(record.inode_generation.value),
        kind: 0,
        content_file_id: None,
        content_context_id: match &record.content_context_id {
            Some(context) => Some(context.to_vec()),
            None => None,
        },
        data_generation: None,
        content_generation: None,
        content_logical_size: None,
        content_manifest_key: None,
        content_manifest_digest: None,
        content_storage_method: None,
        directory_generation: None,
        directory_parent_inode_id: None,
        symlink_target: None,
        device_major: None,
        device_minor: None,
    };
    match &record.data {
        InodeData::RegularFile { content_file_id, content, data_generation } => {
            row.kind = 1;
            row.content_file_id = Some(content_file_id.to_vec());
            row.data_generation = Some(encode_u64(*data_generation));
            match content {
                Some(content) => {
                    row.content_generation = Some(encode_u64(content.generation));
                    row.content_logical_size = Some(encode_u64(content.logical_size));
                    row.content_manifest_key = Some(copy_text(content.manifest_key.text.as_str()));
                    row.content_manifest_digest = Some(content.manifest_digest.to_vec());
                    row.content_storage_method = Some(encode_storage_method(content.method));
                },
                None => {},
            }
        },
        InodeData::Directory { generation, parent_inode_id } => {
            row.kind = 2;
            row.directory_generation = Some(encode_u64(generation.value));
            row.directory_parent_inode_id = Some(parent_inode_id.to_vec());
        },
        InodeData::Symlink { target } => {
            row.kind = 3;
            row.symlink_target = Some(copy_bytes(&target.bytes));
        },
        InodeData::CharacterDevice(device) => {
            row.kind = 4;
            row.device_major = Some(device.major as i64);
            row.device_minor = Some(device.minor as i64);
        },
        InodeData::BlockDevice(device) => {
            row.kind = 5;
            row.device_major = Some(device.major as i64);
            row.device_minor = Some(device.minor as i64);
        },
        InodeData::Fifo => {
            row.kind = 6;
        },
        InodeData::Socket => {
            row.kind = 7;
        },
    }
    row
}

impl SqlStateRecord<Vec<u8>, String> {
    /// Encodes one key and record without narrowing integers.
    pub fn encode(key: &RecordKey, record: &StateRecord) -> (result: Result<Self, RowCodecError>)
        requires
            encodable(record@),
        ensures
            match result {
                Ok(row) => record::key_failure(key@, record@) is None && row@ == row_of(
                    crate::key::key_filesystem(key@),
                    record@,
                ),
                Err(error) => record_failure(record::key_failure(key@, record@)) == Some(error@),
            },
    {
        match record.validate_key(key) {
            Ok(()) => {},
            Err(error) => {
                return Err(RowCodecError::InvalidRecord(error));
            },
        }
        let filesystem = key.filesystem_id();
        let filesystem_id = filesystem.to_vec();
        let row = match record {
            StateRecord::Filesystem(record) => SqlStateRecord::Filesystem(
                FilesystemRow {
                    filesystem_id,
                    state_revision: encode_u64(record.revision.value),
                    record_revision: encode_u64(record.record_revision.value),
                    root_inode_id: record.root_inode_id.to_vec(),
                    next_qid_path: encode_u64(record.next_qid_path.value),
                    next_directory_cookie: encode_u64(record.next_directory_cookie.value),
                    policy_generation: encode_u64(record.policy_generation),
                },
            ),
            StateRecord::Inode(record) => SqlStateRecord::Inode(encode_inode(filesystem, record)),
            StateRecord::ContentMetadata(record) => SqlStateRecord::ContentMetadata(
                ContentMetadataRow {
                    filesystem_id,
                    content_file_id: record.content_file_id.to_vec(),
                    owner_inode_id: record.owner_inode_id.to_vec(),
                    context_id: record.context_id.to_vec(),
                    policy_format: record.policy_format as i32,
                    policy_bytes: copy_bytes(&record.policy_bytes),
                    key_commitment: match &record.key_commitment {
                        Some(commitment) => Some(commitment.to_vec()),
                        None => None,
                    },
                    wrapped_key_bytes: copy_optional_bytes(&record.wrapped_key_bytes),
                    record_revision: encode_u64(record.revision.value),
                },
            ),
            StateRecord::DirectoryEntry(record) => SqlStateRecord::DirectoryEntry(
                DirectoryEntryRow {
                    filesystem_id,
                    parent_inode_id: record.parent_inode_id.to_vec(),
                    name: copy_bytes(&record.name.bytes),
                    cookie: encode_u64(record.cookie.value),
                    child_inode_id: record.child_inode_id.to_vec(),
                    record_revision: encode_u64(record.revision.value),
                },
            ),
            StateRecord::Open(record) => SqlStateRecord::Open(
                OpenRow {
                    filesystem_id,
                    open_id: record.open_id.to_vec(),
                    inode_id: record.inode_id.to_vec(),
                    client_incarnation_id: record.client_incarnation.to_vec(),
                    access: encode_open_access(record.access),
                    append: record.append,
                    retained_inode_generation: encode_u64(record.retained_inode_generation.value),
                    record_revision: encode_u64(record.revision.value),
                },
            ),
            StateRecord::OpenPin(record) => SqlStateRecord::OpenPin(
                OpenPinRow {
                    filesystem_id,
                    inode_id: record.inode_id.to_vec(),
                    open_id: record.open_id.to_vec(),
                    record_revision: encode_u64(record.revision.value),
                },
            ),
            StateRecord::Orphan(record) => SqlStateRecord::Orphan(
                OrphanRow {
                    filesystem_id,
                    inode_id: record.inode_id.to_vec(),
                    open_pin_count: encode_u64(record.open_pin_count),
                    orphaned_revision: encode_u64(record.orphaned_revision.value),
                    record_revision: encode_u64(record.revision.value),
                },
            ),
            StateRecord::Lock(record) => SqlStateRecord::Lock(
                LockRow {
                    filesystem_id,
                    inode_id: record.inode_id.to_vec(),
                    lock_id: record.lock_id.to_vec(),
                    range_start: encode_u64(record.range.start),
                    range_end: match record.range.end {
                        LockRangeEnd::Exclusive(end) => Some(encode_u64(end)),
                        LockRangeEnd::ThroughEof => None,
                    },
                    kind: encode_lock_kind(record.kind),
                    owner_client_incarnation_id: record.owner.client_incarnation.to_vec(),
                    owner_open_id: record.owner.open_id.to_vec(),
                    lock_generation: encode_u64(record.generation.value),
                    record_revision: encode_u64(record.revision.value),
                },
            ),
            StateRecord::Xattr(record) => SqlStateRecord::Xattr(
                XattrRow {
                    filesystem_id,
                    inode_id: record.inode_id.to_vec(),
                    name: copy_bytes(&record.name.bytes),
                    value: copy_bytes(&record.value.bytes),
                    record_revision: encode_u64(record.revision.value),
                },
            ),
            StateRecord::XattrStaging(record) => SqlStateRecord::XattrStaging(
                XattrStagingRow {
                    filesystem_id,
                    staging_id: record.staging_id.to_vec(),
                    inode_id: record.inode_id.to_vec(),
                    name: copy_bytes(&record.name.bytes),
                    expected_size: encode_u64(record.expected_size),
                    staged_bytes: copy_bytes(&record.bytes.bytes),
                    record_revision: encode_u64(record.revision.value),
                },
            ),
            StateRecord::Mutation(record) => SqlStateRecord::Mutation(
                MutationRow {
                    filesystem_id,
                    mutation_id: record.mutation_id.to_vec(),
                    request_fingerprint: record.fingerprint.to_vec(),
                    client_incarnation_id: record.client_incarnation.to_vec(),
                    writer_scope_id: record.writer_scope.to_vec(),
                    writer_incarnation_id: record.writer_incarnation.to_vec(),
                    fencing_token: encode_u64(record.fencing_token.value),
                    result_kind: record.result.kind as i32,
                    result_format: record.result.format as i32,
                    result_bytes: copy_bytes(&record.result.bytes),
                    committed_revision: encode_u64(record.committed_revision.value),
                    retention_horizon: encode_u64(record.retention.value),
                    record_revision: encode_u64(record.revision.value),
                },
            ),
            StateRecord::WriterLease(record) => SqlStateRecord::WriterLease(
                WriterLeaseRow {
                    filesystem_id,
                    writer_scope_id: record.scope.to_vec(),
                    greatest_fencing_token: encode_u64(record.fencing_token.value),
                    active_holder_id: record.holder.to_vec(),
                    active_lease_id: record.lease_id.to_vec(),
                    active_deadline_tick: encode_u64(record.deadline.value),
                    active_record_revision: encode_u64(record.revision.value),
                },
            ),
        };
        Ok(row)
    }
}

} // verus!
