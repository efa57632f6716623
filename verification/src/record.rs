//! Semantic state records and their validity.
use vstd::prelude::*;

use crate::bytes;
use crate::bytes::copy_bytes;
use crate::ids::{
    ClientIncarnationId, ContentContextId, Digest, DirectoryCookie, DirectoryGeneration,
    FencingToken, FileId, FilesystemId, InodeGeneration, InodeId, LeaseDeadline, LeaseId,
    LockGeneration, LockId, MutationId, MutationRetention, OpenId, QidPath, RecordRevision,
    RequestFingerprint, StateRevision, UnixTimestamp, WriterIncarnationId, WriterScopeId,
    XattrStagingId,
};
use crate::key::RecordKey;
use crate::limits::{require_bytes, StateLimitError, StateLimitKind, StateLimits};
use crate::text::str_eq;
use crate::values;
use crate::values::{EntryName, GroupId, PrincipalId, SymlinkTarget, XattrName, XattrValue};

verus! {

/// A record or a relation between records is invalid.
#[derive(Clone, Copy, Debug, PartialEq, Eq)]
pub enum RecordValidationError {
    /// Record and key belong to different families.
    KeyFamilyMismatch,
    /// Record and key carry different identities.
    KeyIdentityMismatch,
    /// Mode bits outside the permission mask.
    InvalidMode {
        /// The rejected mode.
        mode: u32,
    },
    /// Logical size does not follow from the kind of inode.
    LogicalSizeMismatch {
        /// The size that the kind demands.
        expected: u64,
        /// The size of the inode.
        actual: u64,
    },
    /// Logical size differs from the size of the referenced content.
    ContentSizeMismatch {
        /// The size of the inode.
        inode: u64,
        /// The size of the content.
        content: u64,
    },
    /// Content generation differs from the data generation.
    ContentGenerationMismatch,
    /// Content belongs to another file.
    ContentFileMismatch,
    /// A regular file has a data generation but no content, or the reverse.
    ContentPresence,
    /// A regular file lacks its content context, or another inode has one.
    ContentContext,
    /// A directory cookie is zero.
    ZeroDirectoryCookie,
    /// A policy generation is zero.
    ZeroPolicyGeneration,
    /// An orphan has no open pins.
    ZeroOpenPins,
    /// A finite lock range is empty.
    EmptyLockRange,
    /// Staged bytes exceed the announced size, or the announced size its limit.
    XattrStagingSize,
    /// A record that must exist is missing.
    MissingRelatedRecord {
        /// The relation.
        relation: &'static str,
    },
    /// A related record contradicts the request.
    InvalidRelatedRecord {
        /// The relation.
        relation: &'static str,
    },
    /// A directory is its own ancestor.
    DirectoryCycle {
        /// The directory from which the walk started.
        inode_id: InodeId,
    },
    /// The root is too many parent edges away.
    DirectoryAncestorLimit {
        /// Largest accepted number of edges.
        maximum: u32,
    },
}

/// An object key was malformed.
#[derive(Clone, Copy, Debug, PartialEq, Eq, Structural)]
pub enum InvalidObjectKey {
    /// The key is empty.
    Empty,
    /// The key holds a control character.
    ControlCharacter,
}

/// A content reference was malformed.
#[derive(Clone, Copy, Debug, PartialEq, Eq, Structural)]
pub enum InvalidContentRef {
    /// The content generation is zero.
    ZeroGeneration,
}

/// Key of a stored object.
#[derive(Clone, Debug, PartialEq, Eq)]
pub struct ObjectKey<T = String> {
    /// The text.
    pub text: T,
}

impl View for ObjectKey<String> {
    type V = ObjectKey<Seq<char>>;

    open spec fn view(&self) -> ObjectKey<Seq<char>> {
        ObjectKey { text: self.text@ }
    }
}

/// Whether a character is an ASCII control character.
pub open spec fn is_control(c: char) -> bool {
    (c as u32) < 32 || (c as u32) == 127
}

/// Why text cannot be an object key.
pub open spec fn object_key_failure(text: Seq<char>) -> Option<InvalidObjectKey> {
    if text.len() == 0 {
        Some(InvalidObjectKey::Empty)
    } else if exists|i: int| 0 <= i < text.len() && is_control(#[trigger] text[i]) {
        Some(InvalidObjectKey::ControlCharacter)
    } else {
        None
    }
}

impl ObjectKey<String> {
    /// Accepts nonempty text without control characters.
    pub fn new(text: String) -> (result: Result<Self, InvalidObjectKey>)
        ensures
            match result {
                Ok(key) => object_key_failure(text@) is None && key.text@ == text@,
                Err(error) => object_key_failure(text@) == Some(error),
            },
    {
        let length: usize = text.as_str().unicode_len();
        if length == 0 {
            return Err(InvalidObjectKey::Empty);
        }
        let mut index: usize = 0;
        while index < length
            invariant
                index <= length,
                length == text@.len(),
                length > 0,
                forall|i: int| 0 <= i < index ==> !is_control(#[trigger] text@[i]),
            decreases length - index,
        {
            let code: u32 = text.as_str().get_char(index) as u32;
            if code < 32 || code == 127 {
                assert(is_control(text@[index as int]));
                return Err(InvalidObjectKey::ControlCharacter);
            }
            index = index + 1;
        }
        Ok(ObjectKey { text })
    }
}

/// How content bytes are stored.
#[derive(Clone, Copy, Debug, PartialEq, Eq, Structural)]
pub enum StorageMethod {
    /// One object holds all bytes.
    Raw,
    /// The bytes are split into blocks.
    BlockSplit,
}

/// Reference to one published content generation.
#[derive(Clone, Debug, PartialEq, Eq)]
pub struct ContentRef<T = String> {
    /// File the content belongs to.
    pub file_id: FileId,
    /// Published generation.
    pub generation: u64,
    /// Size in bytes.
    pub logical_size: u64,
    /// Key of the manifest object.
    pub manifest_key: ObjectKey<T>,
    /// Digest of the manifest object.
    pub manifest_digest: Digest,
    /// Storage method.
    pub method: StorageMethod,
}

impl View for ContentRef<String> {
    type V = ContentRef<Seq<char>>;

    open spec fn view(&self) -> ContentRef<Seq<char>> {
        ContentRef {
            file_id: self.file_id,
            generation: self.generation,
            logical_size: self.logical_size,
            manifest_key: self.manifest_key@,
            manifest_digest: self.manifest_digest,
            method: self.method,
        }
    }
}

/// The content of an optional reference.
pub open spec fn optional_content(value: Option<ContentRef>) -> Option<ContentRef<Seq<char>>> {
    match value {
        Some(content) => Some(content@),
        None => None,
    }
}

impl ContentRef<String> {
    /// Accepts a persisted reference with a nonzero generation.
    pub fn from_persisted(
        file_id: FileId,
        generation: u64,
        logical_size: u64,
        manifest_key: ObjectKey,
        manifest_digest: Digest,
        method: StorageMethod,
    ) -> (result: Result<Self, InvalidContentRef>)
        ensures
            match result {
                Ok(content) => generation != 0 && content@ == (ContentRef {
                    file_id,
                    generation,
                    logical_size,
                    manifest_key: manifest_key@,
                    manifest_digest,
                    method,
                }),
                Err(error) => generation == 0 && error == InvalidContentRef::ZeroGeneration,
            },
    {
        if generation == 0 {
            Err(InvalidContentRef::ZeroGeneration)
        } else {
            Ok(
                ContentRef {
                    file_id,
                    generation,
                    logical_size,
                    manifest_key,
                    manifest_digest,
                    method,
                },
            )
        }
    }

    /// Whether two references are identical.
    pub fn same(&self, other: &Self) -> (result: bool)
        ensures
            result == (self@ == other@),
    {
        self.file_id == other.file_id && self.generation == other.generation && self.logical_size
            == other.logical_size && str_eq(
            self.manifest_key.text.as_str(),
            other.manifest_key.text.as_str(),
        ) && self.manifest_digest == other.manifest_digest && self.method == other.method
    }
}

/// Whether two optional references are identical.
pub fn same_content(left: &Option<ContentRef>, right: &Option<ContentRef>) -> (result: bool)
    ensures
        result == (optional_content(*left) == optional_content(*right)),
{
    match (left, right) {
        (Some(a), Some(b)) => a.same(b),
        (None, None) => true,
        _ => false,
    }
}

/// Device numbers of a special inode.
#[derive(Clone, Copy, Debug, PartialEq, Eq, Structural)]
pub struct DeviceNumbers {
    /// Major number.
    pub major: u32,
    /// Minor number.
    pub minor: u32,
}

/// Kind of an inode.
#[derive(Clone, Copy, Debug, PartialEq, Eq, Structural)]
pub enum InodeKind {
    /// Regular file.
    RegularFile,
    /// Directory.
    Directory,
    /// Symbolic link.
    Symlink,
    /// Character device.
    CharacterDevice,
    /// Block device.
    BlockDevice,
    /// Named pipe.
    Fifo,
    /// Socket.
    Socket,
}

/// Kind-specific data of an inode.
#[derive(Clone, Debug, PartialEq, Eq)]
pub enum InodeData<B = Vec<u8>, T = String> {
    /// Regular file.
    RegularFile {
        /// File that owns the content.
        content_file_id: FileId,
        /// Published content.
        content: Option<ContentRef<T>>,
        /// Generation of the data, zero before the first publication.
        data_generation: u64,
    },
    /// Directory.
    Directory {
        /// Generation of the entries.
        generation: DirectoryGeneration,
        /// Parent directory; the root is its own parent.
        parent_inode_id: InodeId,
    },
    /// Symbolic link.
    Symlink {
        /// Target bytes.
        target: SymlinkTarget<B>,
    },
    /// Character device.
    CharacterDevice(DeviceNumbers),
    /// Block device.
    BlockDevice(DeviceNumbers),
    /// Named pipe.
    Fifo,
    /// Socket.
    Socket,
}

impl View for InodeData<Vec<u8>, String> {
    type V = InodeData<Seq<u8>, Seq<char>>;

    open spec fn view(&self) -> InodeData<Seq<u8>, Seq<char>> {
        match self {
            InodeData::RegularFile { content_file_id, content, data_generation } =>
                InodeData::RegularFile {
                    content_file_id: *content_file_id,
                    content: optional_content(*content),
                    data_generation: *data_generation,
                },
            InodeData::Directory { generation, parent_inode_id } => InodeData::Directory {
                generation: *generation,
                parent_inode_id: *parent_inode_id,
            },
            InodeData::Symlink { target } => InodeData::Symlink { target: target@ },
            InodeData::CharacterDevice(device) => InodeData::CharacterDevice(*device),
            InodeData::BlockDevice(device) => InodeData::BlockDevice(*device),
            InodeData::Fifo => InodeData::Fifo,
            InodeData::Socket => InodeData::Socket,
        }
    }
}

/// Kind of inode that data belongs to.
pub open spec fn data_kind<B, T>(data: InodeData<B, T>) -> InodeKind {
    match data {
        InodeData::RegularFile { .. } => InodeKind::RegularFile,
        InodeData::Directory { .. } => InodeKind::Directory,
        InodeData::Symlink { .. } => InodeKind::Symlink,
        InodeData::CharacterDevice(_) => InodeKind::CharacterDevice,
        InodeData::BlockDevice(_) => InodeKind::BlockDevice,
        InodeData::Fifo => InodeKind::Fifo,
        InodeData::Socket => InodeKind::Socket,
    }
}

impl InodeData<Vec<u8>, String> {
    /// Kind of inode the data belongs to.
    pub fn kind(&self) -> (result: InodeKind)
        ensures
            result == data_kind(self@),
    {
        match self {
            InodeData::RegularFile { .. } => InodeKind::RegularFile,
            InodeData::Directory { .. } => InodeKind::Directory,
            InodeData::Symlink { .. } => InodeKind::Symlink,
            InodeData::CharacterDevice(_) => InodeKind::CharacterDevice,
            InodeData::BlockDevice(_) => InodeKind::BlockDevice,
            InodeData::Fifo => InodeKind::Fifo,
            InodeData::Socket => InodeKind::Socket,
        }
    }
}

/// The four timestamps of an inode.
#[derive(Clone, Copy, Debug, PartialEq, Eq, Structural)]
pub struct InodeTimes {
    /// Last access.
    pub accessed: UnixTimestamp,
    /// Last data modification.
    pub modified: UnixTimestamp,
    /// Last metadata change.
    pub changed: UnixTimestamp,
    /// Creation.
    pub created: UnixTimestamp,
}

impl InodeTimes {
    /// All four timestamps are in range.
    pub open spec fn valid(self) -> bool {
        self.accessed.valid() && self.modified.valid() && self.changed.valid()
            && self.created.valid()
    }
}

/// Permission bits that a mode may hold.
pub const MODE_MASK: u32 = 0o7777;

/// One inode.
#[derive(Clone, Debug, PartialEq, Eq)]
pub struct InodeRecord<B = Vec<u8>, T = String> {
    /// Identity.
    pub inode_id: InodeId,
    /// Namespace-wide path number.
    pub qid_path: QidPath,
    /// Revision of the record.
    pub revision: RecordRevision,
    /// Permission bits.
    pub mode: u32,
    /// Owner.
    pub owner: PrincipalId<B>,
    /// Group.
    pub group: GroupId<B>,
    /// Timestamps.
    pub times: InodeTimes,
    /// Size in bytes.
    pub logical_size: u64,
    /// Namespace references.
    pub link_count: u64,
    /// Metadata generation.
    pub inode_generation: InodeGeneration,
    /// Content context of a regular file.
    pub content_context_id: Option<ContentContextId>,
    /// Kind-specific data.
    pub data: InodeData<B, T>,
}

impl View for InodeRecord<Vec<u8>, String> {
    type V = InodeRecord<Seq<u8>, Seq<char>>;

    open spec fn view(&self) -> InodeRecord<Seq<u8>, Seq<char>> {
        InodeRecord {
            inode_id: self.inode_id,
            qid_path: self.qid_path,
            revision: self.revision,
            mode: self.mode,
            owner: self.owner@,
            group: self.group@,
            times: self.times,
            logical_size: self.logical_size,
            link_count: self.link_count,
            inode_generation: self.inode_generation,
            content_context_id: self.content_context_id,
            data: self.data@,
        }
    }
}

/// Why the size and content of an inode do not fit its kind.
pub open spec fn inode_shape_failure(
    logical_size: u64,
    data: InodeData<Seq<u8>, Seq<char>>,
) -> Option<RecordValidationError> {
    match data {
        InodeData::RegularFile { content_file_id, content, data_generation } => match content {
            Some(content) => if data_generation == 0 {
                Some(RecordValidationError::ContentPresence)
            } else if content.file_id != content_file_id {
                Some(RecordValidationError::ContentFileMismatch)
            } else if content.generation != data_generation {
                Some(RecordValidationError::ContentGenerationMismatch)
            } else if content.logical_size != logical_size {
                Some(
                    RecordValidationError::ContentSizeMismatch {
                        inode: logical_size,
                        content: content.logical_size,
                    },
                )
            } else {
                None
            },
            None => if data_generation != 0 {
                Some(RecordValidationError::ContentPresence)
            } else if logical_size != 0 {
                Some(
                    RecordValidationError::LogicalSizeMismatch { expected: 0, actual: logical_size },
                )
            } else {
                None
            },
        },
        InodeData::Symlink { target } => if logical_size != target.bytes.len() {
            Some(
                RecordValidationError::LogicalSizeMismatch {
                    expected: target.bytes.len() as u64,
                    actual: logical_size,
                },
            )
        } else {
            None
        },
        _ => if logical_size != 0 {
            Some(RecordValidationError::LogicalSizeMismatch { expected: 0, actual: logical_size })
        } else {
            None
        },
    }
}

/// Why fields cannot form an inode record.
pub open spec fn inode_failure(
    mode: u32,
    logical_size: u64,
    content_context_id: Option<ContentContextId>,
    data: InodeData<Seq<u8>, Seq<char>>,
) -> Option<RecordValidationError> {
    if mode > MODE_MASK {
        Some(RecordValidationError::InvalidMode { mode })
    } else if (data_kind(data) == InodeKind::RegularFile) != (content_context_id is Some) {
        Some(RecordValidationError::ContentContext)
    } else {
        inode_shape_failure(logical_size, data)
    }
}

impl InodeRecord<Vec<u8>, String> {
    /// Accepts fields that fit the kind of inode.
    pub fn checked(record: InodeRecord) -> (result: Result<Self, RecordValidationError>)
        ensures
            ({
                let failure = inode_failure(
                    record.mode,
                    record.logical_size,
                    record.content_context_id,
                    record.data@,
                );
                match result {
                    Ok(accepted) => failure is None && accepted@ == record@,
                    Err(error) => failure == Some(error),
                }
            }),
    {
        if record.mode > MODE_MASK {
            return Err(RecordValidationError::InvalidMode { mode: record.mode });
        }
        if (record.data.kind() == InodeKind::RegularFile) != record.content_context_id.is_some() {
            return Err(RecordValidationError::ContentContext);
        }
        let logical_size: u64 = record.logical_size;
        match &record.data {
            InodeData::RegularFile { content_file_id, content, data_generation } => match content {
                Some(content) => {
                    if *data_generation == 0 {
                        return Err(RecordValidationError::ContentPresence);
                    }
                    if content.file_id != *content_file_id {
                        return Err(RecordValidationError::ContentFileMismatch);
                    }
                    if content.generation != *data_generation {
                        return Err(RecordValidationError::ContentGenerationMismatch);
                    }
                    if content.logical_size != logical_size {
                        return Err(
                            RecordValidationError::ContentSizeMismatch {
                                inode: logical_size,
                                content: content.logical_size,
                            },
                        );
                    }
                },
                None => {
                    if *data_generation != 0 {
                        return Err(RecordValidationError::ContentPresence);
                    }
                    if logical_size != 0 {
                        return Err(
                            RecordValidationError::LogicalSizeMismatch {
                                expected: 0,
                                actual: logical_size,
                            },
                        );
                    }
                },
            },
            InodeData::Symlink { target } => {
                if logical_size != target.bytes.len() as u64 {
                    return Err(
                        RecordValidationError::LogicalSizeMismatch {
                            expected: target.bytes.len() as u64,
                            actual: logical_size,
                        },
                    );
                }
            },
            _ => {
                if logical_size != 0 {
                    return Err(
                        RecordValidationError::LogicalSizeMismatch {
                            expected: 0,
                            actual: logical_size,
                        },
                    );
                }
            },
        }
        Ok(record)
    }
}

/// The directory generation of a directory inode.
pub open spec fn directory_generation(record: InodeRecord<Seq<u8>, Seq<char>>) -> Option<
    DirectoryGeneration,
> {
    match record.data {
        InodeData::Directory { generation, .. } => Some(generation),
        _ => None,
    }
}

/// The parent of a directory inode.
pub open spec fn directory_parent(record: InodeRecord<Seq<u8>, Seq<char>>) -> Option<InodeId> {
    match record.data {
        InodeData::Directory { parent_inode_id, .. } => Some(parent_inode_id),
        _ => None,
    }
}

/// The content of a regular file.
pub open spec fn inode_content(record: InodeRecord<Seq<u8>, Seq<char>>) -> Option<
    ContentRef<Seq<char>>,
> {
    match record.data {
        InodeData::RegularFile { content, .. } => content,
        _ => None,
    }
}

/// The content file of a regular file.
pub open spec fn content_file(record: InodeRecord<Seq<u8>, Seq<char>>) -> Option<FileId> {
    match record.data {
        InodeData::RegularFile { content_file_id, .. } => Some(content_file_id),
        _ => None,
    }
}

/// The data generation of a regular file.
pub open spec fn data_generation(record: InodeRecord<Seq<u8>, Seq<char>>) -> Option<u64> {
    match record.data {
        InodeData::RegularFile { data_generation, .. } => Some(data_generation),
        _ => None,
    }
}

impl InodeRecord<Vec<u8>, String> {
    /// The directory generation of a directory inode.
    pub fn directory_generation(&self) -> (result: Option<DirectoryGeneration>)
        ensures
            result == directory_generation(self@),
    {
        match &self.data {
            InodeData::Directory { generation, .. } => Some(*generation),
            _ => None,
        }
    }

    /// The parent of a directory inode.
    pub fn directory_parent(&self) -> (result: Option<InodeId>)
        ensures
            result == directory_parent(self@),
    {
        match &self.data {
            InodeData::Directory { parent_inode_id, .. } => Some(*parent_inode_id),
            _ => None,
        }
    }

    /// The content file of a regular file.
    pub fn content_file_id(&self) -> (result: Option<FileId>)
        ensures
            result == content_file(self@),
    {
        match &self.data {
            InodeData::RegularFile { content_file_id, .. } => Some(*content_file_id),
            _ => None,
        }
    }

    /// The data generation of a regular file.
    pub fn data_generation(&self) -> (result: Option<u64>)
        ensures
            result == data_generation(self@),
    {
        match &self.data {
            InodeData::RegularFile { data_generation, .. } => Some(*data_generation),
            _ => None,
        }
    }

    /// Whether two inodes reference the same content.
    pub fn same_content(&self, other: &Self) -> (result: bool)
        ensures
            result == (inode_content(self@) == inode_content(other@)),
    {
        match (&self.data, &other.data) {
            (
                InodeData::RegularFile { content: left, .. },
                InodeData::RegularFile { content: right, .. },
            ) => same_content(left, right),
            (InodeData::RegularFile { content, .. }, _) => content.is_none(),
            (_, InodeData::RegularFile { content, .. }) => content.is_none(),
            _ => true,
        }
    }
}

/// The filesystem header.
#[derive(Clone, Copy, Debug, PartialEq, Eq, Structural)]
pub struct FilesystemRecord {
    /// Identity.
    pub filesystem_id: FilesystemId,
    /// State revision of the last change.
    pub revision: StateRevision,
    /// Revision of the record.
    pub record_revision: RecordRevision,
    /// Root directory.
    pub root_inode_id: InodeId,
    /// Next path number to allocate.
    pub next_qid_path: QidPath,
    /// Next directory cookie to allocate.
    pub next_directory_cookie: DirectoryCookie,
    /// Generation of the policy.
    pub policy_generation: u64,
}

/// Why fields cannot form a filesystem header.
pub open spec fn filesystem_failure(record: FilesystemRecord) -> Option<RecordValidationError> {
    if record.next_directory_cookie.value == 0 {
        Some(RecordValidationError::ZeroDirectoryCookie)
    } else if record.policy_generation == 0 {
        Some(RecordValidationError::ZeroPolicyGeneration)
    } else {
        None
    }
}

impl FilesystemRecord {
    /// Accepts a header with a nonzero next cookie and policy generation.
    pub fn checked(self) -> (result: Result<Self, RecordValidationError>)
        ensures
            match result {
                Ok(record) => filesystem_failure(self) is None && record == self,
                Err(error) => filesystem_failure(self) == Some(error),
            },
    {
        if self.next_directory_cookie.value == 0 {
            return Err(RecordValidationError::ZeroDirectoryCookie);
        }
        if self.policy_generation == 0 {
            return Err(RecordValidationError::ZeroPolicyGeneration);
        }
        Ok(self)
    }
}

/// Opaque metadata of one content file.
#[derive(Clone, Debug, PartialEq, Eq)]
pub struct ContentMetadataRecord<B = Vec<u8>> {
    /// Inode that owns the content.
    pub owner_inode_id: InodeId,
    /// Content file.
    pub content_file_id: FileId,
    /// Content context.
    pub context_id: ContentContextId,
    /// Format of the policy bytes.
    pub policy_format: u16,
    /// Opaque policy.
    pub policy_bytes: B,
    /// Commitment to the content key.
    pub key_commitment: Option<Digest>,
    /// Wrapped content key.
    pub wrapped_key_bytes: Option<B>,
    /// Revision of the record.
    pub revision: RecordRevision,
}

impl View for ContentMetadataRecord<Vec<u8>> {
    type V = ContentMetadataRecord<Seq<u8>>;

    open spec fn view(&self) -> ContentMetadataRecord<Seq<u8>> {
        ContentMetadataRecord {
            owner_inode_id: self.owner_inode_id,
            content_file_id: self.content_file_id,
            context_id: self.context_id,
            policy_format: self.policy_format,
            policy_bytes: self.policy_bytes@,
            key_commitment: self.key_commitment,
            wrapped_key_bytes: bytes::optional_bytes(self.wrapped_key_bytes),
            revision: self.revision,
        }
    }
}

/// A content key is committed to exactly when it is wrapped.
pub open spec fn content_metadata_valid<B>(record: ContentMetadataRecord<B>) -> bool {
    record.key_commitment is Some <==> record.wrapped_key_bytes is Some
}

/// One directory entry.
#[derive(Clone, Debug, PartialEq, Eq)]
pub struct DirectoryEntryRecord<B = Vec<u8>> {
    /// Directory that holds the entry.
    pub parent_inode_id: InodeId,
    /// Name.
    pub name: EntryName<B>,
    /// Position.
    pub cookie: DirectoryCookie,
    /// Inode the entry refers to.
    pub child_inode_id: InodeId,
    /// Revision of the record.
    pub revision: RecordRevision,
}

impl View for DirectoryEntryRecord<Vec<u8>> {
    type V = DirectoryEntryRecord<Seq<u8>>;

    open spec fn view(&self) -> DirectoryEntryRecord<Seq<u8>> {
        DirectoryEntryRecord {
            parent_inode_id: self.parent_inode_id,
            name: self.name@,
            cookie: self.cookie,
            child_inode_id: self.child_inode_id,
            revision: self.revision,
        }
    }
}

/// Requested access of an open handle.
#[derive(Clone, Copy, Debug, PartialEq, Eq, Structural)]
pub enum OpenAccess {
    /// Read only.
    ReadOnly,
    /// Write only.
    WriteOnly,
    /// Read and write.
    ReadWrite,
    /// Directory listing.
    DirectoryRead,
}

/// One open handle.
#[derive(Clone, Copy, Debug, PartialEq, Eq, Structural)]
pub struct OpenRecord {
    /// Identity.
    pub open_id: OpenId,
    /// Opened inode.
    pub inode_id: InodeId,
    /// Client that opened it.
    pub client_incarnation: ClientIncarnationId,
    /// Access mode.
    pub access: OpenAccess,
    /// Whether writes append.
    pub append: bool,
    /// Inode generation at open.
    pub retained_inode_generation: InodeGeneration,
    /// Revision of the record.
    pub revision: RecordRevision,
}

/// One open pin.
#[derive(Clone, Copy, Debug, PartialEq, Eq, Structural)]
pub struct OpenPinRecord {
    /// Pinned inode.
    pub inode_id: InodeId,
    /// Handle that pins.
    pub open_id: OpenId,
    /// Revision of the record.
    pub revision: RecordRevision,
}

/// One orphaned inode.
#[derive(Clone, Copy, Debug, PartialEq, Eq, Structural)]
pub struct OrphanRecord {
    /// Identity.
    pub inode_id: InodeId,
    /// Pins that keep it.
    pub open_pin_count: u64,
    /// Revision at which the last link went.
    pub orphaned_revision: StateRevision,
    /// Revision of the record.
    pub revision: RecordRevision,
}

/// End of a lock range.
#[derive(Clone, Copy, Debug, PartialEq, Eq, Structural)]
pub enum LockRangeEnd {
    /// First byte after the range.
    Exclusive(u64),
    /// The range reaches to the end of the file, wherever that is.
    ThroughEof,
}

/// Byte range of a lock.
#[derive(Clone, Copy, Debug, PartialEq, Eq, Structural)]
pub struct LockRange {
    /// First byte.
    pub start: u64,
    /// End of the range.
    pub end: LockRangeEnd,
}

impl LockRange {
    /// The range holds at least one byte.
    pub open spec fn valid(self) -> bool {
        match self.end {
            LockRangeEnd::Exclusive(end) => self.start < end,
            LockRangeEnd::ThroughEof => true,
        }
    }

    /// Whether a byte offset lies in the range.
    pub open spec fn covers(self, offset: int) -> bool {
        self.start <= offset && match self.end {
            LockRangeEnd::Exclusive(end) => offset < end,
            LockRangeEnd::ThroughEof => true,
        }
    }

    /// Accepts a nonempty finite range.
    pub fn finite(start: u64, end: u64) -> (result: Result<Self, RecordValidationError>)
        ensures
            result == (if start < end {
                Ok(LockRange { start, end: LockRangeEnd::Exclusive(end) })
            } else {
                Err(RecordValidationError::EmptyLockRange)
            }),
    {
        if start < end {
            Ok(LockRange { start, end: LockRangeEnd::Exclusive(end) })
        } else {
            Err(RecordValidationError::EmptyLockRange)
        }
    }

    /// The range from an offset to the end of the file.
    pub fn through_eof(start: u64) -> (result: Self)
        ensures
            result == (LockRange { start, end: LockRangeEnd::ThroughEof }),
    {
        LockRange { start, end: LockRangeEnd::ThroughEof }
    }

    /// Whether two ranges share a byte.
    pub fn overlaps(&self, other: &Self) -> (result: bool)
        requires
            self.valid(),
            other.valid(),
        ensures
            result == exists|offset: int| self.covers(offset) && other.covers(offset),
    {
        let before: bool = match self.end {
            LockRangeEnd::Exclusive(end) => end <= other.start,
            LockRangeEnd::ThroughEof => false,
        };
        let after: bool = match other.end {
            LockRangeEnd::Exclusive(end) => end <= self.start,
            LockRangeEnd::ThroughEof => false,
        };
        proof {
            let witness: int = if self.start < other.start {
                other.start as int
            } else {
                self.start as int
            };
            if !before && !after {
                assert(self.covers(witness) && other.covers(witness));
            }
        }
        !before && !after
    }
}

/// Mode of a lock.
#[derive(Clone, Copy, Debug, PartialEq, Eq, Structural)]
pub enum LockKind {
    /// Compatible with other shared locks.
    Shared,
    /// Compatible with no other lock.
    Exclusive,
}

/// Owner of a lock.
#[derive(Clone, Copy, Debug, PartialEq, Eq, Structural)]
pub struct LockOwner {
    /// Client incarnation.
    pub client_incarnation: ClientIncarnationId,
    /// Open handle.
    pub open_id: OpenId,
}

/// One byte-range lock.
#[derive(Clone, Copy, Debug, PartialEq, Eq, Structural)]
pub struct LockRecord {
    /// Identity.
    pub lock_id: LockId,
    /// Locked inode.
    pub inode_id: InodeId,
    /// Locked bytes.
    pub range: LockRange,
    /// Mode.
    pub kind: LockKind,
    /// Owner.
    pub owner: LockOwner,
    /// Generation.
    pub generation: LockGeneration,
    /// Revision of the record.
    pub revision: RecordRevision,
}

/// Two locks exclude each other: same inode, other owner, a shared byte, and
/// at least one of them exclusive.
pub open spec fn locks_conflict(left: LockRecord, right: LockRecord) -> bool {
    &&& left.inode_id == right.inode_id
    &&& left.owner != right.owner
    &&& left.kind == LockKind::Exclusive || right.kind == LockKind::Exclusive
    &&& exists|offset: int| left.range.covers(offset) && right.range.covers(offset)
}

impl LockRecord {
    /// Whether two locks exclude each other.
    pub fn conflicts_with(&self, other: &Self) -> (result: bool)
        requires
            self.range.valid(),
            other.range.valid(),
        ensures
            result == locks_conflict(*self, *other),
    {
        self.inode_id == other.inode_id && self.owner != other.owner && (self.kind
            == LockKind::Exclusive || other.kind == LockKind::Exclusive) && self.range.overlaps(
            &other.range,
        )
    }
}

/// One extended attribute.
#[derive(Clone, Debug, PartialEq, Eq)]
pub struct XattrRecord<B = Vec<u8>> {
    /// Inode that has the attribute.
    pub inode_id: InodeId,
    /// Name.
    pub name: XattrName<B>,
    /// Value.
    pub value: XattrValue<B>,
    /// Revision of the record.
    pub revision: RecordRevision,
}

impl View for XattrRecord<Vec<u8>> {
    type V = XattrRecord<Seq<u8>>;

    open spec fn view(&self) -> XattrRecord<Seq<u8>> {
        XattrRecord {
            inode_id: self.inode_id,
            name: self.name@,
            value: self.value@,
            revision: self.revision,
        }
    }
}

/// One extended attribute that is being assembled.
#[derive(Clone, Debug, PartialEq, Eq)]
pub struct XattrStagingRecord<B = Vec<u8>> {
    /// Identity.
    pub staging_id: XattrStagingId,
    /// Inode that will have the attribute.
    pub inode_id: InodeId,
    /// Name.
    pub name: XattrName<B>,
    /// Announced size.
    pub expected_size: u64,
    /// Bytes received so far.
    pub bytes: XattrValue<B>,
    /// Revision of the record.
    pub revision: RecordRevision,
}

impl View for XattrStagingRecord<Vec<u8>> {
    type V = XattrStagingRecord<Seq<u8>>;

    open spec fn view(&self) -> XattrStagingRecord<Seq<u8>> {
        XattrStagingRecord {
            staging_id: self.staging_id,
            inode_id: self.inode_id,
            name: self.name@,
            expected_size: self.expected_size,
            bytes: self.bytes@,
            revision: self.revision,
        }
    }
}

/// The announced size fits its limit and covers the bytes received.
pub open spec fn staging_valid(record: XattrStagingRecord<Seq<u8>>, limits: StateLimits) -> bool {
    record.expected_size <= limits.values.max_xattr_value_bytes && record.bytes.bytes.len()
        <= record.expected_size
}

/// Everything announced has been received.
pub open spec fn staging_complete(record: XattrStagingRecord<Seq<u8>>) -> bool {
    record.bytes.bytes.len() == record.expected_size
}

impl XattrStagingRecord<Vec<u8>> {
    /// Whether everything announced has been received.
    pub fn is_complete(&self) -> (result: bool)
        ensures
            result == staging_complete(self@),
    {
        self.bytes.bytes.len() as u64 == self.expected_size
    }
}

/// Terminal result of a mutation.
#[derive(Clone, Debug, PartialEq, Eq)]
pub struct MutationResult<B = Vec<u8>> {
    /// Kind of result.
    pub kind: u16,
    /// Format version.
    pub format: u16,
    /// Encoded result.
    pub bytes: B,
}

impl View for MutationResult<Vec<u8>> {
    type V = MutationResult<Seq<u8>>;

    open spec fn view(&self) -> MutationResult<Seq<u8>> {
        MutationResult { kind: self.kind, format: self.format, bytes: self.bytes@ }
    }
}

impl MutationResult<Vec<u8>> {
    /// A copy of the result.
    pub fn copied(&self) -> (result: Self)
        ensures
            result@ == self@,
    {
        MutationResult { kind: self.kind, format: self.format, bytes: copy_bytes(&self.bytes) }
    }
}

/// One terminal mutation in the replay ledger.
#[derive(Clone, Debug, PartialEq, Eq)]
pub struct MutationRecord<B = Vec<u8>> {
    /// Filesystem it belongs to.
    pub filesystem_id: FilesystemId,
    /// Identity.
    pub mutation_id: MutationId,
    /// Fingerprint of the request.
    pub fingerprint: RequestFingerprint,
    /// Client that asked.
    pub client_incarnation: ClientIncarnationId,
    /// Writer scope.
    pub writer_scope: WriterScopeId,
    /// Writer incarnation.
    pub writer_incarnation: WriterIncarnationId,
    /// Fencing token of the writer.
    pub fencing_token: FencingToken,
    /// Terminal result.
    pub result: MutationResult<B>,
    /// Revision that published it.
    pub committed_revision: StateRevision,
    /// Retention.
    pub retention: MutationRetention,
    /// Revision of the record.
    pub revision: RecordRevision,
}

impl View for MutationRecord<Vec<u8>> {
    type V = MutationRecord<Seq<u8>>;

    open spec fn view(&self) -> MutationRecord<Seq<u8>> {
        MutationRecord {
            filesystem_id: self.filesystem_id,
            mutation_id: self.mutation_id,
            fingerprint: self.fingerprint,
            client_incarnation: self.client_incarnation,
            writer_scope: self.writer_scope,
            writer_incarnation: self.writer_incarnation,
            fencing_token: self.fencing_token,
            result: self.result@,
            committed_revision: self.committed_revision,
            retention: self.retention,
            revision: self.revision,
        }
    }
}

/// One active writer lease.
#[derive(Clone, Copy, Debug, PartialEq, Eq, Structural)]
pub struct WriterLeaseRecord {
    /// Filesystem it belongs to.
    pub filesystem_id: FilesystemId,
    /// Leased scope.
    pub scope: WriterScopeId,
    /// Holder.
    pub holder: WriterIncarnationId,
    /// Identity.
    pub lease_id: LeaseId,
    /// Instant at which it expires.
    pub deadline: LeaseDeadline,
    /// Fencing token.
    pub fencing_token: FencingToken,
    /// Revision of the record.
    pub revision: RecordRevision,
}

/// One record of the authority.
#[derive(Clone, Debug, PartialEq, Eq)]
pub enum StateRecord<B = Vec<u8>, T = String> {
    /// Filesystem header.
    Filesystem(FilesystemRecord),
    /// Inode.
    Inode(InodeRecord<B, T>),
    /// Content metadata.
    ContentMetadata(ContentMetadataRecord<B>),
    /// Directory entry.
    DirectoryEntry(DirectoryEntryRecord<B>),
    /// Open handle.
    Open(OpenRecord),
    /// Open pin.
    OpenPin(OpenPinRecord),
    /// Orphan.
    Orphan(OrphanRecord),
    /// Lock.
    Lock(LockRecord),
    /// Extended attribute.
    Xattr(XattrRecord<B>),
    /// Staged extended attribute.
    XattrStaging(XattrStagingRecord<B>),
    /// Mutation result.
    Mutation(MutationRecord<B>),
    /// Writer lease.
    WriterLease(WriterLeaseRecord),
}

impl View for StateRecord<Vec<u8>, String> {
    type V = StateRecord<Seq<u8>, Seq<char>>;

    open spec fn view(&self) -> StateRecord<Seq<u8>, Seq<char>> {
        match self {
            StateRecord::Filesystem(r) => StateRecord::Filesystem(*r),
            StateRecord::Inode(r) => StateRecord::Inode(r@),
            StateRecord::ContentMetadata(r) => StateRecord::ContentMetadata(r@),
            StateRecord::DirectoryEntry(r) => StateRecord::DirectoryEntry(r@),
            StateRecord::Open(r) => StateRecord::Open(*r),
            StateRecord::OpenPin(r) => StateRecord::OpenPin(*r),
            StateRecord::Orphan(r) => StateRecord::Orphan(*r),
            StateRecord::Lock(r) => StateRecord::Lock(*r),
            StateRecord::Xattr(r) => StateRecord::Xattr(r@),
            StateRecord::XattrStaging(r) => StateRecord::XattrStaging(r@),
            StateRecord::Mutation(r) => StateRecord::Mutation(r@),
            StateRecord::WriterLease(r) => StateRecord::WriterLease(*r),
        }
    }
}

/// The key under which a record of a filesystem stands.
pub open spec fn record_key(
    filesystem_id: FilesystemId,
    record: StateRecord<Seq<u8>, Seq<char>>,
) -> RecordKey<Seq<u8>> {
    match record {
        StateRecord::Filesystem(r) => RecordKey::Filesystem(r.filesystem_id),
        StateRecord::Inode(r) => RecordKey::Inode(filesystem_id, r.inode_id),
        StateRecord::ContentMetadata(r) => RecordKey::ContentMetadata(
            filesystem_id,
            r.content_file_id,
        ),
        StateRecord::DirectoryEntry(r) => RecordKey::DirectoryEntry(
            filesystem_id,
            r.parent_inode_id,
            r.name,
        ),
        StateRecord::Open(r) => RecordKey::Open(filesystem_id, r.open_id),
        StateRecord::OpenPin(r) => RecordKey::OpenPin(filesystem_id, r.inode_id, r.open_id),
        StateRecord::Orphan(r) => RecordKey::Orphan(filesystem_id, r.inode_id),
        StateRecord::Lock(r) => RecordKey::Lock(filesystem_id, r.inode_id, r.lock_id),
        StateRecord::Xattr(r) => RecordKey::Xattr(filesystem_id, r.inode_id, r.name),
        StateRecord::XattrStaging(r) => RecordKey::XattrStaging(filesystem_id, r.staging_id),
        StateRecord::Mutation(r) => RecordKey::Mutation(r.filesystem_id, r.mutation_id),
        StateRecord::WriterLease(r) => RecordKey::WriterLease(r.filesystem_id, r.scope),
    }
}

/// The revision of a record.
pub open spec fn record_revision(record: StateRecord<Seq<u8>, Seq<char>>) -> RecordRevision {
    match record {
        StateRecord::Filesystem(r) => r.record_revision,
        StateRecord::Inode(r) => r.revision,
        StateRecord::ContentMetadata(r) => r.revision,
        StateRecord::DirectoryEntry(r) => r.revision,
        StateRecord::Open(r) => r.revision,
        StateRecord::OpenPin(r) => r.revision,
        StateRecord::Orphan(r) => r.revision,
        StateRecord::Lock(r) => r.revision,
        StateRecord::Xattr(r) => r.revision,
        StateRecord::XattrStaging(r) => r.revision,
        StateRecord::Mutation(r) => r.revision,
        StateRecord::WriterLease(r) => r.revision,
    }
}

/// Why a record cannot stand under a key.
pub open spec fn key_failure(
    key: RecordKey<Seq<u8>>,
    record: StateRecord<Seq<u8>, Seq<char>>,
) -> Option<RecordValidationError> {
    let own = record_key(crate::key::key_filesystem(key), record);
    if own == key {
        None
    } else if crate::key::family_tag(own) != crate::key::family_tag(key) {
        Some(RecordValidationError::KeyFamilyMismatch)
    } else {
        Some(RecordValidationError::KeyIdentityMismatch)
    }
}

/// The first of a record's values that exceeds its limit.
pub open spec fn record_limit_failure(
    record: StateRecord<Seq<u8>, Seq<char>>,
    limits: StateLimits,
) -> Option<StateLimitError> {
    let v = limits.values;
    match record {
        StateRecord::Inode(r) => values::first_failure(
            crate::limits::limit_failure(
                StateLimitKind::Principal,
                r.owner.bytes.len(),
                v.max_principal_bytes as nat,
            ),
            values::first_failure(
                crate::limits::limit_failure(
                    StateLimitKind::Group,
                    r.group.bytes.len(),
                    v.max_group_bytes as nat,
                ),
                match r.data {
                    InodeData::Symlink { target } => crate::limits::limit_failure(
                        StateLimitKind::Symlink,
                        target.bytes.len(),
                        v.max_symlink_bytes as nat,
                    ),
                    _ => None,
                },
            ),
        ),
        StateRecord::DirectoryEntry(r) => crate::limits::limit_failure(
            StateLimitKind::EntryName,
            r.name.bytes.len(),
            v.max_entry_name_bytes as nat,
        ),
        StateRecord::Xattr(r) => values::first_failure(
            crate::limits::limit_failure(
                StateLimitKind::XattrName,
                r.name.bytes.len(),
                v.max_xattr_name_bytes as nat,
            ),
            crate::limits::limit_failure(
                StateLimitKind::XattrValue,
                r.value.bytes.len(),
                v.max_xattr_value_bytes as nat,
            ),
        ),
        StateRecord::XattrStaging(r) => values::first_failure(
            crate::limits::limit_failure(
                StateLimitKind::XattrName,
                r.name.bytes.len(),
                v.max_xattr_name_bytes as nat,
            ),
            crate::limits::limit_failure(
                StateLimitKind::XattrValue,
                r.bytes.bytes.len(),
                v.max_xattr_value_bytes as nat,
            ),
        ),
        StateRecord::Mutation(r) => crate::limits::limit_failure(
            StateLimitKind::MutationResult,
            r.result.bytes.len(),
            v.max_mutation_result_bytes as nat,
        ),
        _ => None,
    }
}

impl StateRecord<Vec<u8>, String> {
    /// The revision of the record.
    pub fn revision(&self) -> (result: RecordRevision)
        ensures
            result == record_revision(self@),
    {
        match self {
            StateRecord::Filesystem(r) => r.record_revision,
            StateRecord::Inode(r) => r.revision,
            StateRecord::ContentMetadata(r) => r.revision,
            StateRecord::DirectoryEntry(r) => r.revision,
            StateRecord::Open(r) => r.revision,
            StateRecord::OpenPin(r) => r.revision,
            StateRecord::Orphan(r) => r.revision,
            StateRecord::Lock(r) => r.revision,
            StateRecord::Xattr(r) => r.revision,
            StateRecord::XattrStaging(r) => r.revision,
            StateRecord::Mutation(r) => r.revision,
            StateRecord::WriterLease(r) => r.revision,
        }
    }

    /// The key under which the record of a filesystem stands.
    pub fn own_key(&self, filesystem_id: FilesystemId) -> (result: RecordKey)
        ensures
            result@ == record_key(filesystem_id, self@),
    {
        match self {
            StateRecord::Filesystem(r) => RecordKey::Filesystem(r.filesystem_id),
            StateRecord::Inode(r) => RecordKey::Inode(filesystem_id, r.inode_id),
            StateRecord::ContentMetadata(r) => RecordKey::ContentMetadata(
                filesystem_id,
                r.content_file_id,
            ),
            StateRecord::DirectoryEntry(r) => RecordKey::DirectoryEntry(
                filesystem_id,
                r.parent_inode_id,
                r.name.copied(),
            ),
            StateRecord::Open(r) => RecordKey::Open(filesystem_id, r.open_id),
            StateRecord::OpenPin(r) => RecordKey::OpenPin(filesystem_id, r.inode_id, r.open_id),
            StateRecord::Orphan(r) => RecordKey::Orphan(filesystem_id, r.inode_id),
            StateRecord::Lock(r) => RecordKey::Lock(filesystem_id, r.inode_id, r.lock_id),
            StateRecord::Xattr(r) => RecordKey::Xattr(filesystem_id, r.inode_id, r.name.copied()),
            StateRecord::XattrStaging(r) => RecordKey::XattrStaging(filesystem_id, r.staging_id),
            StateRecord::Mutation(r) => RecordKey::Mutation(r.filesystem_id, r.mutation_id),
            StateRecord::WriterLease(r) => RecordKey::WriterLease(r.filesystem_id, r.scope),
        }
    }

    /// Checks that the record stands under a key.
    pub fn validate_key(&self, key: &RecordKey) -> (result: Result<(), RecordValidationError>)
        ensures
            result == crate::limits::checked(key_failure(key@, self@)),
    {
        let own = self.own_key(key.filesystem_id());
        if own.same(key) {
            Ok(())
        } else if own.tag() != key.tag() {
            Err(RecordValidationError::KeyFamilyMismatch)
        } else {
            Err(RecordValidationError::KeyIdentityMismatch)
        }
    }

    /// Checks every bounded value against the receiver's limits.
    pub fn validate_against_limits(&self, limits: StateLimits) -> (result: Result<
        (),
        StateLimitError,
    >)
        ensures
            result == crate::limits::checked(record_limit_failure(self@, limits)),
    {
        match self {
            StateRecord::Inode(r) => {
                match require_bytes(
                    StateLimitKind::Principal,
                    r.owner.bytes.len(),
                    limits.values.max_principal_bytes,
                ) {
                    Ok(()) => {},
                    Err(error) => {
                        return Err(error);
                    },
                }
                match require_bytes(
                    StateLimitKind::Group,
                    r.group.bytes.len(),
                    limits.values.max_group_bytes,
                ) {
                    Ok(()) => {},
                    Err(error) => {
                        return Err(error);
                    },
                }
                match &r.data {
                    InodeData::Symlink { target } => require_bytes(
                        StateLimitKind::Symlink,
                        target.bytes.len(),
                        limits.values.max_symlink_bytes,
                    ),
                    _ => Ok(()),
                }
            },
            StateRecord::DirectoryEntry(r) => require_bytes(
                StateLimitKind::EntryName,
                r.name.bytes.len(),
                limits.values.max_entry_name_bytes,
            ),
            StateRecord::Xattr(r) => {
                match require_bytes(
                    StateLimitKind::XattrName,
                    r.name.bytes.len(),
                    limits.values.max_xattr_name_bytes,
                ) {
                    Ok(()) => {},
                    Err(error) => {
                        return Err(error);
                    },
                }
                require_bytes(
                    StateLimitKind::XattrValue,
                    r.value.bytes.len(),
                    limits.values.max_xattr_value_bytes,
                )
            },
            StateRecord::XattrStaging(r) => {
                match require_bytes(
                    StateLimitKind::XattrName,
                    r.name.bytes.len(),
                    limits.values.max_xattr_name_bytes,
                ) {
                    Ok(()) => {},
                    Err(error) => {
                        return Err(error);
                    },
                }
                require_bytes(
                    StateLimitKind::XattrValue,
                    r.bytes.bytes.len(),
                    limits.values.max_xattr_value_bytes,
                )
            },
            StateRecord::Mutation(r) => require_bytes(
                StateLimitKind::MutationResult,
                r.result.bytes.len(),
                limits.values.max_mutation_result_bytes,
            ),
            _ => Ok(()),
        }
    }
}

} // verus!
