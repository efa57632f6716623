//! Commit requests: preconditions, state changes and outcomes.
use vstd::prelude::*;

use crate::ids::{
    ClientIncarnationId, ContentContextId, FencingToken, FileId, FilesystemId, InodeGeneration,
    DirectoryGeneration, InodeId, LeaseId, LockId, MutationId, MutationRetention, RecordRevision,
    RequestFingerprint, StateRevision, UnixTimestamp, WriterIncarnationId, WriterScopeId,
    XattrStagingId,
};
use crate::key::RecordKey;
use crate::limits::StateLimitError;
use crate::record::{
    ContentRef, InodeTimes, MutationResult, RecordValidationError, StateRecord,
};
use crate::values::{GroupId, PrincipalId, XattrName};

verus! {

/// Exact identity of a writer's current lease.
#[derive(Clone, Copy, Debug, PartialEq, Eq, Structural)]
pub struct WriterFence {
    /// Leased scope.
    pub scope: WriterScopeId,
    /// Holder.
    pub holder: WriterIncarnationId,
    /// Lease.
    pub lease_id: LeaseId,
    /// Fencing token.
    pub fencing_token: FencingToken,
}

/// Identity and retention of one mutation.
#[derive(Clone, Copy, Debug, PartialEq, Eq, Structural)]
pub struct MutationContext {
    /// Mutation.
    pub mutation_id: MutationId,
    /// Fingerprint of the request.
    pub fingerprint: RequestFingerprint,
    /// Client that asked.
    pub client_incarnation: ClientIncarnationId,
    /// Retention of the result.
    pub retention: MutationRetention,
}

/// Content generation on which a publication builds.
#[derive(Clone, Copy, Debug, PartialEq, Eq, Structural)]
pub struct ContentBase {
    /// Content file.
    pub file_id: FileId,
    /// Data generation.
    pub generation: u64,
}

/// A fact that must hold for a commit to apply.
#[derive(Clone, Debug, PartialEq, Eq)]
pub enum Precondition<B = Vec<u8>> {
    /// No record stands under the key.
    RecordAbsent(RecordKey<B>),
    /// The record has exactly this revision.
    RecordRevision {
        /// Key of the record.
        key: RecordKey<B>,
        /// Demanded revision.
        expected: RecordRevision,
    },
    /// The inode has exactly this metadata generation.
    InodeGeneration {
        /// Inode.
        inode_id: InodeId,
        /// Demanded generation.
        expected: InodeGeneration,
    },
    /// The inode has exactly this data generation.
    DataGeneration {
        /// Inode.
        inode_id: InodeId,
        /// Demanded generation; none for an inode without data.
        expected: Option<u64>,
    },
    /// The directory has exactly this generation.
    DirectoryGeneration {
        /// Inode.
        inode_id: InodeId,
        /// Demanded generation.
        expected: DirectoryGeneration,
    },
    /// The regular file has exactly this content.
    ContentBase {
        /// Inode.
        inode_id: InodeId,
        /// Demanded content.
        expected: ContentBase,
    },
    /// The inode has exactly this many links.
    LinkCount {
        /// Inode.
        inode_id: InodeId,
        /// Demanded count.
        expected: u64,
    },
    /// The inode has exactly this many open pins.
    OpenPinCount {
        /// Inode.
        inode_id: InodeId,
        /// Demanded count.
        expected: u64,
    },
    /// The filesystem policy has exactly this generation.
    FilesystemPolicyGeneration {
        /// Demanded generation.
        expected: u64,
    },
    /// The request carries exactly this fence.
    ExactFence(WriterFence),
}

impl View for Precondition<Vec<u8>> {
    type V = Precondition<Seq<u8>>;

    open spec fn view(&self) -> Precondition<Seq<u8>> {
        match self {
            Precondition::RecordAbsent(key) => Precondition::RecordAbsent(key@),
            Precondition::RecordRevision { key, expected } => Precondition::RecordRevision {
                key: key@,
                expected: *expected,
            },
            Precondition::InodeGeneration { inode_id, expected } => Precondition::InodeGeneration {
                inode_id: *inode_id,
                expected: *expected,
            },
            Precondition::DataGeneration { inode_id, expected } => Precondition::DataGeneration {
                inode_id: *inode_id,
                expected: *expected,
            },
            Precondition::DirectoryGeneration { inode_id, expected } =>
                Precondition::DirectoryGeneration { inode_id: *inode_id, expected: *expected },
            Precondition::ContentBase { inode_id, expected } => Precondition::ContentBase {
                inode_id: *inode_id,
                expected: *expected,
            },
            Precondition::LinkCount { inode_id, expected } => Precondition::LinkCount {
                inode_id: *inode_id,
                expected: *expected,
            },
            Precondition::OpenPinCount { inode_id, expected } => Precondition::OpenPinCount {
                inode_id: *inode_id,
                expected: *expected,
            },
            Precondition::FilesystemPolicyGeneration { expected } =>
                Precondition::FilesystemPolicyGeneration { expected: *expected },
            Precondition::ExactFence(fence) => Precondition::ExactFence(*fence),
        }
    }
}

/// Signed change of an unsigned count.
#[derive(Clone, Copy, Debug, PartialEq, Eq, Structural)]
pub enum CountAdjustment {
    /// Adds.
    Increase(u64),
    /// Subtracts.
    Decrease(u64),
}

impl CountAdjustment {
    /// The adjusted count, if it stays in range.
    pub open spec fn applied(self, count: u64) -> Option<u64> {
        match self {
            CountAdjustment::Increase(amount) => if count + amount <= u64::MAX {
                Some((count + amount) as u64)
            } else {
                None
            },
            CountAdjustment::Decrease(amount) => if amount <= count {
                Some((count - amount) as u64)
            } else {
                None
            },
        }
    }

    /// Adjusts a count within its range.
    pub fn apply(&self, count: u64) -> (result: Option<u64>)
        ensures
            result == self.applied(count),
    {
        match self {
            CountAdjustment::Increase(amount) => count.checked_add(*amount),
            CountAdjustment::Decrease(amount) => count.checked_sub(*amount),
        }
    }
}

/// Attributes that a publication may replace.
#[derive(Clone, Debug, PartialEq, Eq)]
pub struct PublicationAttributes<B = Vec<u8>> {
    /// New permission bits.
    pub mode: Option<u32>,
    /// New owner.
    pub owner: Option<PrincipalId<B>>,
    /// New group.
    pub group: Option<GroupId<B>>,
    /// New access time.
    pub accessed: Option<UnixTimestamp>,
    /// New modification time.
    pub modified: Option<UnixTimestamp>,
    /// New change time.
    pub changed: Option<UnixTimestamp>,
    /// New creation time.
    pub created: Option<UnixTimestamp>,
}

/// A replacement, or the value it leaves alone.
pub open spec fn replaced<V>(replacement: Option<V>, current: V) -> V {
    match replacement {
        Some(value) => value,
        None => current,
    }
}

impl View for PublicationAttributes<Vec<u8>> {
    type V = PublicationAttributes<Seq<u8>>;

    open spec fn view(&self) -> PublicationAttributes<Seq<u8>> {
        PublicationAttributes {
            mode: self.mode,
            owner: match self.owner {
                Some(owner) => Some(owner@),
                None => None,
            },
            group: match self.group {
                Some(group) => Some(group@),
                None => None,
            },
            accessed: self.accessed,
            modified: self.modified,
            changed: self.changed,
            created: self.created,
        }
    }
}

impl<B> PublicationAttributes<B> {
    /// The timestamps after the publication.
    pub open spec fn times_after(self, current: InodeTimes) -> InodeTimes {
        InodeTimes {
            accessed: replaced(self.accessed, current.accessed),
            modified: replaced(self.modified, current.modified),
            changed: replaced(self.changed, current.changed),
            created: replaced(self.created, current.created),
        }
    }
}

fn chosen_time(replacement: &Option<UnixTimestamp>, current: UnixTimestamp) -> (result:
    UnixTimestamp)
    ensures
        result == replaced(*replacement, current),
{
    match replacement {
        Some(time) => *time,
        None => current,
    }
}

impl PublicationAttributes<Vec<u8>> {
    /// Replaces the timestamps that are given.
    pub fn apply_times(&self, current: InodeTimes) -> (result: InodeTimes)
        ensures
            result == self@.times_after(current),
    {
        InodeTimes {
            accessed: chosen_time(&self.accessed, current.accessed),
            modified: chosen_time(&self.modified, current.modified),
            changed: chosen_time(&self.changed, current.changed),
            created: chosen_time(&self.created, current.created),
        }
    }
}

/// Publication of prepared content.
#[derive(Clone, Debug, PartialEq, Eq)]
pub struct ContentPublication<B = Vec<u8>, T = String> {
    /// Regular file.
    pub inode_id: InodeId,
    /// Prepared content.
    pub content: ContentRef<T>,
    /// Content file that the prepared content is bound to.
    pub context_file_id: FileId,
    /// Attributes changed along with the content.
    pub attributes: PublicationAttributes<B>,
    /// Size after the publication.
    pub logical_size: u64,
    /// Metadata generation after the publication.
    pub inode_generation: InodeGeneration,
    /// Data generation after the publication.
    pub data_generation: u64,
}

impl View for ContentPublication<Vec<u8>, String> {
    type V = ContentPublication<Seq<u8>, Seq<char>>;

    open spec fn view(&self) -> ContentPublication<Seq<u8>, Seq<char>> {
        ContentPublication {
            inode_id: self.inode_id,
            content: self.content@,
            context_file_id: self.context_file_id,
            attributes: self.attributes@,
            logical_size: self.logical_size,
            inode_generation: self.inode_generation,
            data_generation: self.data_generation,
        }
    }
}

/// Replacement of a wrapped content key.
#[derive(Clone, Debug, PartialEq, Eq)]
pub struct ContentMetadataRewrap<B = Vec<u8>> {
    /// Content file.
    pub content_file_id: FileId,
    /// Context the metadata must have.
    pub expected_context_id: ContentContextId,
    /// Revision the metadata must have.
    pub expected_revision: RecordRevision,
    /// New wrapped key.
    pub wrapped_key_bytes: B,
}

impl View for ContentMetadataRewrap<Vec<u8>> {
    type V = ContentMetadataRewrap<Seq<u8>>;

    open spec fn view(&self) -> ContentMetadataRewrap<Seq<u8>> {
        ContentMetadataRewrap {
            content_file_id: self.content_file_id,
            expected_context_id: self.expected_context_id,
            expected_revision: self.expected_revision,
            wrapped_key_bytes: self.wrapped_key_bytes@,
        }
    }
}

/// Publication of a staged extended attribute.
#[derive(Clone, Debug, PartialEq, Eq)]
pub struct XattrPublication<B = Vec<u8>> {
    /// Staged attribute.
    pub staging_id: XattrStagingId,
    /// Inode.
    pub inode_id: InodeId,
    /// Name.
    pub name: XattrName<B>,
}

impl View for XattrPublication<Vec<u8>> {
    type V = XattrPublication<Seq<u8>>;

    open spec fn view(&self) -> XattrPublication<Seq<u8>> {
        XattrPublication {
            staging_id: self.staging_id,
            inode_id: self.inode_id,
            name: self.name@,
        }
    }
}

/// One change of the authority.
#[derive(Clone, Debug, PartialEq, Eq)]
pub enum StateChange<B = Vec<u8>, T = String> {
    /// Adds a record.
    Insert {
        /// Key.
        key: RecordKey<B>,
        /// Record.
        record: StateRecord<B, T>,
    },
    /// Overwrites a record.
    Replace {
        /// Key.
        key: RecordKey<B>,
        /// Record.
        record: StateRecord<B, T>,
    },
    /// Removes a record.
    Delete(RecordKey<B>),
    /// Allocates directory cookies.
    AdvanceDirectoryCookie {
        /// How many.
        count: u64,
    },
    /// Allocates path numbers.
    AdvanceQidPath {
        /// How many.
        count: u64,
    },
    /// Steps the policy generation.
    BumpFilesystemPolicyGeneration,
    /// Steps an inode generation.
    BumpInodeGeneration(InodeId),
    /// Steps a directory generation.
    BumpDirectoryGeneration(InodeId),
    /// Changes a link count.
    AdjustLinkCount {
        /// Inode.
        inode_id: InodeId,
        /// Change.
        adjustment: CountAdjustment,
    },
    /// Changes the pin count of an orphan.
    AdjustOpenPinCount {
        /// Inode.
        inode_id: InodeId,
        /// Change.
        adjustment: CountAdjustment,
    },
    /// Steps a lock generation.
    BumpLockGeneration {
        /// Inode.
        inode_id: InodeId,
        /// Lock.
        lock_id: LockId,
    },
    /// Publishes prepared content.
    PublishContent(ContentPublication<B, T>),
    /// Replaces a wrapped content key.
    RewrapContentMetadata(ContentMetadataRewrap<B>),
    /// Publishes a staged extended attribute.
    PublishXattrStaging(XattrPublication<B>),
}

impl View for StateChange<Vec<u8>, String> {
    type V = StateChange<Seq<u8>, Seq<char>>;

    open spec fn view(&self) -> StateChange<Seq<u8>, Seq<char>> {
        match self {
            StateChange::Insert { key, record } => StateChange::Insert {
                key: key@,
                record: record@,
            },
            StateChange::Replace { key, record } => StateChange::Replace {
                key: key@,
                record: record@,
            },
            StateChange::Delete(key) => StateChange::Delete(key@),
            StateChange::AdvanceDirectoryCookie { count } => StateChange::AdvanceDirectoryCookie {
                count: *count,
            },
            StateChange::AdvanceQidPath { count } => StateChange::AdvanceQidPath { count: *count },
            StateChange::BumpFilesystemPolicyGeneration =>
                StateChange::BumpFilesystemPolicyGeneration,
            StateChange::BumpInodeGeneration(inode_id) => StateChange::BumpInodeGeneration(
                *inode_id,
            ),
            StateChange::BumpDirectoryGeneration(inode_id) => StateChange::BumpDirectoryGeneration(
                *inode_id,
            ),
            StateChange::AdjustLinkCount { inode_id, adjustment } => StateChange::AdjustLinkCount {
                inode_id: *inode_id,
                adjustment: *adjustment,
            },
            StateChange::AdjustOpenPinCount { inode_id, adjustment } =>
                StateChange::AdjustOpenPinCount { inode_id: *inode_id, adjustment: *adjustment },
            StateChange::BumpLockGeneration { inode_id, lock_id } =>
                StateChange::BumpLockGeneration { inode_id: *inode_id, lock_id: *lock_id },
            StateChange::PublishContent(publication) => StateChange::PublishContent(publication@),
            StateChange::RewrapContentMetadata(rewrap) => StateChange::RewrapContentMetadata(
                rewrap@,
            ),
            StateChange::PublishXattrStaging(publication) => StateChange::PublishXattrStaging(
                publication@,
            ),
        }
    }
}

/// The record that a change is about.
pub open spec fn primary_key(
    filesystem_id: FilesystemId,
    change: StateChange<Seq<u8>, Seq<char>>,
) -> RecordKey<Seq<u8>> {
    match change {
        StateChange::Insert { key, .. } => key,
        StateChange::Replace { key, .. } => key,
        StateChange::Delete(key) => key,
        StateChange::AdvanceDirectoryCookie { .. } => RecordKey::Filesystem(filesystem_id),
        StateChange::AdvanceQidPath { .. } => RecordKey::Filesystem(filesystem_id),
        StateChange::BumpFilesystemPolicyGeneration => RecordKey::Filesystem(filesystem_id),
        StateChange::BumpInodeGeneration(inode_id) => RecordKey::Inode(filesystem_id, inode_id),
        StateChange::BumpDirectoryGeneration(inode_id) => RecordKey::Inode(filesystem_id, inode_id),
        StateChange::AdjustLinkCount { inode_id, .. } => RecordKey::Inode(filesystem_id, inode_id),
        StateChange::AdjustOpenPinCount { inode_id, .. } => RecordKey::Orphan(
            filesystem_id,
            inode_id,
        ),
        StateChange::BumpLockGeneration { inode_id, lock_id } => RecordKey::Lock(
            filesystem_id,
            inode_id,
            lock_id,
        ),
        StateChange::PublishContent(publication) => RecordKey::Inode(
            filesystem_id,
            publication.inode_id,
        ),
        StateChange::RewrapContentMetadata(rewrap) => RecordKey::ContentMetadata(
            filesystem_id,
            rewrap.content_file_id,
        ),
        StateChange::PublishXattrStaging(publication) => RecordKey::XattrStaging(
            filesystem_id,
            publication.staging_id,
        ),
    }
}

/// The record that a change touches besides its primary one.
pub open spec fn secondary_key(
    filesystem_id: FilesystemId,
    change: StateChange<Seq<u8>, Seq<char>>,
) -> Option<RecordKey<Seq<u8>>> {
    match change {
        StateChange::PublishXattrStaging(publication) => Some(
            RecordKey::Xattr(filesystem_id, publication.inode_id, publication.name),
        ),
        _ => None,
    }
}

impl StateChange<Vec<u8>, String> {
    /// The record the change is about.
    pub fn primary_key(&self, filesystem_id: FilesystemId) -> (result: RecordKey)
        ensures
            result@ == primary_key(filesystem_id, self@),
    {
        match self {
            StateChange::Insert { key, .. } => key.copied(),
            StateChange::Replace { key, .. } => key.copied(),
            StateChange::Delete(key) => key.copied(),
            StateChange::AdvanceDirectoryCookie { .. } => RecordKey::Filesystem(filesystem_id),
            StateChange::AdvanceQidPath { .. } => RecordKey::Filesystem(filesystem_id),
            StateChange::BumpFilesystemPolicyGeneration => RecordKey::Filesystem(filesystem_id),
            StateChange::BumpInodeGeneration(inode_id) => RecordKey::Inode(
                filesystem_id,
                *inode_id,
            ),
            StateChange::BumpDirectoryGeneration(inode_id) => RecordKey::Inode(
                filesystem_id,
                *inode_id,
            ),
            StateChange::AdjustLinkCount { inode_id, .. } => RecordKey::Inode(
                filesystem_id,
                *inode_id,
            ),
            StateChange::AdjustOpenPinCount { inode_id, .. } => RecordKey::Orphan(
                filesystem_id,
                *inode_id,
            ),
            StateChange::BumpLockGeneration { inode_id, lock_id } => RecordKey::Lock(
                filesystem_id,
                *inode_id,
                *lock_id,
            ),
            StateChange::PublishContent(publication) => RecordKey::Inode(
                filesystem_id,
                publication.inode_id,
            ),
            StateChange::RewrapContentMetadata(rewrap) => RecordKey::ContentMetadata(
                filesystem_id,
                rewrap.content_file_id,
            ),
            StateChange::PublishXattrStaging(publication) => RecordKey::XattrStaging(
                filesystem_id,
                publication.staging_id,
            ),
        }
    }

    /// The record the change touches besides its primary one.
    pub fn secondary_key(&self, filesystem_id: FilesystemId) -> (result: Option<RecordKey>)
        ensures
            match result {
                Some(key) => secondary_key(filesystem_id, self@) == Some(key@),
                None => secondary_key(filesystem_id, self@) is None,
            },
    {
        match self {
            StateChange::PublishXattrStaging(publication) => Some(
                RecordKey::Xattr(filesystem_id, publication.inode_id, publication.name.copied()),
            ),
            _ => None,
        }
    }
}

/// One metadata commit.
#[derive(Clone, Debug, PartialEq, Eq)]
pub struct CommitRequest {
    /// Authority.
    pub filesystem_id: FilesystemId,
    /// Mutation.
    pub mutation: MutationContext,
    /// Fence of the writer.
    pub fence: WriterFence,
    /// Facts that must hold.
    pub preconditions: Vec<Precondition>,
    /// Changes to apply.
    pub changes: Vec<StateChange>,
    /// Result to retain.
    pub terminal_result: MutationResult,
}

/// The changes of a request.
pub open spec fn change_views(changes: Seq<StateChange>) -> Seq<StateChange<Seq<u8>, Seq<char>>> {
    changes.map_values(|change: StateChange| change@)
}

/// The preconditions of a request.
pub open spec fn precondition_views(preconditions: Seq<Precondition>) -> Seq<
    Precondition<Seq<u8>>,
> {
    preconditions.map_values(|precondition: Precondition| precondition@)
}

impl CommitRequest {
    /// The changes.
    pub open spec fn change_seq(&self) -> Seq<StateChange<Seq<u8>, Seq<char>>> {
        change_views(self.changes@)
    }

    /// The preconditions.
    pub open spec fn precondition_seq(&self) -> Seq<Precondition<Seq<u8>>> {
        precondition_views(self.preconditions@)
    }

    /// Key of the mutation in the replay ledger.
    pub open spec fn ledger_key(&self) -> RecordKey<Seq<u8>> {
        RecordKey::Mutation(self.filesystem_id, self.mutation.mutation_id)
    }
}

/// Key of a request's mutation in the replay ledger.
pub fn mutation_key(request: &CommitRequest) -> (result: RecordKey)
    ensures
        result@ == request.ledger_key(),
{
    RecordKey::Mutation(request.filesystem_id, request.mutation.mutation_id)
}

/// Why prepared content cannot be published.
#[derive(Clone, Copy, Debug, PartialEq, Eq, Structural)]
pub enum PublishContentError {
    /// The content is bound to another context.
    ContentContextMismatch,
    /// The content does not follow the current inode.
    Rejected {
        /// The rule that it breaks, as the rules of the state contract number it.
        code: u32,
    },
}

/// Why a wrapped content key cannot be replaced.
#[derive(Clone, Copy, Debug, PartialEq, Eq, Structural)]
pub enum RewrapError {
    /// The new key exceeds a limit.
    Limit(StateLimitError),
    /// The new key does not fit the metadata.
    Invalid,
}

/// A commit request contradicts itself or the authority.
#[derive(Clone, Debug, PartialEq, Eq)]
pub enum MalformedCommit<B = Vec<u8>> {
    /// Two changes target one record.
    DuplicateChangeTarget(RecordKey<B>),
    /// A number left its range.
    Arithmetic,
    /// Directory cookies are not allocated in order.
    DirectoryCookieAllocation,
    /// Path numbers are not allocated in order.
    QidPathAllocation,
    /// A changed directory keeps its generation.
    NamespaceGeneration,
    /// A replacement goes backwards.
    NonMonotonicTransition,
    /// A staged attribute is missing, incomplete or another one.
    InvalidXattrStaging,
    /// A staged attribute is written without being published.
    XattrPublicationRequired,
    /// Content changes only by publication.
    ContentReplacementRequiresPreparedPublication,
    /// A wrapped key cannot be replaced.
    InvalidContentMetadataRewrap,
    /// Prepared content cannot be published.
    InvalidPublication(PublishContentError),
    /// A record or relation is invalid.
    InvalidRecord(RecordValidationError),
    /// A limit is exceeded.
    Limit(StateLimitError),
}

impl View for MalformedCommit<Vec<u8>> {
    type V = MalformedCommit<Seq<u8>>;

    open spec fn view(&self) -> MalformedCommit<Seq<u8>> {
        match self {
            MalformedCommit::DuplicateChangeTarget(key) => MalformedCommit::DuplicateChangeTarget(
                key@,
            ),
            MalformedCommit::Arithmetic => MalformedCommit::Arithmetic,
            MalformedCommit::DirectoryCookieAllocation =>
                MalformedCommit::DirectoryCookieAllocation,
            MalformedCommit::QidPathAllocation => MalformedCommit::QidPathAllocation,
            MalformedCommit::NamespaceGeneration => MalformedCommit::NamespaceGeneration,
            MalformedCommit::NonMonotonicTransition => MalformedCommit::NonMonotonicTransition,
            MalformedCommit::InvalidXattrStaging => MalformedCommit::InvalidXattrStaging,
            MalformedCommit::XattrPublicationRequired => MalformedCommit::XattrPublicationRequired,
            MalformedCommit::ContentReplacementRequiresPreparedPublication =>
                MalformedCommit::ContentReplacementRequiresPreparedPublication,
            MalformedCommit::InvalidContentMetadataRewrap =>
                MalformedCommit::InvalidContentMetadataRewrap,
            MalformedCommit::InvalidPublication(error) => MalformedCommit::InvalidPublication(
                *error,
            ),
            MalformedCommit::InvalidRecord(error) => MalformedCommit::InvalidRecord(*error),
            MalformedCommit::Limit(error) => MalformedCommit::Limit(*error),
        }
    }
}

/// Why the authority is not as a commit expects it.
#[derive(Clone, Debug, PartialEq, Eq)]
pub enum CommitConflictKind<B = Vec<u8>> {
    /// A record is present.
    RecordPresent(RecordKey<B>),
    /// A record is missing.
    RecordMissing(RecordKey<B>),
    /// A record has another revision.
    RecordRevision {
        /// Key.
        key: RecordKey<B>,
        /// Demanded revision.
        expected: RecordRevision,
        /// Revision of the record.
        actual: RecordRevision,
    },
    /// Another inode generation, or no inode.
    InodeGeneration,
    /// Another data generation, or no inode.
    DataGeneration,
    /// Another directory generation, or no directory.
    DirectoryGeneration,
    /// Another content, or no regular file.
    ContentBase,
    /// Another link count, or no inode.
    LinkCount,
    /// Another open-pin count.
    OpenPinCount,
    /// Another policy generation, or no filesystem.
    FilesystemPolicyGeneration,
    /// Another fence.
    ExactFence,
    /// A lock excludes a requested one.
    LockConflict {
        /// The lowest excluding lock.
        existing: LockId,
    },
}

impl View for CommitConflictKind<Vec<u8>> {
    type V = CommitConflictKind<Seq<u8>>;

    open spec fn view(&self) -> CommitConflictKind<Seq<u8>> {
        match self {
            CommitConflictKind::RecordPresent(key) => CommitConflictKind::RecordPresent(key@),
            CommitConflictKind::RecordMissing(key) => CommitConflictKind::RecordMissing(key@),
            CommitConflictKind::RecordRevision { key, expected, actual } =>
                CommitConflictKind::RecordRevision {
                    key: key@,
                    expected: *expected,
                    actual: *actual,
                },
            CommitConflictKind::InodeGeneration => CommitConflictKind::InodeGeneration,
            CommitConflictKind::DataGeneration => CommitConflictKind::DataGeneration,
            CommitConflictKind::DirectoryGeneration => CommitConflictKind::DirectoryGeneration,
            CommitConflictKind::ContentBase => CommitConflictKind::ContentBase,
            CommitConflictKind::LinkCount => CommitConflictKind::LinkCount,
            CommitConflictKind::OpenPinCount => CommitConflictKind::OpenPinCount,
            CommitConflictKind::FilesystemPolicyGeneration =>
                CommitConflictKind::FilesystemPolicyGeneration,
            CommitConflictKind::ExactFence => CommitConflictKind::ExactFence,
            CommitConflictKind::LockConflict { existing } => CommitConflictKind::LockConflict {
                existing: *existing,
            },
        }
    }
}

/// A commit met an authority it did not expect.
#[derive(Clone, Debug, PartialEq, Eq)]
pub struct CommitConflict<B = Vec<u8>> {
    /// First precondition that failed, or their number when a change failed.
    pub precondition_index: usize,
    /// What failed.
    pub kind: CommitConflictKind<B>,
}

impl View for CommitConflict<Vec<u8>> {
    type V = CommitConflict<Seq<u8>>;

    open spec fn view(&self) -> CommitConflict<Seq<u8>> {
        CommitConflict { precondition_index: self.precondition_index, kind: self.kind@ }
    }
}

/// Published revision and retained result.
#[derive(Clone, Debug, PartialEq, Eq)]
pub struct CommittedMutation<B = Vec<u8>> {
    /// Revision.
    pub revision: StateRevision,
    /// Result.
    pub result: MutationResult<B>,
}

impl View for CommittedMutation<Vec<u8>> {
    type V = CommittedMutation<Seq<u8>>;

    open spec fn view(&self) -> CommittedMutation<Seq<u8>> {
        CommittedMutation { revision: self.revision, result: self.result@ }
    }
}

/// How the mutation of a request differs from the one that its identity belongs
/// to.
#[derive(Clone, Copy, Debug, PartialEq, Eq, Structural)]
pub struct MutationMismatch {
    /// The difference, as the rules of the state contract number it.
    pub code: u32,
}

/// What became of a commit.
#[derive(Clone, Debug, PartialEq, Eq)]
pub enum CommitOutcome<B = Vec<u8>> {
    /// Applied now.
    Committed(CommittedMutation<B>),
    /// Applied before, under the same identity and fingerprint.
    AlreadyCommitted(CommittedMutation<B>),
    /// The identity belongs to another mutation, which differs in this way.
    MutationMismatch(MutationMismatch),
    /// The fence is no longer current.
    StaleFence,
    /// The lease of the fence has expired.
    ExpiredLease,
    /// The authority is not as expected.
    Conflict(CommitConflict<B>),
    /// The request is malformed.
    MalformedRequest(MalformedCommit<B>),
    /// The commit may or may not have been applied.
    Ambiguous(MutationContext),
}

impl View for CommitOutcome<Vec<u8>> {
    type V = CommitOutcome<Seq<u8>>;

    open spec fn view(&self) -> CommitOutcome<Seq<u8>> {
        match self {
            CommitOutcome::Committed(committed) => CommitOutcome::Committed(committed@),
            CommitOutcome::AlreadyCommitted(committed) => CommitOutcome::AlreadyCommitted(
                committed@,
            ),
            CommitOutcome::MutationMismatch(mismatch) => CommitOutcome::MutationMismatch(
                *mismatch,
            ),
            CommitOutcome::StaleFence => CommitOutcome::StaleFence,
            CommitOutcome::ExpiredLease => CommitOutcome::ExpiredLease,
            CommitOutcome::Conflict(conflict) => CommitOutcome::Conflict(conflict@),
            CommitOutcome::MalformedRequest(malformed) => CommitOutcome::MalformedRequest(
                malformed@,
            ),
            CommitOutcome::Ambiguous(mutation) => CommitOutcome::Ambiguous(*mutation),
        }
    }
}

} // verus!
