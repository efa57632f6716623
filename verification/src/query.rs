//! Read queries, record scans and the results that answer them.
use vstd::prelude::*;

use crate::bytes;
use crate::bytes::{bytes_eq, bytes_lt};
use crate::ids::{
    DirectoryCookie, FileId, FilesystemId, InodeId, LockId, MutationId, OpenId, QidPath,
    RecordRevision, StateRevision, WriterScopeId, XattrStagingId,
};
use crate::key::RecordKey;
use crate::limits;
use crate::limits::{require_bytes, StateLimitError, StateLimitKind, StateLimits};
use crate::record::{
    ContentMetadataRecord, DirectoryEntryRecord, InodeKind, InodeRecord, StateRecord,
};
use crate::values::{EntryName, XattrName};

verus! {

/// Bounds of one page.
#[derive(Clone, Copy, Debug, PartialEq, Eq, Structural)]
pub struct ScanBounds {
    /// Most items.
    pub max_items: u32,
    /// Most retained bytes.
    pub max_bytes: usize,
}

/// Position after one open pin.
#[derive(Clone, Copy, Debug, PartialEq, Eq, Structural)]
pub struct OpenPinCursor {
    /// Pinned inode.
    pub inode_id: InodeId,
    /// Pinning handle.
    pub open_id: OpenId,
}

/// Position after one lock.
#[derive(Clone, Copy, Debug, PartialEq, Eq, Structural)]
pub struct LockCursor {
    /// Locked inode.
    pub inode_id: InodeId,
    /// Lock.
    pub lock_id: LockId,
}

/// Position after one extended attribute.
#[derive(Clone, Debug, PartialEq, Eq)]
pub struct XattrCursor<B = Vec<u8>> {
    /// Inode.
    pub inode_id: InodeId,
    /// Name.
    pub name: XattrName<B>,
}

impl View for XattrCursor<Vec<u8>> {
    type V = XattrCursor<Seq<u8>>;

    open spec fn view(&self) -> XattrCursor<Seq<u8>> {
        XattrCursor { inode_id: self.inode_id, name: self.name@ }
    }
}

/// Scan of one record family in its key order.
#[derive(Clone, Debug, PartialEq, Eq)]
pub enum RecordScan<B = Vec<u8>> {
    /// Inodes.
    Inodes {
        /// Position to start after.
        after: Option<InodeId>,
        /// Bounds of the page.
        bounds: ScanBounds,
    },
    /// Content metadata.
    ContentMetadata {
        /// Position to start after.
        after: Option<FileId>,
        /// Bounds of the page.
        bounds: ScanBounds,
    },
    /// Entries of one directory, in cookie order.
    DirectoryEntries {
        /// Directory.
        parent_inode_id: InodeId,
        /// Position to start after.
        after: DirectoryCookie,
        /// Bounds of the page.
        bounds: ScanBounds,
    },
    /// Open handles.
    Opens {
        /// Position to start after.
        after: Option<OpenId>,
        /// Bounds of the page.
        bounds: ScanBounds,
    },
    /// Open pins.
    OpenPins {
        /// Position to start after.
        after: Option<OpenPinCursor>,
        /// Bounds of the page.
        bounds: ScanBounds,
    },
    /// Orphans.
    Orphans {
        /// Position to start after.
        after: Option<InodeId>,
        /// Bounds of the page.
        bounds: ScanBounds,
    },
    /// Locks.
    Locks {
        /// Position to start after.
        after: Option<LockCursor>,
        /// Bounds of the page.
        bounds: ScanBounds,
    },
    /// Extended attributes.
    Xattrs {
        /// Position to start after.
        after: Option<XattrCursor<B>>,
        /// Bounds of the page.
        bounds: ScanBounds,
    },
    /// Staged extended attributes.
    XattrStaging {
        /// Position to start after.
        after: Option<XattrStagingId>,
        /// Bounds of the page.
        bounds: ScanBounds,
    },
    /// Mutation results.
    Mutations {
        /// Position to start after.
        after: Option<MutationId>,
        /// Bounds of the page.
        bounds: ScanBounds,
    },
    /// Active writer leases.
    WriterLeases {
        /// Position to start after.
        after: Option<WriterScopeId>,
        /// Bounds of the page.
        bounds: ScanBounds,
    },
}

impl View for RecordScan<Vec<u8>> {
    type V = RecordScan<Seq<u8>>;

    open spec fn view(&self) -> RecordScan<Seq<u8>> {
        match self {
            RecordScan::Inodes { after, bounds } => RecordScan::Inodes {
                after: *after,
                bounds: *bounds,
            },
            RecordScan::ContentMetadata { after, bounds } => RecordScan::ContentMetadata {
                after: *after,
                bounds: *bounds,
            },
            RecordScan::DirectoryEntries { parent_inode_id, after, bounds } => {
                RecordScan::DirectoryEntries {
                    parent_inode_id: *parent_inode_id,
                    after: *after,
                    bounds: *bounds,
                }
            },
            RecordScan::Opens { after, bounds } => RecordScan::Opens {
                after: *after,
                bounds: *bounds,
            },
            RecordScan::OpenPins { after, bounds } => RecordScan::OpenPins {
                after: *after,
                bounds: *bounds,
            },
            RecordScan::Orphans { after, bounds } => RecordScan::Orphans {
                after: *after,
                bounds: *bounds,
            },
            RecordScan::Locks { after, bounds } => RecordScan::Locks {
                after: *after,
                bounds: *bounds,
            },
            RecordScan::Xattrs { after, bounds } => RecordScan::Xattrs {
                after: match after {
                    Some(cursor) => Some(cursor@),
                    None => None,
                },
                bounds: *bounds,
            },
            RecordScan::XattrStaging { after, bounds } => RecordScan::XattrStaging {
                after: *after,
                bounds: *bounds,
            },
            RecordScan::Mutations { after, bounds } => RecordScan::Mutations {
                after: *after,
                bounds: *bounds,
            },
            RecordScan::WriterLeases { after, bounds } => RecordScan::WriterLeases {
                after: *after,
                bounds: *bounds,
            },
        }
    }
}

/// The bounds of a scan.
pub open spec fn scan_bounds<B>(scan: RecordScan<B>) -> ScanBounds {
    match scan {
        RecordScan::Inodes { bounds, .. } => bounds,
        RecordScan::ContentMetadata { bounds, .. } => bounds,
        RecordScan::DirectoryEntries { bounds, .. } => bounds,
        RecordScan::Opens { bounds, .. } => bounds,
        RecordScan::OpenPins { bounds, .. } => bounds,
        RecordScan::Orphans { bounds, .. } => bounds,
        RecordScan::Locks { bounds, .. } => bounds,
        RecordScan::Xattrs { bounds, .. } => bounds,
        RecordScan::XattrStaging { bounds, .. } => bounds,
        RecordScan::Mutations { bounds, .. } => bounds,
        RecordScan::WriterLeases { bounds, .. } => bounds,
    }
}

/// The family number of the records that a scan finds.
pub open spec fn scan_family<B>(scan: RecordScan<B>) -> i16 {
    match scan {
        RecordScan::Inodes { .. } => 2,
        RecordScan::DirectoryEntries { .. } => 3,
        RecordScan::Opens { .. } => 4,
        RecordScan::OpenPins { .. } => 5,
        RecordScan::Orphans { .. } => 6,
        RecordScan::Locks { .. } => 7,
        RecordScan::Xattrs { .. } => 8,
        RecordScan::XattrStaging { .. } => 9,
        RecordScan::Mutations { .. } => 10,
        RecordScan::WriterLeases { .. } => 11,
        RecordScan::ContentMetadata { .. } => 12,
    }
}

impl RecordScan<Vec<u8>> {
    /// The bounds of the scan.
    pub fn bounds(&self) -> (result: ScanBounds)
        ensures
            result == scan_bounds(self@),
    {
        match self {
            RecordScan::Inodes { bounds, .. } => *bounds,
            RecordScan::ContentMetadata { bounds, .. } => *bounds,
            RecordScan::DirectoryEntries { bounds, .. } => *bounds,
            RecordScan::Opens { bounds, .. } => *bounds,
            RecordScan::OpenPins { bounds, .. } => *bounds,
            RecordScan::Orphans { bounds, .. } => *bounds,
            RecordScan::Locks { bounds, .. } => *bounds,
            RecordScan::Xattrs { bounds, .. } => *bounds,
            RecordScan::XattrStaging { bounds, .. } => *bounds,
            RecordScan::Mutations { bounds, .. } => *bounds,
            RecordScan::WriterLeases { bounds, .. } => *bounds,
        }
    }

    /// The family number of the records that the scan finds.
    pub fn family(&self) -> (result: i16)
        ensures
            result == scan_family(self@),
    {
        match self {
            RecordScan::Inodes { .. } => 2,
            RecordScan::DirectoryEntries { .. } => 3,
            RecordScan::Opens { .. } => 4,
            RecordScan::OpenPins { .. } => 5,
            RecordScan::Orphans { .. } => 6,
            RecordScan::Locks { .. } => 7,
            RecordScan::Xattrs { .. } => 8,
            RecordScan::XattrStaging { .. } => 9,
            RecordScan::Mutations { .. } => 10,
            RecordScan::WriterLeases { .. } => 11,
            RecordScan::ContentMetadata { .. } => 12,
        }
    }
}

/// Position after the last record of a page.
#[derive(Clone, Debug, PartialEq, Eq)]
pub enum ScanResume<B = Vec<u8>> {
    /// After an inode.
    Inode(InodeId),
    /// After content metadata.
    ContentMetadata(FileId),
    /// After a directory entry.
    DirectoryEntry(DirectoryCookie),
    /// After an open handle.
    Open(OpenId),
    /// After an open pin.
    OpenPin(OpenPinCursor),
    /// After an orphan.
    Orphan(InodeId),
    /// After a lock.
    Lock(LockCursor),
    /// After an extended attribute.
    Xattr(XattrCursor<B>),
    /// After a staged extended attribute.
    XattrStaging(XattrStagingId),
    /// After a mutation result.
    Mutation(MutationId),
    /// After a writer lease.
    WriterLease(WriterScopeId),
}

impl View for ScanResume<Vec<u8>> {
    type V = ScanResume<Seq<u8>>;

    open spec fn view(&self) -> ScanResume<Seq<u8>> {
        match self {
            ScanResume::Inode(id) => ScanResume::Inode(*id),
            ScanResume::ContentMetadata(id) => ScanResume::ContentMetadata(*id),
            ScanResume::DirectoryEntry(cookie) => ScanResume::DirectoryEntry(*cookie),
            ScanResume::Open(id) => ScanResume::Open(*id),
            ScanResume::OpenPin(cursor) => ScanResume::OpenPin(*cursor),
            ScanResume::Orphan(id) => ScanResume::Orphan(*id),
            ScanResume::Lock(cursor) => ScanResume::Lock(*cursor),
            ScanResume::Xattr(cursor) => ScanResume::Xattr(cursor@),
            ScanResume::XattrStaging(id) => ScanResume::XattrStaging(*id),
            ScanResume::Mutation(id) => ScanResume::Mutation(*id),
            ScanResume::WriterLease(id) => ScanResume::WriterLease(*id),
        }
    }
}

/// The family number of the records that a position separates.
pub open spec fn resume_family<B>(resume: ScanResume<B>) -> i16 {
    match resume {
        ScanResume::Inode(_) => 2,
        ScanResume::DirectoryEntry(_) => 3,
        ScanResume::Open(_) => 4,
        ScanResume::OpenPin(_) => 5,
        ScanResume::Orphan(_) => 6,
        ScanResume::Lock(_) => 7,
        ScanResume::Xattr(_) => 8,
        ScanResume::XattrStaging(_) => 9,
        ScanResume::Mutation(_) => 10,
        ScanResume::WriterLease(_) => 11,
        ScanResume::ContentMetadata(_) => 12,
    }
}

/// The leading number of a position.
pub open spec fn resume_first<B>(resume: ScanResume<B>) -> u128 {
    match resume {
        ScanResume::Inode(id) => id.value,
        ScanResume::DirectoryEntry(cookie) => cookie.value as u128,
        ScanResume::Open(id) => id.value,
        ScanResume::OpenPin(cursor) => cursor.inode_id.value,
        ScanResume::Orphan(id) => id.value,
        ScanResume::Lock(cursor) => cursor.inode_id.value,
        ScanResume::Xattr(cursor) => cursor.inode_id.value,
        ScanResume::XattrStaging(id) => id.value,
        ScanResume::Mutation(id) => id.value,
        ScanResume::WriterLease(id) => id.value,
        ScanResume::ContentMetadata(id) => id.value,
    }
}

/// The second number of a position.
pub open spec fn resume_second<B>(resume: ScanResume<B>) -> u128 {
    match resume {
        ScanResume::OpenPin(cursor) => cursor.open_id.value,
        ScanResume::Lock(cursor) => cursor.lock_id.value,
        _ => 0,
    }
}

/// The name of a position.
pub open spec fn resume_name(resume: ScanResume<Seq<u8>>) -> Seq<u8> {
    match resume {
        ScanResume::Xattr(cursor) => cursor.name.bytes,
        _ => Seq::empty(),
    }
}

/// Order of positions: by family, then by number, then by second number, then
/// by name.
pub open spec fn resume_lt(left: ScanResume<Seq<u8>>, right: ScanResume<Seq<u8>>) -> bool {
    if resume_family(left) != resume_family(right) {
        resume_family(left) < resume_family(right)
    } else if resume_first(left) != resume_first(right) {
        resume_first(left) < resume_first(right)
    } else if resume_second(left) != resume_second(right) {
        resume_second(left) < resume_second(right)
    } else {
        bytes::lex_lt(resume_name(left), resume_name(right))
    }
}

impl ScanResume<Vec<u8>> {
    /// The family number of the records that the position separates.
    pub fn family(&self) -> (result: i16)
        ensures
            result == resume_family(self@),
    {
        match self {
            ScanResume::Inode(_) => 2,
            ScanResume::DirectoryEntry(_) => 3,
            ScanResume::Open(_) => 4,
            ScanResume::OpenPin(_) => 5,
            ScanResume::Orphan(_) => 6,
            ScanResume::Lock(_) => 7,
            ScanResume::Xattr(_) => 8,
            ScanResume::XattrStaging(_) => 9,
            ScanResume::Mutation(_) => 10,
            ScanResume::WriterLease(_) => 11,
            ScanResume::ContentMetadata(_) => 12,
        }
    }

    /// Both numbers of the position.
    pub(crate) fn numbers(&self) -> (result: (u128, u128))
        ensures
            result.0 == resume_first(self@),
            result.1 == resume_second(self@),
    {
        match self {
            ScanResume::Inode(id) => (id.value, 0),
            ScanResume::DirectoryEntry(cookie) => (cookie.value as u128, 0),
            ScanResume::Open(id) => (id.value, 0),
            ScanResume::OpenPin(cursor) => (cursor.inode_id.value, cursor.open_id.value),
            ScanResume::Orphan(id) => (id.value, 0),
            ScanResume::Lock(cursor) => (cursor.inode_id.value, cursor.lock_id.value),
            ScanResume::Xattr(cursor) => (cursor.inode_id.value, 0),
            ScanResume::XattrStaging(id) => (id.value, 0),
            ScanResume::Mutation(id) => (id.value, 0),
            ScanResume::WriterLease(id) => (id.value, 0),
            ScanResume::ContentMetadata(id) => (id.value, 0),
        }
    }

    /// Whether the position stands before another one.
    pub fn precedes(&self, other: &Self) -> (result: bool)
        ensures
            result == resume_lt(self@, other@),
    {
        if self.family() != other.family() {
            return self.family() < other.family();
        }
        let (left_first, left_second) = self.numbers();
        let (right_first, right_second) = other.numbers();
        if left_first != right_first {
            return left_first < right_first;
        }
        if left_second != right_second {
            return left_second < right_second;
        }
        match (self, other) {
            (ScanResume::Xattr(left), ScanResume::Xattr(right)) => bytes_lt(
                &left.name.bytes,
                &right.name.bytes,
            ),
            _ => {
                proof {
                    bytes::lemma_lex_irreflexive(Seq::empty());
                }
                false
            },
        }
    }

    /// Whether two positions are the same.
    pub fn same(&self, other: &Self) -> (result: bool)
        ensures
            result == (self@ == other@),
    {
        if self.family() != other.family() {
            return false;
        }
        let (left_first, left_second) = self.numbers();
        let (right_first, right_second) = other.numbers();
        if left_first != right_first || left_second != right_second {
            return false;
        }
        match (self, other) {
            (ScanResume::Xattr(left), ScanResume::Xattr(right)) => bytes_eq(
                &left.name.bytes,
                &right.name.bytes,
            ),
            _ => true,
        }
    }

    /// A copy of the position.
    pub fn copied(&self) -> (result: Self)
        ensures
            result@ == self@,
    {
        match self {
            ScanResume::Inode(id) => ScanResume::Inode(*id),
            ScanResume::ContentMetadata(id) => ScanResume::ContentMetadata(*id),
            ScanResume::DirectoryEntry(cookie) => ScanResume::DirectoryEntry(*cookie),
            ScanResume::Open(id) => ScanResume::Open(*id),
            ScanResume::OpenPin(cursor) => ScanResume::OpenPin(*cursor),
            ScanResume::Orphan(id) => ScanResume::Orphan(*id),
            ScanResume::Lock(cursor) => ScanResume::Lock(*cursor),
            ScanResume::Xattr(cursor) => ScanResume::Xattr(
                XattrCursor { inode_id: cursor.inode_id, name: cursor.name.copied() },
            ),
            ScanResume::XattrStaging(id) => ScanResume::XattrStaging(*id),
            ScanResume::Mutation(id) => ScanResume::Mutation(*id),
            ScanResume::WriterLease(id) => ScanResume::WriterLease(*id),
        }
    }
}

/// One query of a read batch.
#[derive(Clone, Debug, PartialEq, Eq)]
pub enum ReadQuery<B = Vec<u8>> {
    /// The filesystem header.
    Filesystem,
    /// One inode.
    Inode(InodeId),
    /// The inode with a path number.
    InodeByQidPath(QidPath),
    /// One inode with the metadata of its content.
    InodeWithContentMetadata(InodeId),
    /// Metadata of one content file.
    ContentMetadata(FileId),
    /// One name in a directory.
    DirectoryEntry {
        /// Directory.
        parent_inode_id: InodeId,
        /// Name.
        name: EntryName<B>,
    },
    /// A page of a directory, with its children.
    DirectoryPage {
        /// Directory.
        parent_inode_id: InodeId,
        /// Position to start after.
        after: DirectoryCookie,
        /// Bounds of the page.
        bounds: ScanBounds,
    },
    /// One open handle.
    Open(OpenId),
    /// One open pin.
    OpenPin {
        /// Pinned inode.
        inode_id: InodeId,
        /// Pinning handle.
        open_id: OpenId,
    },
    /// The number of pins on an inode.
    OpenPinCount(InodeId),
    /// One orphan.
    Orphan(InodeId),
    /// One lock.
    Lock {
        /// Locked inode.
        inode_id: InodeId,
        /// Lock.
        lock_id: LockId,
    },
    /// One extended attribute.
    Xattr {
        /// Inode.
        inode_id: InodeId,
        /// Name.
        name: XattrName<B>,
    },
    /// One staged extended attribute.
    XattrStaging(XattrStagingId),
    /// One mutation result.
    Mutation(MutationId),
    /// One writer lease.
    WriterLease(WriterScopeId),
    /// A page of one record family.
    Scan(RecordScan<B>),
}

impl View for ReadQuery<Vec<u8>> {
    type V = ReadQuery<Seq<u8>>;

    open spec fn view(&self) -> ReadQuery<Seq<u8>> {
        match self {
            ReadQuery::Filesystem => ReadQuery::Filesystem,
            ReadQuery::Inode(id) => ReadQuery::Inode(*id),
            ReadQuery::InodeByQidPath(path) => ReadQuery::InodeByQidPath(*path),
            ReadQuery::InodeWithContentMetadata(id) => ReadQuery::InodeWithContentMetadata(*id),
            ReadQuery::ContentMetadata(id) => ReadQuery::ContentMetadata(*id),
            ReadQuery::DirectoryEntry { parent_inode_id, name } => ReadQuery::DirectoryEntry {
                parent_inode_id: *parent_inode_id,
                name: name@,
            },
            ReadQuery::DirectoryPage { parent_inode_id, after, bounds } => {
                ReadQuery::DirectoryPage {
                    parent_inode_id: *parent_inode_id,
                    after: *after,
                    bounds: *bounds,
                }
            },
            ReadQuery::Open(id) => ReadQuery::Open(*id),
            ReadQuery::OpenPin { inode_id, open_id } => ReadQuery::OpenPin {
                inode_id: *inode_id,
                open_id: *open_id,
            },
            ReadQuery::OpenPinCount(id) => ReadQuery::OpenPinCount(*id),
            ReadQuery::Orphan(id) => ReadQuery::Orphan(*id),
            ReadQuery::Lock { inode_id, lock_id } => ReadQuery::Lock {
                inode_id: *inode_id,
                lock_id: *lock_id,
            },
            ReadQuery::Xattr { inode_id, name } => ReadQuery::Xattr {
                inode_id: *inode_id,
                name: name@,
            },
            ReadQuery::XattrStaging(id) => ReadQuery::XattrStaging(*id),
            ReadQuery::Mutation(id) => ReadQuery::Mutation(*id),
            ReadQuery::WriterLease(scope) => ReadQuery::WriterLease(*scope),
            ReadQuery::Scan(scan) => ReadQuery::Scan(scan@),
        }
    }
}

/// The one record that a query asks for by its key.
pub open spec fn query_key<B>(query: ReadQuery<B>, filesystem_id: FilesystemId) -> Option<
    RecordKey<B>,
> {
    match query {
        ReadQuery::Filesystem => Some(RecordKey::Filesystem(filesystem_id)),
        ReadQuery::Inode(id) => Some(RecordKey::Inode(filesystem_id, id)),
        ReadQuery::ContentMetadata(id) => Some(RecordKey::ContentMetadata(filesystem_id, id)),
        ReadQuery::DirectoryEntry { parent_inode_id, name } => Some(
            RecordKey::DirectoryEntry(filesystem_id, parent_inode_id, name),
        ),
        ReadQuery::Open(id) => Some(RecordKey::Open(filesystem_id, id)),
        ReadQuery::OpenPin { inode_id, open_id } => Some(
            RecordKey::OpenPin(filesystem_id, inode_id, open_id),
        ),
        ReadQuery::Orphan(id) => Some(RecordKey::Orphan(filesystem_id, id)),
        ReadQuery::Lock { inode_id, lock_id } => Some(
            RecordKey::Lock(filesystem_id, inode_id, lock_id),
        ),
        ReadQuery::Xattr { inode_id, name } => Some(
            RecordKey::Xattr(filesystem_id, inode_id, name),
        ),
        ReadQuery::XattrStaging(id) => Some(RecordKey::XattrStaging(filesystem_id, id)),
        ReadQuery::Mutation(id) => Some(RecordKey::Mutation(filesystem_id, id)),
        ReadQuery::WriterLease(scope) => Some(RecordKey::WriterLease(filesystem_id, scope)),
        _ => None,
    }
}

/// The query that asks for one record by its key.
pub open spec fn key_query<B>(key: RecordKey<B>) -> ReadQuery<B> {
    match key {
        RecordKey::Filesystem(_) => ReadQuery::Filesystem,
        RecordKey::Inode(_, id) => ReadQuery::Inode(id),
        RecordKey::ContentMetadata(_, id) => ReadQuery::ContentMetadata(id),
        RecordKey::DirectoryEntry(_, parent_inode_id, name) => ReadQuery::DirectoryEntry {
            parent_inode_id,
            name,
        },
        RecordKey::Open(_, id) => ReadQuery::Open(id),
        RecordKey::OpenPin(_, inode_id, open_id) => ReadQuery::OpenPin { inode_id, open_id },
        RecordKey::Orphan(_, id) => ReadQuery::Orphan(id),
        RecordKey::Lock(_, inode_id, lock_id) => ReadQuery::Lock { inode_id, lock_id },
        RecordKey::Xattr(_, inode_id, name) => ReadQuery::Xattr { inode_id, name },
        RecordKey::XattrStaging(_, id) => ReadQuery::XattrStaging(id),
        RecordKey::Mutation(_, id) => ReadQuery::Mutation(id),
        RecordKey::WriterLease(_, scope) => ReadQuery::WriterLease(scope),
    }
}

/// The query that asks for a record by its key asks for that key.
pub proof fn law_point_queries_keep_their_key(key: RecordKey<Seq<u8>>)
    ensures
        query_key(key_query(key), crate::key::key_filesystem(key)) == Some(key),
{
}

/// The query that asks for one record by its key.
pub fn point_query(key: &RecordKey) -> (result: ReadQuery)
    ensures
        result@ == key_query(key@),
{
    match key {
        RecordKey::Filesystem(_) => ReadQuery::Filesystem,
        RecordKey::Inode(_, id) => ReadQuery::Inode(*id),
        RecordKey::ContentMetadata(_, id) => ReadQuery::ContentMetadata(*id),
        RecordKey::DirectoryEntry(_, parent_inode_id, name) => ReadQuery::DirectoryEntry {
            parent_inode_id: *parent_inode_id,
            name: name.copied(),
        },
        RecordKey::Open(_, id) => ReadQuery::Open(*id),
        RecordKey::OpenPin(_, inode_id, open_id) => ReadQuery::OpenPin {
            inode_id: *inode_id,
            open_id: *open_id,
        },
        RecordKey::Orphan(_, id) => ReadQuery::Orphan(*id),
        RecordKey::Lock(_, inode_id, lock_id) => ReadQuery::Lock {
            inode_id: *inode_id,
            lock_id: *lock_id,
        },
        RecordKey::Xattr(_, inode_id, name) => ReadQuery::Xattr {
            inode_id: *inode_id,
            name: name.copied(),
        },
        RecordKey::XattrStaging(_, id) => ReadQuery::XattrStaging(*id),
        RecordKey::Mutation(_, id) => ReadQuery::Mutation(*id),
        RecordKey::WriterLease(_, scope) => ReadQuery::WriterLease(*scope),
    }
}

/// An optional key as contracts speak of it.
pub open spec fn optional_key(key: Option<RecordKey>) -> Option<RecordKey<Seq<u8>>> {
    match key {
        Some(key) => Some(key@),
        None => None,
    }
}

impl ReadQuery<Vec<u8>> {
    /// The key of the one record that the query asks for, if it does.
    pub fn point_key(&self, filesystem_id: FilesystemId) -> (result: Option<RecordKey>)
        ensures
            optional_key(result) == query_key(self@, filesystem_id),
    {
        match self {
            ReadQuery::Filesystem => Some(RecordKey::Filesystem(filesystem_id)),
            ReadQuery::Inode(id) => Some(RecordKey::Inode(filesystem_id, *id)),
            ReadQuery::ContentMetadata(id) => Some(RecordKey::ContentMetadata(filesystem_id, *id)),
            ReadQuery::DirectoryEntry { parent_inode_id, name } => Some(
                RecordKey::DirectoryEntry(filesystem_id, *parent_inode_id, name.copied()),
            ),
            ReadQuery::Open(id) => Some(RecordKey::Open(filesystem_id, *id)),
            ReadQuery::OpenPin { inode_id, open_id } => Some(
                RecordKey::OpenPin(filesystem_id, *inode_id, *open_id),
            ),
            ReadQuery::Orphan(id) => Some(RecordKey::Orphan(filesystem_id, *id)),
            ReadQuery::Lock { inode_id, lock_id } => Some(
                RecordKey::Lock(filesystem_id, *inode_id, *lock_id),
            ),
            ReadQuery::Xattr { inode_id, name } => Some(
                RecordKey::Xattr(filesystem_id, *inode_id, name.copied()),
            ),
            ReadQuery::XattrStaging(id) => Some(RecordKey::XattrStaging(filesystem_id, *id)),
            ReadQuery::Mutation(id) => Some(RecordKey::Mutation(filesystem_id, *id)),
            ReadQuery::WriterLease(scope) => Some(RecordKey::WriterLease(filesystem_id, *scope)),
            _ => None,
        }
    }
}

/// The name of a key that exceeds a limit.
pub open spec fn key_limit_failure(key: RecordKey<Seq<u8>>, limits: StateLimits) -> Option<
    StateLimitError,
> {
    match key {
        RecordKey::DirectoryEntry(_, _, name) => limits::limit_failure(
            StateLimitKind::EntryName,
            name.bytes.len(),
            limits.values.max_entry_name_bytes as nat,
        ),
        RecordKey::Xattr(_, _, name) => limits::limit_failure(
            StateLimitKind::XattrName,
            name.bytes.len(),
            limits.values.max_xattr_name_bytes as nat,
        ),
        _ => None,
    }
}

/// Checks the names in a key against the receiver's limits.
pub fn validate_key_limits(key: &RecordKey, limits: StateLimits) -> (result: Result<
    (),
    StateLimitError,
>)
    ensures
        result == limits::checked(key_limit_failure(key@, limits)),
{
    match key {
        RecordKey::DirectoryEntry(_, _, name) => require_bytes(
            StateLimitKind::EntryName,
            name.bytes.len(),
            limits.values.max_entry_name_bytes,
        ),
        RecordKey::Xattr(_, _, name) => require_bytes(
            StateLimitKind::XattrName,
            name.bytes.len(),
            limits.values.max_xattr_name_bytes,
        ),
        _ => Ok(()),
    }
}

/// Least revision that a read accepts.
#[derive(Clone, Copy, Debug, PartialEq, Eq, Structural)]
pub enum ReadConsistency {
    /// Whatever is current at the primary.
    LatestLinearizable,
    /// At least this revision.
    AtLeast(StateRevision),
}

/// Queries that one snapshot answers.
#[derive(Clone, Debug, PartialEq, Eq)]
pub struct ReadBatch {
    /// Authority.
    pub filesystem_id: FilesystemId,
    /// Least revision.
    pub consistency: ReadConsistency,
    /// Queries.
    pub queries: Vec<ReadQuery>,
}

/// Queries as contracts speak of them.
pub open spec fn query_views(queries: Seq<ReadQuery>) -> Seq<ReadQuery<Seq<u8>>> {
    queries.map_values(|query: ReadQuery| query@)
}

impl ReadBatch {
    /// The queries.
    pub open spec fn query_seq(self) -> Seq<ReadQuery<Seq<u8>>> {
        query_views(self.queries@)
    }
}

/// One entry of a directory page.
#[derive(Clone, Debug, PartialEq, Eq)]
pub struct DirectoryPageEntry<B = Vec<u8>> {
    /// The entry.
    pub entry: DirectoryEntryRecord<B>,
    /// Kind of the child.
    pub kind: InodeKind,
    /// Path number of the child.
    pub qid_path: QidPath,
    /// Revision of the child.
    pub child_revision: RecordRevision,
}

impl View for DirectoryPageEntry<Vec<u8>> {
    type V = DirectoryPageEntry<Seq<u8>>;

    open spec fn view(&self) -> DirectoryPageEntry<Seq<u8>> {
        DirectoryPageEntry {
            entry: self.entry@,
            kind: self.kind,
            qid_path: self.qid_path,
            child_revision: self.child_revision,
        }
    }
}

/// Entries as contracts speak of them.
pub open spec fn entry_views(entries: Seq<DirectoryPageEntry>) -> Seq<DirectoryPageEntry<Seq<u8>>> {
    entries.map_values(|entry: DirectoryPageEntry| entry@)
}

/// A page of a directory.
#[derive(Clone, Debug, PartialEq, Eq)]
pub struct DirectoryPage {
    /// Entries in cookie order.
    pub entries: Vec<DirectoryPageEntry>,
    /// Position to go on after, where there is more.
    pub resume: Option<DirectoryCookie>,
}

/// Mathematical content of a page of a directory.
#[verifier::ext_equal]
pub struct DirectoryPageView {
    /// Entries in cookie order.
    pub entries: Seq<DirectoryPageEntry<Seq<u8>>>,
    /// Position to go on after, where there is more.
    pub resume: Option<DirectoryCookie>,
}

impl View for DirectoryPage {
    type V = DirectoryPageView;

    open spec fn view(&self) -> DirectoryPageView {
        DirectoryPageView { entries: entry_views(self.entries@), resume: self.resume }
    }
}

/// A page of one record family.
#[derive(Clone, Debug, PartialEq, Eq)]
pub struct ScanPage {
    /// Family number.
    pub family: i16,
    /// Records in scan order.
    pub records: Vec<(RecordKey, StateRecord)>,
    /// Position to go on after, where there is more.
    pub resume: Option<ScanResume>,
}

/// A record with its key, as contracts speak of it.
pub type RecordView = (RecordKey<Seq<u8>>, StateRecord<Seq<u8>, Seq<char>>);

/// Records as contracts speak of them.
pub open spec fn record_views(records: Seq<(RecordKey, StateRecord)>) -> Seq<RecordView> {
    records.map_values(|record: (RecordKey, StateRecord)| (record.0@, record.1@))
}

/// Mathematical content of a page of one record family.
#[verifier::ext_equal]
pub struct ScanPageView {
    /// Family number.
    pub family: i16,
    /// Records in scan order.
    pub records: Seq<RecordView>,
    /// Position to go on after, where there is more.
    pub resume: Option<ScanResume<Seq<u8>>>,
}

/// An optional position as contracts speak of it.
pub open spec fn optional_resume(resume: Option<ScanResume>) -> Option<ScanResume<Seq<u8>>> {
    match resume {
        Some(resume) => Some(resume@),
        None => None,
    }
}

impl View for ScanPage {
    type V = ScanPageView;

    open spec fn view(&self) -> ScanPageView {
        ScanPageView {
            family: self.family,
            records: record_views(self.records@),
            resume: optional_resume(self.resume),
        }
    }
}

/// Answer to one query.
#[derive(Clone, Debug, PartialEq, Eq)]
pub enum ReadResult {
    /// One record, or its absence.
    Point {
        /// Key.
        key: RecordKey,
        /// Record.
        record: Option<StateRecord>,
    },
    /// The inode with a path number, or its absence.
    InodeByQidPath {
        /// Path number.
        qid_path: QidPath,
        /// Inode.
        inode: Option<InodeRecord>,
    },
    /// An inode with the metadata of its content, as far as they are there.
    InodeWithContentMetadata {
        /// Inode asked for.
        inode_id: InodeId,
        /// Inode.
        inode: Option<InodeRecord>,
        /// Metadata.
        metadata: Option<ContentMetadataRecord>,
    },
    /// The number of pins on an inode.
    OpenPinCount {
        /// Inode asked for.
        inode_id: InodeId,
        /// Number of pins.
        count: u64,
    },
    /// A page of a directory.
    DirectoryPage(DirectoryPage),
    /// A page of one record family.
    Scan(ScanPage),
}

/// Answer to one query, as contracts speak of it.
pub enum ResultView {
    /// One record, or its absence.
    Point {
        /// Key.
        key: RecordKey<Seq<u8>>,
        /// Record.
        record: Option<StateRecord<Seq<u8>, Seq<char>>>,
    },
    /// The inode with a path number, or its absence.
    InodeByQidPath {
        /// Path number.
        qid_path: QidPath,
        /// Inode.
        inode: Option<InodeRecord<Seq<u8>, Seq<char>>>,
    },
    /// An inode with the metadata of its content, as far as they are there.
    InodeWithContentMetadata {
        /// Inode asked for.
        inode_id: InodeId,
        /// Inode.
        inode: Option<InodeRecord<Seq<u8>, Seq<char>>>,
        /// Metadata.
        metadata: Option<ContentMetadataRecord<Seq<u8>>>,
    },
    /// The number of pins on an inode.
    OpenPinCount {
        /// Inode asked for.
        inode_id: InodeId,
        /// Number of pins.
        count: u64,
    },
    /// A page of a directory.
    DirectoryPage(DirectoryPageView),
    /// A page of one record family.
    Scan(ScanPageView),
}

/// An optional record as contracts speak of it.
pub open spec fn optional_record(record: Option<StateRecord>) -> Option<
    StateRecord<Seq<u8>, Seq<char>>,
> {
    match record {
        Some(record) => Some(record@),
        None => None,
    }
}

/// An optional inode as contracts speak of it.
pub open spec fn optional_inode(inode: Option<InodeRecord>) -> Option<
    InodeRecord<Seq<u8>, Seq<char>>,
> {
    match inode {
        Some(inode) => Some(inode@),
        None => None,
    }
}

/// Optional metadata as contracts speak of it.
pub open spec fn optional_metadata(metadata: Option<ContentMetadataRecord>) -> Option<
    ContentMetadataRecord<Seq<u8>>,
> {
    match metadata {
        Some(metadata) => Some(metadata@),
        None => None,
    }
}

impl View for ReadResult {
    type V = ResultView;

    open spec fn view(&self) -> ResultView {
        match self {
            ReadResult::Point { key, record } => ResultView::Point {
                key: key@,
                record: optional_record(*record),
            },
            ReadResult::InodeByQidPath { qid_path, inode } => ResultView::InodeByQidPath {
                qid_path: *qid_path,
                inode: optional_inode(*inode),
            },
            ReadResult::InodeWithContentMetadata { inode_id, inode, metadata } => {
                ResultView::InodeWithContentMetadata {
                    inode_id: *inode_id,
                    inode: optional_inode(*inode),
                    metadata: optional_metadata(*metadata),
                }
            },
            ReadResult::OpenPinCount { inode_id, count } => ResultView::OpenPinCount {
                inode_id: *inode_id,
                count: *count,
            },
            ReadResult::DirectoryPage(page) => ResultView::DirectoryPage(page@),
            ReadResult::Scan(page) => ResultView::Scan(page@),
        }
    }
}

/// A result answers a query about a filesystem.
pub open spec fn answers(
    query: ReadQuery<Seq<u8>>,
    filesystem_id: FilesystemId,
    result: ResultView,
) -> bool {
    match query {
        ReadQuery::InodeByQidPath(path) => result matches ResultView::InodeByQidPath {
            qid_path,
            inode,
        } && qid_path == path && (inode is Some ==> inode->0.qid_path == path),
        ReadQuery::InodeWithContentMetadata(id) => {
            result matches ResultView::InodeWithContentMetadata { inode_id, inode, .. } && inode_id
                == id && (inode is Some ==> inode->0.inode_id == id)
        },
        ReadQuery::OpenPinCount(id) => result matches ResultView::OpenPinCount { inode_id, .. }
            && inode_id == id,
        ReadQuery::DirectoryPage { bounds, .. } => result matches ResultView::DirectoryPage(page)
            && page.entries.len() <= bounds.max_items,
        ReadQuery::Scan(scan) => result matches ResultView::Scan(page) && page.family
            == scan_family(scan) && page.records.len() <= scan_bounds(scan).max_items,
        _ => result matches ResultView::Point { key, record } && Some(key) == query_key(
            query,
            filesystem_id,
        ) && (record is Some ==> crate::record::key_failure(key, record->0) is None),
    }
}

/// Results of one snapshot.
#[derive(Clone, Debug, PartialEq, Eq)]
pub struct StateSnapshot {
    /// Revision of the snapshot.
    pub revision: StateRevision,
    /// One answer per query, in query order.
    pub results: Vec<ReadResult>,
}

/// What became of a read.
#[derive(Clone, Debug, PartialEq, Eq)]
pub enum ReadOutcome {
    /// Every query is answered.
    Snapshot(StateSnapshot),
    /// The authority has not reached the least revision.
    RevisionUnavailable {
        /// Least revision.
        required: StateRevision,
        /// Current revision.
        current: StateRevision,
    },
    /// A page cannot hold even its first item.
    ScanBoundTooSmall {
        /// Index of the query.
        query_index: usize,
        /// Size of the first item.
        required_bytes: usize,
    },
    /// The batch exceeds a limit.
    MalformedRequest(StateLimitError),
}

} // verus!
