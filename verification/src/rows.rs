//! Plain column values of the public record tables.
use vstd::prelude::*;

use crate::bytes;

verus! {

/// Column values of one `filesystem_records` row.
#[derive(Clone, Debug, PartialEq, Eq)]
pub struct FilesystemRow<B = Vec<u8>, T = String> {
    /// Column `filesystem_id`.
    pub filesystem_id: B,
    /// Column `state_revision`.
    pub state_revision: T,
    /// Column `record_revision`.
    pub record_revision: T,
    /// Column `root_inode_id`.
    pub root_inode_id: B,
    /// Column `next_qid_path`.
    pub next_qid_path: T,
    /// Column `next_directory_cookie`.
    pub next_directory_cookie: T,
    /// Column `policy_generation`.
    pub policy_generation: T,
}

impl View for FilesystemRow<Vec<u8>, String> {
    type V = FilesystemRow<Seq<u8>, Seq<char>>;

    open spec fn view(&self) -> FilesystemRow<Seq<u8>, Seq<char>> {
        FilesystemRow {
            filesystem_id: self.filesystem_id@,
            state_revision: self.state_revision@,
            record_revision: self.record_revision@,
            root_inode_id: self.root_inode_id@,
            next_qid_path: self.next_qid_path@,
            next_directory_cookie: self.next_directory_cookie@,
            policy_generation: self.policy_generation@,
        }
    }
}

/// Column values of one `inodes` row.
#[derive(Clone, Debug, PartialEq, Eq)]
pub struct InodeRow<B = Vec<u8>, T = String> {
    /// Column `filesystem_id`.
    pub filesystem_id: B,
    /// Column `inode_id`.
    pub inode_id: B,
    /// Column `qid_path`.
    pub qid_path: T,
    /// Column `record_revision`.
    pub record_revision: T,
    /// Column `mode`.
    pub mode: i32,
    /// Column `owner`.
    pub owner: B,
    /// Column `group_id`.
    pub group_id: B,
    /// Column `accessed_seconds`.
    pub accessed_seconds: i64,
    /// Column `accessed_nanoseconds`.
    pub accessed_nanoseconds: i32,
    /// Column `modified_seconds`.
    pub modified_seconds: i64,
    /// Column `modified_nanoseconds`.
    pub modified_nanoseconds: i32,
    /// Column `changed_seconds`.
    pub changed_seconds: i64,
    /// Column `changed_nanoseconds`.
    pub changed_nanoseconds: i32,
    /// Column `created_seconds`.
    pub created_seconds: i64,
    /// Column `created_nanoseconds`.
    pub created_nanoseconds: i32,
    /// Column `logical_size`.
    pub logical_size: T,
    /// Column `link_count`.
    pub link_count: T,
    /// Column `inode_generation`.
    pub inode_generation: T,
    /// Column `kind`.
    pub kind: i16,
    /// Column `content_file_id`.
    pub content_file_id: Option<B>,
    /// Column `content_context_id`.
    pub content_context_id: Option<B>,
    /// Column `data_generation`.
    pub data_generation: Option<T>,
    /// Column `content_generation`.
    pub content_generation: Option<T>,
    /// Column `content_logical_size`.
    pub content_logical_size: Option<T>,
    /// Column `content_manifest_key`.
    pub content_manifest_key: Option<T>,
    /// Column `content_manifest_digest`.
    pub content_manifest_digest: Option<B>,
    /// Column `content_storage_method`.
    pub content_storage_method: Option<i16>,
    /// Column `directory_generation`.
    pub directory_generation: Option<T>,
    /// Column `directory_parent_inode_id`.
    pub directory_parent_inode_id: Option<B>,
    /// Column `symlink_target`.
    pub symlink_target: Option<B>,
    /// Column `device_major`.
    pub device_major: Option<i64>,
    /// Column `device_minor`.
    pub device_minor: Option<i64>,
}

impl View for InodeRow<Vec<u8>, String> {
    type V = InodeRow<Seq<u8>, Seq<char>>;

    open spec fn view(&self) -> InodeRow<Seq<u8>, Seq<char>> {
        InodeRow {
            filesystem_id: self.filesystem_id@,
            inode_id: self.inode_id@,
            qid_path: self.qid_path@,
            record_revision: self.record_revision@,
            mode: self.mode,
            owner: self.owner@,
            group_id: self.group_id@,
            accessed_seconds: self.accessed_seconds,
            accessed_nanoseconds: self.accessed_nanoseconds,
            modified_seconds: self.modified_seconds,
            modified_nanoseconds: self.modified_nanoseconds,
            changed_seconds: self.changed_seconds,
            changed_nanoseconds: self.changed_nanoseconds,
            created_seconds: self.created_seconds,
            created_nanoseconds: self.created_nanoseconds,
            logical_size: self.logical_size@,
            link_count: self.link_count@,
            inode_generation: self.inode_generation@,
            kind: self.kind,
            content_file_id: bytes::optional_bytes(self.content_file_id),
            content_context_id: bytes::optional_bytes(self.content_context_id),
            data_generation: bytes::optional_text(self.data_generation),
            content_generation: bytes::optional_text(self.content_generation),
            content_logical_size: bytes::optional_text(self.content_logical_size),
            content_manifest_key: bytes::optional_text(self.content_manifest_key),
            content_manifest_digest: bytes::optional_bytes(self.content_manifest_digest),
            content_storage_method: self.content_storage_method,
            directory_generation: bytes::optional_text(self.directory_generation),
            directory_parent_inode_id: bytes::optional_bytes(self.directory_parent_inode_id),
            symlink_target: bytes::optional_bytes(self.symlink_target),
            device_major: self.device_major,
            device_minor: self.device_minor,
        }
    }
}

/// Column values of one `content_metadata` row.
#[derive(Clone, Debug, PartialEq, Eq)]
pub struct ContentMetadataRow<B = Vec<u8>, T = String> {
    /// Column `filesystem_id`.
    pub filesystem_id: B,
    /// Column `content_file_id`.
    pub content_file_id: B,
    /// Column `owner_inode_id`.
    pub owner_inode_id: B,
    /// Column `context_id`.
    pub context_id: B,
    /// Column `policy_format`.
    pub policy_format: i32,
    /// Column `policy_bytes`.
    pub policy_bytes: B,
    /// Column `key_commitment`.
    pub key_commitment: Option<B>,
    /// Column `wrapped_key_bytes`.
    pub wrapped_key_bytes: Option<B>,
    /// Column `record_revision`.
    pub record_revision: T,
}

impl View for ContentMetadataRow<Vec<u8>, String> {
    type V = ContentMetadataRow<Seq<u8>, Seq<char>>;

    open spec fn view(&self) -> ContentMetadataRow<Seq<u8>, Seq<char>> {
        ContentMetadataRow {
            filesystem_id: self.filesystem_id@,
            content_file_id: self.content_file_id@,
            owner_inode_id: self.owner_inode_id@,
            context_id: self.context_id@,
            policy_format: self.policy_format,
            policy_bytes: self.policy_bytes@,
            key_commitment: bytes::optional_bytes(self.key_commitment),
            wrapped_key_bytes: bytes::optional_bytes(self.wrapped_key_bytes),
            record_revision: self.record_revision@,
        }
    }
}

/// Column values of one `directory_entries` row.
#[derive(Clone, Debug, PartialEq, Eq)]
pub struct DirectoryEntryRow<B = Vec<u8>, T = String> {
    /// Column `filesystem_id`.
    pub filesystem_id: B,
    /// Column `parent_inode_id`.
    pub parent_inode_id: B,
    /// Column `name`.
    pub name: B,
    /// Column `cookie`.
    pub cookie: T,
    /// Column `child_inode_id`.
    pub child_inode_id: B,
    /// Column `record_revision`.
    pub record_revision: T,
}

impl View for DirectoryEntryRow<Vec<u8>, String> {
    type V = DirectoryEntryRow<Seq<u8>, Seq<char>>;

    open spec fn view(&self) -> DirectoryEntryRow<Seq<u8>, Seq<char>> {
        DirectoryEntryRow {
            filesystem_id: self.filesystem_id@,
            parent_inode_id: self.parent_inode_id@,
            name: self.name@,
            cookie: self.cookie@,
            child_inode_id: self.child_inode_id@,
            record_revision: self.record_revision@,
        }
    }
}

/// Column values of one `opens` row.
#[derive(Clone, Debug, PartialEq, Eq)]
pub struct OpenRow<B = Vec<u8>, T = String> {
    /// Column `filesystem_id`.
    pub filesystem_id: B,
    /// Column `open_id`.
    pub open_id: B,
    /// Column `inode_id`.
    pub inode_id: B,
    /// Column `client_incarnation_id`.
    pub client_incarnation_id: B,
    /// Column `access`.
    pub access: i16,
    /// Column `append`.
    pub append: bool,
    /// Column `retained_inode_generation`.
    pub retained_inode_generation: T,
    /// Column `record_revision`.
    pub record_revision: T,
}

impl View for OpenRow<Vec<u8>, String> {
    type V = OpenRow<Seq<u8>, Seq<char>>;

    open spec fn view(&self) -> OpenRow<Seq<u8>, Seq<char>> {
        OpenRow {
            filesystem_id: self.filesystem_id@,
            open_id: self.open_id@,
            inode_id: self.inode_id@,
            client_incarnation_id: self.client_incarnation_id@,
            access: self.access,
            append: self.append,
            retained_inode_generation: self.retained_inode_generation@,
            record_revision: self.record_revision@,
        }
    }
}

/// Column values of one `open_pins` row.
#[derive(Clone, Debug, PartialEq, Eq)]
pub struct OpenPinRow<B = Vec<u8>, T = String> {
    /// Column `filesystem_id`.
    pub filesystem_id: B,
    /// Column `inode_id`.
    pub inode_id: B,
    /// Column `open_id`.
    pub open_id: B,
    /// Column `record_revision`.
    pub record_revision: T,
}

impl View for OpenPinRow<Vec<u8>, String> {
    type V = OpenPinRow<Seq<u8>, Seq<char>>;

    open spec fn view(&self) -> OpenPinRow<Seq<u8>, Seq<char>> {
        OpenPinRow {
            filesystem_id: self.filesystem_id@,
            inode_id: self.inode_id@,
            open_id: self.open_id@,
            record_revision: self.record_revision@,
        }
    }
}

/// Column values of one `orphans` row.
#[derive(Clone, Debug, PartialEq, Eq)]
pub struct OrphanRow<B = Vec<u8>, T = String> {
    /// Column `filesystem_id`.
    pub filesystem_id: B,
    /// Column `inode_id`.
    pub inode_id: B,
    /// Column `open_pin_count`.
    pub open_pin_count: T,
    /// Column `orphaned_revision`.
    pub orphaned_revision: T,
    /// Column `record_revision`.
    pub record_revision: T,
}

impl View for OrphanRow<Vec<u8>, String> {
    type V = OrphanRow<Seq<u8>, Seq<char>>;

    open spec fn view(&self) -> OrphanRow<Seq<u8>, Seq<char>> {
        OrphanRow {
            filesystem_id: self.filesystem_id@,
            inode_id: self.inode_id@,
            open_pin_count: self.open_pin_count@,
            orphaned_revision: self.orphaned_revision@,
            record_revision: self.record_revision@,
        }
    }
}

/// Column values of one `locks` row.
#[derive(Clone, Debug, PartialEq, Eq)]
pub struct LockRow<B = Vec<u8>, T = String> {
    /// Column `filesystem_id`.
    pub filesystem_id: B,
    /// Column `inode_id`.
    pub inode_id: B,
    /// Column `lock_id`.
    pub lock_id: B,
    /// Column `range_start`.
    pub range_start: T,
    /// Column `range_end`.
    pub range_end: Option<T>,
    /// Column `kind`.
    pub kind: i16,
    /// Column `owner_client_incarnation_id`.
    pub owner_client_incarnation_id: B,
    /// Column `owner_open_id`.
    pub owner_open_id: B,
    /// Column `lock_generation`.
    pub lock_generation: T,
    /// Column `record_revision`.
    pub record_revision: T,
}

impl View for LockRow<Vec<u8>, String> {
    type V = LockRow<Seq<u8>, Seq<char>>;

    open spec fn view(&self) -> LockRow<Seq<u8>, Seq<char>> {
        LockRow {
            filesystem_id: self.filesystem_id@,
            inode_id: self.inode_id@,
            lock_id: self.lock_id@,
            range_start: self.range_start@,
            range_end: bytes::optional_text(self.range_end),
            kind: self.kind,
            owner_client_incarnation_id: self.owner_client_incarnation_id@,
            owner_open_id: self.owner_open_id@,
            lock_generation: self.lock_generation@,
            record_revision: self.record_revision@,
        }
    }
}

/// Column values of one `xattrs` row.
#[derive(Clone, Debug, PartialEq, Eq)]
pub struct XattrRow<B = Vec<u8>, T = String> {
    /// Column `filesystem_id`.
    pub filesystem_id: B,
    /// Column `inode_id`.
    pub inode_id: B,
    /// Column `name`.
    pub name: B,
    /// Column `value`.
    pub value: B,
    /// Column `record_revision`.
    pub record_revision: T,
}

impl View for XattrRow<Vec<u8>, String> {
    type V = XattrRow<Seq<u8>, Seq<char>>;

    open spec fn view(&self) -> XattrRow<Seq<u8>, Seq<char>> {
        XattrRow {
            filesystem_id: self.filesystem_id@,
            inode_id: self.inode_id@,
            name: self.name@,
            value: self.value@,
            record_revision: self.record_revision@,
        }
    }
}

/// Column values of one `xattr_staging` row.
#[derive(Clone, Debug, PartialEq, Eq)]
pub struct XattrStagingRow<B = Vec<u8>, T = String> {
    /// Column `filesystem_id`.
    pub filesystem_id: B,
    /// Column `staging_id`.
    pub staging_id: B,
    /// Column `inode_id`.
    pub inode_id: B,
    /// Column `name`.
    pub name: B,
    /// Column `expected_size`.
    pub expected_size: T,
    /// Column `staged_bytes`.
    pub staged_bytes: B,
    /// Column `record_revision`.
    pub record_revision: T,
}

impl View for XattrStagingRow<Vec<u8>, String> {
    type V = XattrStagingRow<Seq<u8>, Seq<char>>;

    open spec fn view(&self) -> XattrStagingRow<Seq<u8>, Seq<char>> {
        XattrStagingRow {
            filesystem_id: self.filesystem_id@,
            staging_id: self.staging_id@,
            inode_id: self.inode_id@,
            name: self.name@,
            expected_size: self.expected_size@,
            staged_bytes: self.staged_bytes@,
            record_revision: self.record_revision@,
        }
    }
}

/// Column values of one `mutation_results` row.
#[derive(Clone, Debug, PartialEq, Eq)]
pub struct MutationRow<B = Vec<u8>, T = String> {
    /// Column `filesystem_id`.
    pub filesystem_id: B,
    /// Column `mutation_id`.
    pub mutation_id: B,
    /// Column `request_fingerprint`.
    pub request_fingerprint: B,
    /// Column `client_incarnation_id`.
    pub client_incarnation_id: B,
    /// Column `writer_scope_id`.
    pub writer_scope_id: B,
    /// Column `writer_incarnation_id`.
    pub writer_incarnation_id: B,
    /// Column `fencing_token`.
    pub fencing_token: T,
    /// Column `result_kind`.
    pub result_kind: i32,
    /// Column `result_format`.
    pub result_format: i32,
    /// Column `result_bytes`.
    pub result_bytes: B,
    /// Column `committed_revision`.
    pub committed_revision: T,
    /// Column `retention_horizon`.
    pub retention_horizon: T,
    /// Column `record_revision`.
    pub record_revision: T,
}

impl View for MutationRow<Vec<u8>, String> {
    type V = MutationRow<Seq<u8>, Seq<char>>;

    open spec fn view(&self) -> MutationRow<Seq<u8>, Seq<char>> {
        MutationRow {
            filesystem_id: self.filesystem_id@,
            mutation_id: self.mutation_id@,
            request_fingerprint: self.request_fingerprint@,
            client_incarnation_id: self.client_incarnation_id@,
            writer_scope_id: self.writer_scope_id@,
            writer_incarnation_id: self.writer_incarnation_id@,
            fencing_token: self.fencing_token@,
            result_kind: self.result_kind,
            result_format: self.result_format,
            result_bytes: self.result_bytes@,
            committed_revision: self.committed_revision@,
            retention_horizon: self.retention_horizon@,
            record_revision: self.record_revision@,
        }
    }
}

/// Column values of one `writer_fences` row.
#[derive(Clone, Debug, PartialEq, Eq)]
pub struct WriterLeaseRow<B = Vec<u8>, T = String> {
    /// Column `filesystem_id`.
    pub filesystem_id: B,
    /// Column `writer_scope_id`.
    pub writer_scope_id: B,
    /// Column `greatest_fencing_token`.
    pub greatest_fencing_token: T,
    /// Column `active_holder_id`.
    pub active_holder_id: B,
    /// Column `active_lease_id`.
    pub active_lease_id: B,
    /// Column `active_deadline_tick`.
    pub active_deadline_tick: T,
    /// Column `active_record_revision`.
    pub active_record_revision: T,
}

impl View for WriterLeaseRow<Vec<u8>, String> {
    type V = WriterLeaseRow<Seq<u8>, Seq<char>>;

    open spec fn view(&self) -> WriterLeaseRow<Seq<u8>, Seq<char>> {
        WriterLeaseRow {
            filesystem_id: self.filesystem_id@,
            writer_scope_id: self.writer_scope_id@,
            greatest_fencing_token: self.greatest_fencing_token@,
            active_holder_id: self.active_holder_id@,
            active_lease_id: self.active_lease_id@,
            active_deadline_tick: self.active_deadline_tick@,
            active_record_revision: self.active_record_revision@,
        }
    }
}

/// Plain column values of one row in a public record table.
#[derive(Clone, Debug, PartialEq, Eq)]
pub enum SqlStateRecord<B = Vec<u8>, T = String> {
    /// Row of the Filesystem family.
    Filesystem(FilesystemRow<B, T>),
    /// Row of the Inode family.
    Inode(InodeRow<B, T>),
    /// Row of the ContentMetadata family.
    ContentMetadata(ContentMetadataRow<B, T>),
    /// Row of the DirectoryEntry family.
    DirectoryEntry(DirectoryEntryRow<B, T>),
    /// Row of the Open family.
    Open(OpenRow<B, T>),
    /// Row of the OpenPin family.
    OpenPin(OpenPinRow<B, T>),
    /// Row of the Orphan family.
    Orphan(OrphanRow<B, T>),
    /// Row of the Lock family.
    Lock(LockRow<B, T>),
    /// Row of the Xattr family.
    Xattr(XattrRow<B, T>),
    /// Row of the XattrStaging family.
    XattrStaging(XattrStagingRow<B, T>),
    /// Row of the Mutation family.
    Mutation(MutationRow<B, T>),
    /// Row of the WriterLease family.
    WriterLease(WriterLeaseRow<B, T>),
}

impl View for SqlStateRecord<Vec<u8>, String> {
    type V = SqlStateRecord<Seq<u8>, Seq<char>>;

    open spec fn view(&self) -> SqlStateRecord<Seq<u8>, Seq<char>> {
        match self {
            SqlStateRecord::Filesystem(row) => SqlStateRecord::Filesystem(row@),
            SqlStateRecord::Inode(row) => SqlStateRecord::Inode(row@),
            SqlStateRecord::ContentMetadata(row) => SqlStateRecord::ContentMetadata(row@),
            SqlStateRecord::DirectoryEntry(row) => SqlStateRecord::DirectoryEntry(row@),
            SqlStateRecord::Open(row) => SqlStateRecord::Open(row@),
            SqlStateRecord::OpenPin(row) => SqlStateRecord::OpenPin(row@),
            SqlStateRecord::Orphan(row) => SqlStateRecord::Orphan(row@),
            SqlStateRecord::Lock(row) => SqlStateRecord::Lock(row@),
            SqlStateRecord::Xattr(row) => SqlStateRecord::Xattr(row@),
            SqlStateRecord::XattrStaging(row) => SqlStateRecord::XattrStaging(row@),
            SqlStateRecord::Mutation(row) => SqlStateRecord::Mutation(row@),
            SqlStateRecord::WriterLease(row) => SqlStateRecord::WriterLease(row@),
        }
    }
}

} // verus!
