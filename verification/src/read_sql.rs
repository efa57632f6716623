//! Statements of snapshot reads.
use vstd::prelude::*;

use crate::ids::{DirectoryCookie, FilesystemId, InodeId, QidPath};
use crate::key;
use crate::key::RecordKey;
use crate::query::{RecordScan, ScanBounds};
use crate::statement;
use crate::statement::{query as start, PostgresQuery, SqlValue, StatementView};

verus! {

/// Text that reads one filesystem header.
pub const FILESYSTEM_POINT_SQL: &'static str =
    "SELECT \"filesystem_id\", \"state_revision\"::text AS \"state_revision\", \"record_revision\"::text AS \"record_revision\", \"root_inode_id\", \"next_qid_path\"::text AS \"next_qid_path\", \"next_directory_cookie\"::text AS \"next_directory_cookie\", \"policy_generation\"::text AS \"policy_generation\" FROM \"public\".\"w9pt_fs_state_filesystem_records\" WHERE \"filesystem_id\" = $1";

/// Text that reads one inode.
pub const INODE_POINT_SQL: &'static str =
    "SELECT \"filesystem_id\", \"inode_id\", \"qid_path\"::text AS \"qid_path\", \"record_revision\"::text AS \"record_revision\", \"mode\", \"owner\", \"group_id\", \"accessed_seconds\", \"accessed_nanoseconds\", \"modified_seconds\", \"modified_nanoseconds\", \"changed_seconds\", \"changed_nanoseconds\", \"created_seconds\", \"created_nanoseconds\", \"logical_size\"::text AS \"logical_size\", \"link_count\"::text AS \"link_count\", \"inode_generation\"::text AS \"inode_generation\", \"kind\", \"content_file_id\", \"content_context_id\", \"data_generation\"::text AS \"data_generation\", \"content_generation\"::text AS \"content_generation\", \"content_logical_size\"::text AS \"content_logical_size\", \"content_manifest_key\", \"content_manifest_digest\", \"content_storage_method\", \"directory_generation\"::text AS \"directory_generation\", \"directory_parent_inode_id\", \"symlink_target\", \"device_major\", \"device_minor\" FROM \"public\".\"w9pt_fs_state_inodes\" WHERE \"filesystem_id\" = $1 AND \"inode_id\" = $2";

/// Text that reads the inode with a path number.
pub const INODE_BY_QID_PATH_SQL: &'static str =
    "SELECT \"filesystem_id\", \"inode_id\", \"qid_path\"::text AS \"qid_path\", \"record_revision\"::text AS \"record_revision\", \"mode\", \"owner\", \"group_id\", \"accessed_seconds\", \"accessed_nanoseconds\", \"modified_seconds\", \"modified_nanoseconds\", \"changed_seconds\", \"changed_nanoseconds\", \"created_seconds\", \"created_nanoseconds\", \"logical_size\"::text AS \"logical_size\", \"link_count\"::text AS \"link_count\", \"inode_generation\"::text AS \"inode_generation\", \"kind\", \"content_file_id\", \"content_context_id\", \"data_generation\"::text AS \"data_generation\", \"content_generation\"::text AS \"content_generation\", \"content_logical_size\"::text AS \"content_logical_size\", \"content_manifest_key\", \"content_manifest_digest\", \"content_storage_method\", \"directory_generation\"::text AS \"directory_generation\", \"directory_parent_inode_id\", \"symlink_target\", \"device_major\", \"device_minor\" FROM \"public\".\"w9pt_fs_state_inodes\" WHERE \"filesystem_id\" = $1 AND \"qid_path\" = $2::numeric";

/// Text that sizes a page of inodes.
pub const INODE_SCAN_SQL: &'static str =
    "WITH candidates AS MATERIALIZED (SELECT \"inode_id\", (320 + octet_length(\"owner\") + octet_length(\"group_id\") + CASE WHEN \"content_manifest_key\" IS NOT NULL THEN octet_length(\"content_manifest_key\") WHEN \"symlink_target\" IS NOT NULL THEN octet_length(\"symlink_target\") ELSE 0 END)::bigint AS retained_bytes FROM \"public\".\"w9pt_fs_state_inodes\" WHERE \"filesystem_id\" = $1 AND ($2::bytea IS NULL OR \"inode_id\" > $2) ORDER BY \"inode_id\" LIMIT $3), sized AS (SELECT *, COALESCE(sum(retained_bytes) OVER (ORDER BY \"inode_id\" ROWS BETWEEN UNBOUNDED PRECEDING AND 1 PRECEDING), 0::numeric) AS prior_bytes FROM candidates) SELECT \"inode_id\", retained_bytes FROM sized WHERE prior_bytes <= $4::numeric ORDER BY \"inode_id\"";

/// Text that reads one content file's metadata.
pub const CONTENT_METADATA_POINT_SQL: &'static str =
    "SELECT \"filesystem_id\", \"content_file_id\", \"owner_inode_id\", \"context_id\", \"policy_format\", \"policy_bytes\", \"key_commitment\", \"wrapped_key_bytes\", \"record_revision\"::text AS \"record_revision\" FROM \"public\".\"w9pt_fs_state_content_metadata\" WHERE \"filesystem_id\" = $1 AND \"content_file_id\" = $2";

/// Text that sizes a page of content metadata.
pub const CONTENT_METADATA_SCAN_SQL: &'static str =
    "WITH candidates AS MATERIALIZED (SELECT \"content_file_id\", (160 + octet_length(\"policy_bytes\") + COALESCE(octet_length(\"wrapped_key_bytes\"), 0))::bigint AS retained_bytes FROM \"public\".\"w9pt_fs_state_content_metadata\" WHERE \"filesystem_id\" = $1 AND ($2::bytea IS NULL OR \"content_file_id\" > $2) ORDER BY \"content_file_id\" LIMIT $3), sized AS (SELECT *, COALESCE(sum(retained_bytes) OVER (ORDER BY \"content_file_id\" ROWS BETWEEN UNBOUNDED PRECEDING AND 1 PRECEDING), 0::numeric) AS prior_bytes FROM candidates) SELECT \"content_file_id\", retained_bytes FROM sized WHERE prior_bytes <= $4::numeric ORDER BY \"content_file_id\"";

/// Text that reads one directory entry.
pub const DIRECTORY_ENTRY_POINT_SQL: &'static str =
    "SELECT \"filesystem_id\", \"parent_inode_id\", \"name\", \"cookie\"::text AS \"cookie\", \"child_inode_id\", \"record_revision\"::text AS \"record_revision\" FROM \"public\".\"w9pt_fs_state_directory_entries\" WHERE \"filesystem_id\" = $1 AND \"parent_inode_id\" = $2 AND \"name\" = $3";

/// Text that sizes a page of directory entries.
pub const DIRECTORY_ENTRY_SCAN_SQL: &'static str =
    "WITH candidates AS MATERIALIZED (SELECT \"name\", \"cookie\"::text AS cookie_text, (160 + 2 * octet_length(\"name\"))::bigint AS retained_bytes FROM \"public\".\"w9pt_fs_state_directory_entries\" WHERE \"filesystem_id\" = $1 AND \"parent_inode_id\" = $2 AND \"cookie\" > $3::numeric ORDER BY \"cookie\" LIMIT $4), sized AS (SELECT *, COALESCE(sum(retained_bytes) OVER (ORDER BY cookie_text::numeric ROWS BETWEEN UNBOUNDED PRECEDING AND 1 PRECEDING), 0::numeric) AS prior_bytes FROM candidates) SELECT \"name\", cookie_text, retained_bytes FROM sized WHERE prior_bytes <= $5::numeric ORDER BY cookie_text::numeric";

/// Text that reads a page of a directory with its children.
pub const DIRECTORY_PAGE_SQL: &'static str =
    "WITH candidates AS MATERIALIZED (SELECT \"entry\".\"name\", \"entry\".\"cookie\"::text AS cookie_text, \"entry\".\"child_inode_id\", \"entry\".\"record_revision\"::text AS entry_record_revision, \"child\".\"kind\", \"child\".\"qid_path\"::text AS qid_path, \"child\".\"record_revision\"::text AS child_record_revision, (192 + 2 * octet_length(\"entry\".\"name\"))::bigint AS retained_bytes FROM \"public\".\"w9pt_fs_state_directory_entries\" AS \"entry\" JOIN \"public\".\"w9pt_fs_state_inodes\" AS \"child\" ON \"child\".\"filesystem_id\" = \"entry\".\"filesystem_id\" AND \"child\".\"inode_id\" = \"entry\".\"child_inode_id\" WHERE \"entry\".\"filesystem_id\" = $1 AND \"entry\".\"parent_inode_id\" = $2 AND \"entry\".\"cookie\" > $3::numeric ORDER BY \"entry\".\"cookie\" LIMIT $4), sized AS (SELECT *, COALESCE(sum(retained_bytes) OVER (ORDER BY cookie_text::numeric ROWS BETWEEN UNBOUNDED PRECEDING AND 1 PRECEDING), 0::numeric) AS prior_bytes FROM candidates) SELECT * FROM sized WHERE prior_bytes <= $5::numeric ORDER BY cookie_text::numeric";

/// Text that reads one open handle.
pub const OPEN_POINT_SQL: &'static str =
    "SELECT \"filesystem_id\", \"open_id\", \"inode_id\", \"client_incarnation_id\", \"access\", \"append\", \"retained_inode_generation\"::text AS \"retained_inode_generation\", \"record_revision\"::text AS \"record_revision\" FROM \"public\".\"w9pt_fs_state_opens\" WHERE \"filesystem_id\" = $1 AND \"open_id\" = $2";

/// Text that sizes a page of open handles.
pub const OPEN_SCAN_SQL: &'static str =
    "WITH candidates AS MATERIALIZED (SELECT \"open_id\", 192::bigint AS retained_bytes FROM \"public\".\"w9pt_fs_state_opens\" WHERE \"filesystem_id\" = $1 AND ($2::bytea IS NULL OR \"open_id\" > $2) ORDER BY \"open_id\" LIMIT $3), sized AS (SELECT *, COALESCE(sum(retained_bytes) OVER (ORDER BY \"open_id\" ROWS BETWEEN UNBOUNDED PRECEDING AND 1 PRECEDING), 0::numeric) AS prior_bytes FROM candidates) SELECT \"open_id\", retained_bytes FROM sized WHERE prior_bytes <= $4::numeric ORDER BY \"open_id\"";

/// Text that reads one open pin.
pub const OPEN_PIN_POINT_SQL: &'static str =
    "SELECT \"filesystem_id\", \"inode_id\", \"open_id\", \"record_revision\"::text AS \"record_revision\" FROM \"public\".\"w9pt_fs_state_open_pins\" WHERE \"filesystem_id\" = $1 AND \"inode_id\" = $2 AND \"open_id\" = $3";

/// Text that sizes a page of open pins.
pub const OPEN_PIN_SCAN_SQL: &'static str =
    "WITH candidates AS MATERIALIZED (SELECT \"inode_id\", \"open_id\", 192::bigint AS retained_bytes FROM \"public\".\"w9pt_fs_state_open_pins\" WHERE \"filesystem_id\" = $1 AND ($2::bytea IS NULL OR (\"inode_id\", \"open_id\") > ($2, $3)) ORDER BY \"inode_id\", \"open_id\" LIMIT $4), sized AS (SELECT *, COALESCE(sum(retained_bytes) OVER (ORDER BY \"inode_id\", \"open_id\" ROWS BETWEEN UNBOUNDED PRECEDING AND 1 PRECEDING), 0::numeric) AS prior_bytes FROM candidates) SELECT \"inode_id\", \"open_id\", retained_bytes FROM sized WHERE prior_bytes <= $5::numeric ORDER BY \"inode_id\", \"open_id\"";

/// Text that reads one orphan.
pub const ORPHAN_POINT_SQL: &'static str =
    "SELECT \"filesystem_id\", \"inode_id\", \"open_pin_count\"::text AS \"open_pin_count\", \"orphaned_revision\"::text AS \"orphaned_revision\", \"record_revision\"::text AS \"record_revision\" FROM \"public\".\"w9pt_fs_state_orphans\" WHERE \"filesystem_id\" = $1 AND \"inode_id\" = $2";

/// Text that sizes a page of orphans.
pub const ORPHAN_SCAN_SQL: &'static str =
    "WITH candidates AS MATERIALIZED (SELECT \"inode_id\", 192::bigint AS retained_bytes FROM \"public\".\"w9pt_fs_state_orphans\" WHERE \"filesystem_id\" = $1 AND ($2::bytea IS NULL OR \"inode_id\" > $2) ORDER BY \"inode_id\" LIMIT $3), sized AS (SELECT *, COALESCE(sum(retained_bytes) OVER (ORDER BY \"inode_id\" ROWS BETWEEN UNBOUNDED PRECEDING AND 1 PRECEDING), 0::numeric) AS prior_bytes FROM candidates) SELECT \"inode_id\", retained_bytes FROM sized WHERE prior_bytes <= $4::numeric ORDER BY \"inode_id\"";

/// Text that reads one lock.
pub const LOCK_POINT_SQL: &'static str =
    "SELECT \"filesystem_id\", \"inode_id\", \"lock_id\", \"range_start\"::text AS \"range_start\", \"range_end\"::text AS \"range_end\", \"kind\", \"owner_client_incarnation_id\", \"owner_open_id\", \"lock_generation\"::text AS \"lock_generation\", \"record_revision\"::text AS \"record_revision\" FROM \"public\".\"w9pt_fs_state_locks\" WHERE \"filesystem_id\" = $1 AND \"inode_id\" = $2 AND \"lock_id\" = $3";

/// Text that sizes a page of locks.
pub const LOCK_SCAN_SQL: &'static str =
    "WITH candidates AS MATERIALIZED (SELECT \"inode_id\", \"lock_id\", 192::bigint AS retained_bytes FROM \"public\".\"w9pt_fs_state_locks\" WHERE \"filesystem_id\" = $1 AND ($2::bytea IS NULL OR (\"inode_id\", \"lock_id\") > ($2, $3)) ORDER BY \"inode_id\", \"lock_id\" LIMIT $4), sized AS (SELECT *, COALESCE(sum(retained_bytes) OVER (ORDER BY \"inode_id\", \"lock_id\" ROWS BETWEEN UNBOUNDED PRECEDING AND 1 PRECEDING), 0::numeric) AS prior_bytes FROM candidates) SELECT \"inode_id\", \"lock_id\", retained_bytes FROM sized WHERE prior_bytes <= $5::numeric ORDER BY \"inode_id\", \"lock_id\"";

/// Text that reads one extended attribute.
pub const XATTR_POINT_SQL: &'static str =
    "SELECT \"filesystem_id\", \"inode_id\", \"name\", \"value\", \"record_revision\"::text AS \"record_revision\" FROM \"public\".\"w9pt_fs_state_xattrs\" WHERE \"filesystem_id\" = $1 AND \"inode_id\" = $2 AND \"name\" = $3";

/// Text that sizes a page of extended attributes.
pub const XATTR_SCAN_SQL: &'static str =
    "WITH candidates AS MATERIALIZED (SELECT \"inode_id\", \"name\", (160 + 2 * octet_length(\"name\") + octet_length(\"value\"))::bigint AS retained_bytes FROM \"public\".\"w9pt_fs_state_xattrs\" WHERE \"filesystem_id\" = $1 AND ($2::bytea IS NULL OR (\"inode_id\", \"name\") > ($2, $3)) ORDER BY \"inode_id\", \"name\" LIMIT $4), sized AS (SELECT *, COALESCE(sum(retained_bytes) OVER (ORDER BY \"inode_id\", \"name\" ROWS BETWEEN UNBOUNDED PRECEDING AND 1 PRECEDING), 0::numeric) AS prior_bytes FROM candidates) SELECT \"inode_id\", \"name\", retained_bytes FROM sized WHERE prior_bytes <= $5::numeric ORDER BY \"inode_id\", \"name\"";

/// Text that reads one staged extended attribute.
pub const XATTR_STAGING_POINT_SQL: &'static str =
    "SELECT \"filesystem_id\", \"staging_id\", \"inode_id\", \"name\", \"expected_size\"::text AS \"expected_size\", \"staged_bytes\", \"record_revision\"::text AS \"record_revision\" FROM \"public\".\"w9pt_fs_state_xattr_staging\" WHERE \"filesystem_id\" = $1 AND \"staging_id\" = $2";

/// Text that sizes a page of staged extended attributes.
pub const XATTR_STAGING_SCAN_SQL: &'static str =
    "WITH candidates AS MATERIALIZED (SELECT \"staging_id\", (176 + octet_length(\"name\") + octet_length(\"staged_bytes\"))::bigint AS retained_bytes FROM \"public\".\"w9pt_fs_state_xattr_staging\" WHERE \"filesystem_id\" = $1 AND ($2::bytea IS NULL OR \"staging_id\" > $2) ORDER BY \"staging_id\" LIMIT $3), sized AS (SELECT *, COALESCE(sum(retained_bytes) OVER (ORDER BY \"staging_id\" ROWS BETWEEN UNBOUNDED PRECEDING AND 1 PRECEDING), 0::numeric) AS prior_bytes FROM candidates) SELECT \"staging_id\", retained_bytes FROM sized WHERE prior_bytes <= $4::numeric ORDER BY \"staging_id\"";

/// Text that reads one mutation result.
pub const MUTATION_POINT_SQL: &'static str =
    "SELECT \"filesystem_id\", \"mutation_id\", \"request_fingerprint\", \"client_incarnation_id\", \"writer_scope_id\", \"writer_incarnation_id\", \"fencing_token\"::text AS \"fencing_token\", \"result_kind\", \"result_format\", \"result_bytes\", \"committed_revision\"::text AS \"committed_revision\", \"retention_horizon\"::text AS \"retention_horizon\", \"record_revision\"::text AS \"record_revision\" FROM \"public\".\"w9pt_fs_state_mutation_results\" WHERE \"filesystem_id\" = $1 AND \"mutation_id\" = $2";

/// Text that sizes a page of mutation results.
pub const MUTATION_SCAN_SQL: &'static str =
    "WITH candidates AS MATERIALIZED (SELECT \"mutation_id\", (320 + octet_length(\"result_bytes\"))::bigint AS retained_bytes FROM \"public\".\"w9pt_fs_state_mutation_results\" WHERE \"filesystem_id\" = $1 AND ($2::bytea IS NULL OR \"mutation_id\" > $2) ORDER BY \"mutation_id\" LIMIT $3), sized AS (SELECT *, COALESCE(sum(retained_bytes) OVER (ORDER BY \"mutation_id\" ROWS BETWEEN UNBOUNDED PRECEDING AND 1 PRECEDING), 0::numeric) AS prior_bytes FROM candidates) SELECT \"mutation_id\", retained_bytes FROM sized WHERE prior_bytes <= $4::numeric ORDER BY \"mutation_id\"";

/// Text that reads one active writer lease.
pub const WRITER_LEASE_POINT_SQL: &'static str =
    "SELECT \"filesystem_id\", \"writer_scope_id\", \"greatest_fencing_token\"::text AS \"greatest_fencing_token\", \"active_holder_id\", \"active_lease_id\", \"active_deadline_tick\"::text AS \"active_deadline_tick\", \"active_record_revision\"::text AS \"active_record_revision\" FROM \"public\".\"w9pt_fs_state_writer_fences\" WHERE \"filesystem_id\" = $1 AND \"writer_scope_id\" = $2 AND \"active_holder_id\" IS NOT NULL";

/// Text that sizes a page of active writer leases.
pub const WRITER_LEASE_SCAN_SQL: &'static str =
    "WITH candidates AS MATERIALIZED (SELECT \"writer_scope_id\", 192::bigint AS retained_bytes FROM \"public\".\"w9pt_fs_state_writer_fences\" WHERE \"filesystem_id\" = $1 AND \"active_holder_id\" IS NOT NULL AND ($2::bytea IS NULL OR \"writer_scope_id\" > $2) ORDER BY \"writer_scope_id\" LIMIT $3), sized AS (SELECT *, COALESCE(sum(retained_bytes) OVER (ORDER BY \"writer_scope_id\" ROWS BETWEEN UNBOUNDED PRECEDING AND 1 PRECEDING), 0::numeric) AS prior_bytes FROM candidates) SELECT \"writer_scope_id\", retained_bytes FROM sized WHERE prior_bytes <= $4::numeric ORDER BY \"writer_scope_id\"";

/// Text that reads the revision of an authority.
pub const REVISION_SQL: &'static str =
    "SELECT \"current_revision\"::text FROM \"public\".\"w9pt_fs_state_authority_heads\" WHERE \"filesystem_id\" = $1";

/// Text that counts the pins on an inode.
pub const PIN_COUNT_SQL: &'static str =
    "SELECT pg_catalog.count(*)::numeric(20, 0)::text FROM \"public\".\"w9pt_fs_state_open_pins\" WHERE \"filesystem_id\" = $1 AND \"inode_id\" = $2";

/// The text that reads one record.
pub open spec fn point_sql<B>(k: RecordKey<B>) -> &'static str {
    match k {
        RecordKey::Filesystem(_) => FILESYSTEM_POINT_SQL,
        RecordKey::Inode(_, _) => INODE_POINT_SQL,
        RecordKey::ContentMetadata(_, _) => CONTENT_METADATA_POINT_SQL,
        RecordKey::DirectoryEntry(_, _, _) => DIRECTORY_ENTRY_POINT_SQL,
        RecordKey::Open(_, _) => OPEN_POINT_SQL,
        RecordKey::OpenPin(_, _, _) => OPEN_PIN_POINT_SQL,
        RecordKey::Orphan(_, _) => ORPHAN_POINT_SQL,
        RecordKey::Lock(_, _, _) => LOCK_POINT_SQL,
        RecordKey::Xattr(_, _, _) => XATTR_POINT_SQL,
        RecordKey::XattrStaging(_, _) => XATTR_STAGING_POINT_SQL,
        RecordKey::Mutation(_, _) => MUTATION_POINT_SQL,
        RecordKey::WriterLease(_, _) => WRITER_LEASE_POINT_SQL,
    }
}

/// The statement that reads one record: its text with the components of its
/// key.
pub open spec fn point(k: RecordKey<Seq<u8>>) -> StatementView {
    let head = statement::text_only(point_sql(k)@).with_id(key::key_filesystem(k).value);
    match k {
        RecordKey::Filesystem(_) => head,
        RecordKey::Inode(_, id) => head.with_id(id.value),
        RecordKey::ContentMetadata(_, id) => head.with_id(id.value),
        RecordKey::DirectoryEntry(_, parent, name) => head.with_id(parent.value).with(
            SqlValue::Bytes(Some(name.bytes)),
        ),
        RecordKey::Open(_, id) => head.with_id(id.value),
        RecordKey::OpenPin(_, inode, open) => head.with_id(inode.value).with_id(open.value),
        RecordKey::Orphan(_, id) => head.with_id(id.value),
        RecordKey::Lock(_, inode, lock) => head.with_id(inode.value).with_id(lock.value),
        RecordKey::Xattr(_, inode, name) => head.with_id(inode.value).with(
            SqlValue::Bytes(Some(name.bytes)),
        ),
        RecordKey::XattrStaging(_, id) => head.with_id(id.value),
        RecordKey::Mutation(_, id) => head.with_id(id.value),
        RecordKey::WriterLease(_, scope) => head.with_id(scope.value),
    }
}

/// The statement that reads one record.
pub fn point_statement(k: &RecordKey) -> (result: PostgresQuery)
    ensures
        result@ == point(k@),
{
    match k {
        RecordKey::Filesystem(f) => start(FILESYSTEM_POINT_SQL).bind_id(f.value),
        RecordKey::Inode(f, id) => start(INODE_POINT_SQL).bind_id(f.value).bind_id(id.value),
        RecordKey::ContentMetadata(f, id) => start(CONTENT_METADATA_POINT_SQL).bind_id(
            f.value,
        ).bind_id(id.value),
        RecordKey::DirectoryEntry(f, parent, name) => start(DIRECTORY_ENTRY_POINT_SQL).bind_id(
            f.value,
        ).bind_id(parent.value).bind_bytes(&name.bytes),
        RecordKey::Open(f, id) => start(OPEN_POINT_SQL).bind_id(f.value).bind_id(id.value),
        RecordKey::OpenPin(f, inode, open) => start(OPEN_PIN_POINT_SQL).bind_id(f.value).bind_id(
            inode.value,
        ).bind_id(open.value),
        RecordKey::Orphan(f, id) => start(ORPHAN_POINT_SQL).bind_id(f.value).bind_id(id.value),
        RecordKey::Lock(f, inode, lock) => start(LOCK_POINT_SQL).bind_id(f.value).bind_id(
            inode.value,
        ).bind_id(lock.value),
        RecordKey::Xattr(f, inode, name) => start(XATTR_POINT_SQL).bind_id(f.value).bind_id(
            inode.value,
        ).bind_bytes(&name.bytes),
        RecordKey::XattrStaging(f, id) => start(XATTR_STAGING_POINT_SQL).bind_id(f.value).bind_id(
            id.value,
        ),
        RecordKey::Mutation(f, id) => start(MUTATION_POINT_SQL).bind_id(f.value).bind_id(id.value),
        RecordKey::WriterLease(f, scope) => start(WRITER_LEASE_POINT_SQL).bind_id(f.value).bind_id(
            scope.value,
        ),
    }
}

/// The statement that reads the revision of an authority.
pub fn revision_statement(filesystem_id: FilesystemId) -> (result: PostgresQuery)
    ensures
        result@ == statement::text_only(REVISION_SQL@).with_id(filesystem_id.value),
{
    start(REVISION_SQL).bind_id(filesystem_id.value)
}

/// The statement that counts the pins on an inode.
pub fn pin_count_statement(filesystem_id: FilesystemId, inode_id: InodeId) -> (result: PostgresQuery)
    ensures
        result@ == statement::text_only(PIN_COUNT_SQL@).with_id(filesystem_id.value).with_id(
            inode_id.value,
        ),
{
    start(PIN_COUNT_SQL).bind_id(filesystem_id.value).bind_id(inode_id.value)
}

/// The statement that reads the inode with a path number.
pub fn path_statement(filesystem_id: FilesystemId, qid_path: QidPath) -> (result: PostgresQuery)
    ensures
        result@ == statement::text_only(INODE_BY_QID_PATH_SQL@).with_id(
            filesystem_id.value,
        ).with_number(qid_path.value),
{
    start(INODE_BY_QID_PATH_SQL).bind_id(filesystem_id.value).bind_number(qid_path.value)
}

/// A statement with the bounds of a page: one item more than the page holds,
/// and its bytes.
pub open spec fn bounded(statement: StatementView, bounds: ScanBounds) -> StatementView {
    statement.with(SqlValue::Int8(Some((bounds.max_items + 1) as i64))).with_number(
        bounds.max_bytes as u64,
    )
}

fn bind_bounds(statement: PostgresQuery, bounds: ScanBounds) -> (result: PostgresQuery)
    ensures
        result@ == bounded(statement@, bounds),
{
    statement.bind(SqlValue::Int8(Some(bounds.max_items as i64 + 1))).bind_number(
        bounds.max_bytes as u64,
    )
}

/// The statement that reads a page of a directory with its children.
pub open spec fn directory_page(
    filesystem_id: FilesystemId,
    parent_inode_id: InodeId,
    after: DirectoryCookie,
    bounds: ScanBounds,
) -> StatementView {
    bounded(
        statement::text_only(DIRECTORY_PAGE_SQL@).with_id(filesystem_id.value).with_id(
            parent_inode_id.value,
        ).with_number(after.value),
        bounds,
    )
}

/// The statement that reads a page of a directory with its children.
pub fn directory_page_statement(
    filesystem_id: FilesystemId,
    parent_inode_id: InodeId,
    after: DirectoryCookie,
    bounds: ScanBounds,
) -> (result: PostgresQuery)
    ensures
        result@ == directory_page(filesystem_id, parent_inode_id, after, bounds),
{
    bind_bounds(
        start(DIRECTORY_PAGE_SQL).bind_id(filesystem_id.value).bind_id(
            parent_inode_id.value,
        ).bind_number(after.value),
        bounds,
    )
}

/// The statement of a scan in the order of one identity.
pub open spec fn identity_scan(
    sql: &'static str,
    filesystem_id: FilesystemId,
    after: Option<u128>,
    bounds: ScanBounds,
) -> StatementView {
    bounded(
        statement::text_only(sql@).with_id(filesystem_id.value).with(
            statement::optional_id_value(after),
        ),
        bounds,
    )
}

fn identity_scan_statement(
    sql: &'static str,
    filesystem_id: FilesystemId,
    after: Option<u128>,
    bounds: ScanBounds,
) -> (result: PostgresQuery)
    ensures
        result@ == identity_scan(sql, filesystem_id, after, bounds),
{
    bind_bounds(start(sql).bind_id(filesystem_id.value).bind_optional_id(after), bounds)
}

/// The statement that sizes a page of a scan.
pub open spec fn scan_query(filesystem_id: FilesystemId, scan: RecordScan<Seq<u8>>) -> StatementView {
    match scan {
        RecordScan::Inodes { after, bounds } => identity_scan(
            INODE_SCAN_SQL,
            filesystem_id,
            match after {
                Some(id) => Some(id.value),
                None => None,
            },
            bounds,
        ),
        RecordScan::ContentMetadata { after, bounds } => identity_scan(
            CONTENT_METADATA_SCAN_SQL,
            filesystem_id,
            match after {
                Some(id) => Some(id.value),
                None => None,
            },
            bounds,
        ),
        RecordScan::DirectoryEntries { parent_inode_id, after, bounds } => bounded(
            statement::text_only(DIRECTORY_ENTRY_SCAN_SQL@).with_id(filesystem_id.value).with_id(
                parent_inode_id.value,
            ).with_number(after.value),
            bounds,
        ),
        RecordScan::Opens { after, bounds } => identity_scan(
            OPEN_SCAN_SQL,
            filesystem_id,
            match after {
                Some(id) => Some(id.value),
                None => None,
            },
            bounds,
        ),
        RecordScan::OpenPins { after, bounds } => bounded(
            statement::text_only(OPEN_PIN_SCAN_SQL@).with_id(filesystem_id.value).with(
                statement::optional_id_value(
                    match after {
                        Some(cursor) => Some(cursor.inode_id.value),
                        None => None,
                    },
                ),
            ).with(
                statement::optional_id_value(
                    match after {
                        Some(cursor) => Some(cursor.open_id.value),
                        None => None,
                    },
                ),
            ),
            bounds,
        ),
        RecordScan::Orphans { after, bounds } => identity_scan(
            ORPHAN_SCAN_SQL,
            filesystem_id,
            match after {
                Some(id) => Some(id.value),
                None => None,
            },
            bounds,
        ),
        RecordScan::Locks { after, bounds } => bounded(
            statement::text_only(LOCK_SCAN_SQL@).with_id(filesystem_id.value).with(
                statement::optional_id_value(
                    match after {
                        Some(cursor) => Some(cursor.inode_id.value),
                        None => None,
                    },
                ),
            ).with(
                statement::optional_id_value(
                    match after {
                        Some(cursor) => Some(cursor.lock_id.value),
                        None => None,
                    },
                ),
            ),
            bounds,
        ),
        RecordScan::Xattrs { after, bounds } => bounded(
            statement::text_only(XATTR_SCAN_SQL@).with_id(filesystem_id.value).with(
                statement::optional_id_value(
                    match after {
                        Some(cursor) => Some(cursor.inode_id.value),
                        None => None,
                    },
                ),
            ).with(
                SqlValue::Bytes(
                    match after {
                        Some(cursor) => Some(cursor.name.bytes),
                        None => None,
                    },
                ),
            ),
            bounds,
        ),
        RecordScan::XattrStaging { after, bounds } => identity_scan(
            XATTR_STAGING_SCAN_SQL,
            filesystem_id,
            match after {
                Some(id) => Some(id.value),
                None => None,
            },
            bounds,
        ),
        RecordScan::Mutations { after, bounds } => identity_scan(
            MUTATION_SCAN_SQL,
            filesystem_id,
            match after {
                Some(id) => Some(id.value),
                None => None,
            },
            bounds,
        ),
        RecordScan::WriterLeases { after, bounds } => identity_scan(
            WRITER_LEASE_SCAN_SQL,
            filesystem_id,
            match after {
                Some(scope) => Some(scope.value),
                None => None,
            },
            bounds,
        ),
    }
}

/// The statement that sizes a page of a scan.
pub fn scan_statement(filesystem_id: FilesystemId, scan: &RecordScan) -> (result: PostgresQuery)
    ensures
        result@ == scan_query(filesystem_id, scan@),
{
    match scan {
        RecordScan::Inodes { after, bounds } => {
            let after = match after {
                Some(id) => Some(id.value),
                None => None,
            };
            identity_scan_statement(INODE_SCAN_SQL, filesystem_id, after, *bounds)
        },
        RecordScan::ContentMetadata { after, bounds } => {
            let after = match after {
                Some(id) => Some(id.value),
                None => None,
            };
            identity_scan_statement(CONTENT_METADATA_SCAN_SQL, filesystem_id, after, *bounds)
        },
        RecordScan::DirectoryEntries { parent_inode_id, after, bounds } => bind_bounds(
            start(DIRECTORY_ENTRY_SCAN_SQL).bind_id(filesystem_id.value).bind_id(
                parent_inode_id.value,
            ).bind_number(after.value),
            *bounds,
        ),
        RecordScan::Opens { after, bounds } => {
            let after = match after {
                Some(id) => Some(id.value),
                None => None,
            };
            identity_scan_statement(OPEN_SCAN_SQL, filesystem_id, after, *bounds)
        },
        RecordScan::OpenPins { after, bounds } => {
            let head = start(OPEN_PIN_SCAN_SQL).bind_id(filesystem_id.value);
            let head = match after {
                Some(cursor) => head.bind_id(cursor.inode_id.value).bind_id(cursor.open_id.value),
                None => head.bind(SqlValue::Bytes(None)).bind(SqlValue::Bytes(None)),
            };
            bind_bounds(head, *bounds)
        },
        RecordScan::Orphans { after, bounds } => {
            let after = match after {
                Some(id) => Some(id.value),
                None => None,
            };
            identity_scan_statement(ORPHAN_SCAN_SQL, filesystem_id, after, *bounds)
        },
        RecordScan::Locks { after, bounds } => {
            let head = start(LOCK_SCAN_SQL).bind_id(filesystem_id.value);
            let head = match after {
                Some(cursor) => head.bind_id(cursor.inode_id.value).bind_id(cursor.lock_id.value),
                None => head.bind(SqlValue::Bytes(None)).bind(SqlValue::Bytes(None)),
            };
            bind_bounds(head, *bounds)
        },
        RecordScan::Xattrs { after, bounds } => {
            let head = start(XATTR_SCAN_SQL).bind_id(filesystem_id.value);
            let head = match after {
                Some(cursor) => head.bind_id(cursor.inode_id.value).bind_bytes(
                    &cursor.name.bytes,
                ),
                None => head.bind(SqlValue::Bytes(None)).bind(SqlValue::Bytes(None)),
            };
            bind_bounds(head, *bounds)
        },
        RecordScan::XattrStaging { after, bounds } => {
            let after = match after {
                Some(id) => Some(id.value),
                None => None,
            };
            identity_scan_statement(XATTR_STAGING_SCAN_SQL, filesystem_id, after, *bounds)
        },
        RecordScan::Mutations { after, bounds } => {
            let after = match after {
                Some(id) => Some(id.value),
                None => None,
            };
            identity_scan_statement(MUTATION_SCAN_SQL, filesystem_id, after, *bounds)
        },
        RecordScan::WriterLeases { after, bounds } => {
            let after = match after {
                Some(scope) => Some(scope.value),
                None => None,
            };
            identity_scan_statement(WRITER_LEASE_SCAN_SQL, filesystem_id, after, *bounds)
        },
    }
}

} // verus!
