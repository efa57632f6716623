//! What one change of a commit writes, or why it is refused.
use vstd::prelude::*;

use crate::failure::{AdapterFailureKind, FailureCause, PostgresStateError, StateFailure};
use crate::ids::{InodeId, RecordRevision, StateRevision};
use crate::key::RecordKey;
use crate::precondition;
use crate::precondition::internal;
use crate::record;
use crate::record::{ContentMetadataRecord, InodeRecord, StateRecord, XattrRecord};
use crate::record_write;
use crate::record_write::{
    affected_presence, delete_record, insert_record, replace_record, RowPresence,
};
use crate::request;
use crate::request::{
    CommitConflict, CommitConflictKind, CommitOutcome, CommitRequest, ContentMetadataRewrap,
    ContentPublication, MalformedCommit, PublishContentError, RewrapError, StateChange,
    XattrPublication,
};
use crate::row_codec;
use crate::row_codec::encode_storage_method;
use crate::statement;
use crate::statement::{query, PostgresQuery, SqlValue, StatementView};
use crate::table;
use crate::table::{RecordTable, Records};
use crate::text::copy_text;
use crate::transition;

verus! {

/// What the rows that a write affected must be.
#[derive(Clone, Copy, Debug, PartialEq, Eq, Structural)]
pub enum WriteExpectation {
    /// An insertion: exactly one.
    Insert,
    /// A point write: at most one, and none says that the record is missing.
    Point,
    /// An update: any other number than one says that the record is missing.
    Update,
}

/// What a change does.
#[derive(Clone, Debug, PartialEq, Eq)]
pub enum ChangePlan {
    /// Nothing: the request is answered with an outcome.
    Refuse(CommitOutcome),
    /// One write.
    Write {
        /// Statement.
        statement: PostgresQuery,
        /// What the affected rows must be.
        expect: WriteExpectation,
    },
    /// The publication of a staged attribute: a deletion and a write.
    Publish {
        /// Statement that removes the staged attribute.
        delete: PostgresQuery,
        /// Statement that writes the attribute.
        write: PostgresQuery,
    },
}

/// Mathematical content of a plan.
pub enum PlanView {
    /// Nothing: the request is answered with an outcome.
    Refuse(CommitOutcome<Seq<u8>>),
    /// One write.
    Write {
        /// Statement.
        statement: StatementView,
        /// What the affected rows must be.
        expect: WriteExpectation,
    },
    /// The publication of a staged attribute: a deletion and a write.
    Publish {
        /// Statement that removes the staged attribute.
        delete: StatementView,
        /// Statement that writes the attribute.
        write: StatementView,
    },
}

impl View for ChangePlan {
    type V = PlanView;

    open spec fn view(&self) -> PlanView {
        match self {
            ChangePlan::Refuse(outcome) => PlanView::Refuse(outcome@),
            ChangePlan::Write { statement, expect } => PlanView::Write {
                statement: statement@,
                expect: *expect,
            },
            ChangePlan::Publish { delete, write } => PlanView::Publish {
                delete: delete@,
                write: write@,
            },
        }
    }
}

/// What the rules of published content and wrapped keys say of a change.
#[derive(Clone, Copy, Debug, PartialEq, Eq, Structural)]
pub struct ChangeVerdict {
    /// Why prepared content cannot be published.
    pub publication: Option<PublishContentError>,
    /// Why a wrapped key cannot be replaced.
    pub rewrap: Option<RewrapError>,
}

/// A conflict that a change meets.
pub open spec fn change_conflict(
    request: CommitRequest,
    kind: CommitConflictKind<Seq<u8>>,
) -> CommitOutcome<Seq<u8>> {
    CommitOutcome::Conflict(
        CommitConflict { precondition_index: request.preconditions@.len() as usize, kind },
    )
}

/// The outcome of a change whose record is missing.
pub open spec fn missing(request: CommitRequest, key: RecordKey<Seq<u8>>) -> CommitOutcome<Seq<u8>> {
    change_conflict(request, CommitConflictKind::RecordMissing(key))
}

/// The outcome of a malformed change.
pub open spec fn malformed(error: MalformedCommit<Seq<u8>>) -> CommitOutcome<Seq<u8>> {
    CommitOutcome::MalformedRequest(error)
}

fn conflict_outcome(request: &CommitRequest, kind: CommitConflictKind) -> (result: CommitOutcome)
    ensures
        result@ == change_conflict(*request, kind@),
{
    CommitOutcome::Conflict(
        CommitConflict { precondition_index: request.preconditions.len(), kind },
    )
}

/// The outcome of a change whose record is missing.
pub fn missing_conflict(request: &CommitRequest, key: RecordKey) -> (result: CommitOutcome)
    ensures
        result@ == missing(*request, key@),
{
    conflict_outcome(request, CommitConflictKind::RecordMissing(key))
}

/// The outcome of a number that left its range.
pub fn malformed_arithmetic() -> (result: CommitOutcome)
    ensures
        result@ == malformed(MalformedCommit::Arithmetic),
{
    CommitOutcome::MalformedRequest(MalformedCommit::Arithmetic)
}

/// Text that advances the next directory cookie.
pub const ADVANCE_COOKIE_SQL: &'static str =
    "UPDATE \"public\".\"w9pt_fs_state_filesystem_records\" SET \"next_directory_cookie\" = $2::numeric, \"state_revision\" = $3::numeric, \"record_revision\" = $3::numeric WHERE \"filesystem_id\" = $1";

/// Text that advances the next path number.
pub const ADVANCE_QID_SQL: &'static str =
    "UPDATE \"public\".\"w9pt_fs_state_filesystem_records\" SET \"next_qid_path\" = $2::numeric, \"state_revision\" = $3::numeric, \"record_revision\" = $3::numeric WHERE \"filesystem_id\" = $1";

/// Text that steps the policy generation.
pub const BUMP_POLICY_SQL: &'static str =
    "UPDATE \"public\".\"w9pt_fs_state_filesystem_records\" SET \"policy_generation\" = $2::numeric, \"state_revision\" = $3::numeric, \"record_revision\" = $3::numeric WHERE \"filesystem_id\" = $1";

/// Text that steps an inode generation.
pub const BUMP_INODE_SQL: &'static str =
    "UPDATE \"public\".\"w9pt_fs_state_inodes\" SET \"inode_generation\" = $3::numeric, \"record_revision\" = $4::numeric WHERE \"filesystem_id\" = $1 AND \"inode_id\" = $2";

/// Text that steps an inode and its directory generation.
pub const BUMP_DIRECTORY_SQL: &'static str =
    "UPDATE \"public\".\"w9pt_fs_state_inodes\" SET \"inode_generation\" = $3::numeric, \"directory_generation\" = $4::numeric, \"record_revision\" = $5::numeric WHERE \"filesystem_id\" = $1 AND \"inode_id\" = $2";

/// Text that sets a link count.
pub const ADJUST_LINKS_SQL: &'static str =
    "UPDATE \"public\".\"w9pt_fs_state_inodes\" SET \"link_count\" = $3::numeric, \"inode_generation\" = $4::numeric, \"record_revision\" = $5::numeric WHERE \"filesystem_id\" = $1 AND \"inode_id\" = $2";

/// Text that sets the pin count of an orphan.
pub const ADJUST_PINS_SQL: &'static str =
    "UPDATE \"public\".\"w9pt_fs_state_orphans\" SET \"open_pin_count\" = $3::numeric, \"record_revision\" = $4::numeric WHERE \"filesystem_id\" = $1 AND \"inode_id\" = $2";

/// Text that steps a lock generation.
pub const BUMP_LOCK_SQL: &'static str =
    "UPDATE \"public\".\"w9pt_fs_state_locks\" SET \"lock_generation\" = $4::numeric, \"record_revision\" = $5::numeric WHERE \"filesystem_id\" = $1 AND \"inode_id\" = $2 AND \"lock_id\" = $3";

/// Text that publishes content.
pub const PUBLISH_CONTENT_SQL: &'static str =
    "UPDATE \"public\".\"w9pt_fs_state_inodes\" SET \"record_revision\" = $3::numeric, \"logical_size\" = $4::numeric, \"inode_generation\" = $5::numeric, \"content_file_id\" = $6, \"data_generation\" = $7::numeric, \"content_generation\" = $7::numeric, \"content_logical_size\" = $4::numeric, \"content_manifest_key\" = $8, \"content_manifest_digest\" = $9, \"content_storage_method\" = $10, \"accessed_seconds\" = $11, \"accessed_nanoseconds\" = $12, \"modified_seconds\" = $13, \"modified_nanoseconds\" = $14, \"changed_seconds\" = $15, \"changed_nanoseconds\" = $16, \"created_seconds\" = $17, \"created_nanoseconds\" = $18, \"mode\" = $19, \"owner\" = $20, \"group_id\" = $21 WHERE \"filesystem_id\" = $1 AND \"inode_id\" = $2";

/// Text that replaces a wrapped key.
pub const REWRAP_SQL: &'static str =
    "UPDATE \"public\".\"w9pt_fs_state_content_metadata\" SET \"wrapped_key_bytes\" = $3, \"record_revision\" = $4::numeric WHERE \"filesystem_id\" = $1 AND \"content_file_id\" = $2 AND \"context_id\" = $5 AND \"record_revision\" = $6::numeric";

/// An update that must affect exactly one row.
pub open spec fn update(statement: StatementView) -> Result<PlanView, StateFailure> {
    Ok(PlanView::Write { statement, expect: WriteExpectation::Update })
}

/// A refusal.
pub open spec fn refuse(outcome: CommitOutcome<Seq<u8>>) -> Result<PlanView, StateFailure> {
    Ok(PlanView::Refuse(outcome))
}

/// The update of one number of the filesystem header.
pub open spec fn header_update(
    request: CommitRequest,
    sql: &'static str,
    value: u64,
    revision: u64,
) -> Result<PlanView, StateFailure> {
    update(
        statement::text_only(sql@).with_id(request.filesystem_id.value).with_number(
            value,
        ).with_number(revision),
    )
}

/// An update of one inode, before its values.
pub open spec fn inode_update(
    request: CommitRequest,
    sql: &'static str,
    inode_id: InodeId,
) -> StatementView {
    statement::text_only(sql@).with_id(request.filesystem_id.value).with_id(inode_id.value)
}

/// Plan of an advance of one of the two counters of the filesystem header.
pub open spec fn advance_plan(
    request: CommitRequest,
    records: Records,
    sql: &'static str,
    current: Option<u64>,
    count: u64,
    revision: u64,
) -> Result<PlanView, StateFailure> {
    match current {
        None => refuse(missing(request, RecordKey::Filesystem(request.filesystem_id))),
        Some(current) => if current + count > u64::MAX {
            refuse(malformed(MalformedCommit::Arithmetic))
        } else {
            header_update(request, sql, (current + count) as u64, revision)
        },
    }
}

/// Plan of a stepped directory generation.
pub open spec fn directory_plan(
    request: CommitRequest,
    records: Records,
    inode_id: InodeId,
    revision: u64,
) -> Result<PlanView, StateFailure> {
    match table::inode_at(records, request.filesystem_id, inode_id) {
        None => refuse(missing(request, RecordKey::Inode(request.filesystem_id, inode_id))),
        Some(inode) => match (inode.inode_generation.next(), record::directory_generation(inode)) {
            (Some(generation), Some(directory)) => match directory.next() {
                Some(directory) => update(
                    inode_update(request, BUMP_DIRECTORY_SQL, inode_id).with_number(
                        generation.value,
                    ).with_number(directory.value).with_number(revision),
                ),
                None => refuse(malformed(MalformedCommit::Arithmetic)),
            },
            _ => refuse(malformed(MalformedCommit::Arithmetic)),
        },
    }
}

/// Plan of an adjusted link count.
pub open spec fn link_plan(
    request: CommitRequest,
    records: Records,
    inode_id: InodeId,
    adjustment: request::CountAdjustment,
    revision: u64,
) -> Result<PlanView, StateFailure> {
    match table::inode_at(records, request.filesystem_id, inode_id) {
        None => refuse(missing(request, RecordKey::Inode(request.filesystem_id, inode_id))),
        Some(inode) => match (
            adjustment.applied(inode.link_count),
            inode.inode_generation.next(),
        ) {
            (Some(count), Some(generation)) => update(
                inode_update(request, ADJUST_LINKS_SQL, inode_id).with_number(count).with_number(
                    generation.value,
                ).with_number(revision),
            ),
            _ => refuse(malformed(MalformedCommit::Arithmetic)),
        },
    }
}

/// Plan of an adjusted pin count, which stays above zero.
pub open spec fn pin_plan(
    request: CommitRequest,
    records: Records,
    inode_id: InodeId,
    adjustment: request::CountAdjustment,
    revision: u64,
) -> Result<PlanView, StateFailure> {
    let key = RecordKey::Orphan(request.filesystem_id, inode_id);
    match table::present(records, key) {
        Some(StateRecord::Orphan(orphan)) => match adjustment.applied(orphan.open_pin_count) {
            Some(count) => if count == 0 {
                refuse(malformed(MalformedCommit::Arithmetic))
            } else {
                update(
                    inode_update(request, ADJUST_PINS_SQL, inode_id).with_number(
                        count,
                    ).with_number(revision),
                )
            },
            None => refuse(malformed(MalformedCommit::Arithmetic)),
        },
        _ => refuse(missing(request, key)),
    }
}

/// The statement that publishes content over an inode.
pub open spec fn publish_statement(
    request: CommitRequest,
    publication: ContentPublication<Seq<u8>, Seq<char>>,
    current: InodeRecord<Seq<u8>, Seq<char>>,
    revision: u64,
) -> StatementView {
    let times = publication.attributes.times_after(current.times);
    let mode = request::replaced(publication.attributes.mode, current.mode);
    let owner = request::replaced(publication.attributes.owner, current.owner);
    let group = request::replaced(publication.attributes.group, current.group);
    inode_update(request, PUBLISH_CONTENT_SQL, publication.inode_id).with_number(
        revision,
    ).with_number(publication.logical_size).with_number(
        publication.inode_generation.value,
    ).with_id(publication.content.file_id.value).with_number(publication.data_generation).with(
        SqlValue::Text(Some(publication.content.manifest_key.text)),
    ).with(SqlValue::Bytes(Some(publication.content.manifest_digest.bytes()))).with(
        SqlValue::Int2(Some(row_codec::storage_tag(publication.content.method))),
    ).with(SqlValue::Int8(Some(times.accessed.seconds))).with(
        SqlValue::Int4(Some(times.accessed.nanoseconds as i32)),
    ).with(SqlValue::Int8(Some(times.modified.seconds))).with(
        SqlValue::Int4(Some(times.modified.nanoseconds as i32)),
    ).with(SqlValue::Int8(Some(times.changed.seconds))).with(
        SqlValue::Int4(Some(times.changed.nanoseconds as i32)),
    ).with(SqlValue::Int8(Some(times.created.seconds))).with(
        SqlValue::Int4(Some(times.created.nanoseconds as i32)),
    ).with(SqlValue::Int4(Some(mode as i32))).with(SqlValue::Bytes(Some(owner.bytes))).with(
        SqlValue::Bytes(Some(group.bytes)),
    )
}

/// Plan of a content publication.
pub open spec fn publish_plan(
    request: CommitRequest,
    records: Records,
    publication: ContentPublication<Seq<u8>, Seq<char>>,
    revision: u64,
    verdict: ChangeVerdict,
) -> Result<PlanView, StateFailure> {
    match table::inode_at(records, request.filesystem_id, publication.inode_id) {
        None => refuse(
            missing(request, RecordKey::Inode(request.filesystem_id, publication.inode_id)),
        ),
        Some(current) => match verdict.publication {
            Some(error) => refuse(malformed(MalformedCommit::InvalidPublication(error))),
            None => update(publish_statement(request, publication, current, revision)),
        },
    }
}

/// Stored metadata is not what a replacement of its wrapped key expects.
pub open spec fn rewrap_stale(
    current: ContentMetadataRecord<Seq<u8>>,
    rewrap: ContentMetadataRewrap<Seq<u8>>,
) -> bool {
    current.context_id != rewrap.expected_context_id || current.revision
        != rewrap.expected_revision || current.wrapped_key_bytes is None
}

/// Plan of a replaced wrapped key.
pub open spec fn rewrap_plan(
    request: CommitRequest,
    records: Records,
    rewrap: ContentMetadataRewrap<Seq<u8>>,
    revision: u64,
    verdict: ChangeVerdict,
) -> Result<PlanView, StateFailure> {
    let key = RecordKey::ContentMetadata(request.filesystem_id, rewrap.content_file_id);
    match table::present(records, key) {
        Some(StateRecord::ContentMetadata(current)) => if rewrap_stale(current, rewrap) {
            refuse(
                change_conflict(
                    request,
                    CommitConflictKind::RecordRevision {
                        key,
                        expected: rewrap.expected_revision,
                        actual: current.revision,
                    },
                ),
            )
        } else {
            match verdict.rewrap {
                Some(RewrapError::Limit(error)) => refuse(malformed(MalformedCommit::Limit(error))),
                Some(RewrapError::Invalid) => refuse(
                    malformed(MalformedCommit::InvalidContentMetadataRewrap),
                ),
                None => update(
                    statement::text_only(REWRAP_SQL@).with_id(
                        request.filesystem_id.value,
                    ).with_id(rewrap.content_file_id.value).with(
                        SqlValue::Bytes(Some(rewrap.wrapped_key_bytes)),
                    ).with_number(revision).with_id(rewrap.expected_context_id.value).with_number(
                        rewrap.expected_revision.value,
                    ),
                ),
            }
        },
        _ => refuse(missing(request, key)),
    }
}

/// The attribute that a staged one becomes.
pub open spec fn published_xattr(
    publication: XattrPublication<Seq<u8>>,
    staging: record::XattrStagingRecord<Seq<u8>>,
    revision: u64,
) -> StateRecord<Seq<u8>, Seq<char>> {
    StateRecord::Xattr(
        XattrRecord {
            inode_id: publication.inode_id,
            name: publication.name,
            value: staging.bytes,
            revision: RecordRevision { value: revision },
        },
    )
}

/// Plan of a published attribute.
pub open spec fn xattr_plan(
    request: CommitRequest,
    records: Records,
    publication: XattrPublication<Seq<u8>>,
    revision: u64,
) -> Result<PlanView, StateFailure> {
    let staging_key = RecordKey::XattrStaging(request.filesystem_id, publication.staging_id);
    let xattr_key = RecordKey::Xattr(request.filesystem_id, publication.inode_id, publication.name);
    match table::present(records, staging_key) {
        Some(StateRecord::XattrStaging(staging)) => {
            let row = record_write::written_row(
                xattr_key,
                published_xattr(publication, staging, revision),
                revision,
            );
            Ok(
                PlanView::Publish {
                    delete: record_write::key_statement(
                        record_write::delete_text(staging_key)@,
                        staging_key,
                    ),
                    write: if table::present(records, xattr_key) is Some {
                        record_write::row_replacement(row)->0
                    } else {
                        record_write::row_insertion(row)->0
                    },
                },
            )
        },
        _ => refuse(malformed(MalformedCommit::InvalidXattrStaging)),
    }
}

/// A replacement changes content that only a publication may change.
pub open spec fn replaces_content(
    current: Option<StateRecord<Seq<u8>, Seq<char>>>,
    replacement: StateRecord<Seq<u8>, Seq<char>>,
) -> bool {
    match (current, replacement) {
        (Some(StateRecord::Inode(old)), StateRecord::Inode(new)) => record::inode_content(old)
            != record::inode_content(new) || record::content_file(old) != record::content_file(new)
            || old.content_context_id != new.content_context_id,
        _ => false,
    }
}

/// A record write, or why it cannot be prepared.
pub open spec fn record_plan(
    key: RecordKey<Seq<u8>>,
    record: StateRecord<Seq<u8>, Seq<char>>,
    revision: u64,
    expect: WriteExpectation,
) -> Result<PlanView, StateFailure> {
    match record_write::prepare_refusal(key, record) {
        Some(error) => Err(record_write::prepare_failure(error)),
        None => {
            let row = record_write::written_row(key, record, revision);
            Ok(
                PlanView::Write {
                    statement: if expect == WriteExpectation::Insert {
                        record_write::row_insertion(row)->0
                    } else {
                        record_write::row_replacement(row)->0
                    },
                    expect,
                },
            )
        },
    }
}

/// What a change does at an allocated revision.
#[verifier::opaque]
pub open spec fn planned(
    request: CommitRequest,
    change: transition::Change,
    records: Records,
    revision: u64,
    verdict: ChangeVerdict,
) -> Result<PlanView, StateFailure> {
    let filesystem_id = request.filesystem_id;
    let key = request::primary_key(filesystem_id, change);
    let header = transition::header(records, filesystem_id);
    match change {
        StateChange::Insert { record, .. } => if table::present(records, key) is Some {
            refuse(change_conflict(request, CommitConflictKind::RecordPresent(key)))
        } else {
            record_plan(key, record, revision, WriteExpectation::Insert)
        },
        StateChange::Replace { record, .. } => if replaces_content(
            table::present(records, key),
            record,
        ) {
            refuse(malformed(MalformedCommit::ContentReplacementRequiresPreparedPublication))
        } else {
            record_plan(key, record, revision, WriteExpectation::Point)
        },
        StateChange::Delete(_) => if key is Mutation || key is WriterLease {
            Err(
                record_write::prepare_failure(
                    record_write::RecordWritePrepareError::ProtectedRecordFamily,
                ),
            )
        } else {
            Ok(
                PlanView::Write {
                    statement: record_write::key_statement(
                        record_write::delete_text(key)@,
                        key,
                    ),
                    expect: WriteExpectation::Point,
                },
            )
        },
        StateChange::AdvanceDirectoryCookie { count } => advance_plan(
            request,
            records,
            ADVANCE_COOKIE_SQL,
            match header {
                Some(filesystem) => Some(filesystem.next_directory_cookie.value),
                None => None,
            },
            count,
            revision,
        ),
        StateChange::AdvanceQidPath { count } => advance_plan(
            request,
            records,
            ADVANCE_QID_SQL,
            match header {
                Some(filesystem) => Some(filesystem.next_qid_path.value),
                None => None,
            },
            count,
            revision,
        ),
        StateChange::BumpFilesystemPolicyGeneration => advance_plan(
            request,
            records,
            BUMP_POLICY_SQL,
            match header {
                Some(filesystem) => Some(filesystem.policy_generation),
                None => None,
            },
            1,
            revision,
        ),
        StateChange::BumpInodeGeneration(inode_id) => match table::inode_at(
            records,
            filesystem_id,
            inode_id,
        ) {
            None => refuse(missing(request, key)),
            Some(inode) => match inode.inode_generation.next() {
                Some(generation) => update(
                    inode_update(request, BUMP_INODE_SQL, inode_id).with_number(
                        generation.value,
                    ).with_number(revision),
                ),
                None => refuse(malformed(MalformedCommit::Arithmetic)),
            },
        },
        StateChange::BumpDirectoryGeneration(inode_id) => directory_plan(
            request,
            records,
            inode_id,
            revision,
        ),
        StateChange::AdjustLinkCount { inode_id, adjustment } => link_plan(
            request,
            records,
            inode_id,
            adjustment,
            revision,
        ),
        StateChange::AdjustOpenPinCount { inode_id, adjustment } => pin_plan(
            request,
            records,
            inode_id,
            adjustment,
            revision,
        ),
        StateChange::BumpLockGeneration { inode_id, lock_id } => match table::present(
            records,
            key,
        ) {
            Some(StateRecord::Lock(lock)) => match lock.generation.next() {
                Some(generation) => update(
                    inode_update(request, BUMP_LOCK_SQL, inode_id).with_id(
                        lock_id.value,
                    ).with_number(generation.value).with_number(revision),
                ),
                None => refuse(malformed(MalformedCommit::Arithmetic)),
            },
            _ => refuse(missing(request, key)),
        },
        StateChange::PublishContent(publication) => publish_plan(
            request,
            records,
            publication,
            revision,
            verdict,
        ),
        StateChange::RewrapContentMetadata(rewrap) => rewrap_plan(
            request,
            records,
            rewrap,
            revision,
            verdict,
        ),
        StateChange::PublishXattrStaging(publication) => xattr_plan(
            request,
            records,
            publication,
            revision,
        ),
    }
}

/// The mode and nanoseconds that a change writes fit the signed columns.
pub open spec fn writable(
    request: CommitRequest,
    change: transition::Change,
    records: Records,
) -> bool {
    match change {
        StateChange::Insert { record, .. } => row_codec::encodable(record),
        StateChange::Replace { record, .. } => row_codec::encodable(record),
        StateChange::PublishContent(publication) => match table::inode_at(
            records,
            request.filesystem_id,
            publication.inode_id,
        ) {
            Some(current) => {
                let times = publication.attributes.times_after(current.times);
                &&& request::replaced(publication.attributes.mode, current.mode) <= i32::MAX
                &&& times.accessed.nanoseconds <= i32::MAX
                &&& times.modified.nanoseconds <= i32::MAX
                &&& times.changed.nanoseconds <= i32::MAX
                &&& times.created.nanoseconds <= i32::MAX
            },
            None => true,
        },
        _ => true,
    }
}

/// A plan or failure meets what contracts say of it.
pub open spec fn plans(
    result: Result<ChangePlan, PostgresStateError>,
    expected: Result<PlanView, StateFailure>,
) -> bool {
    match (result, expected) {
        (Ok(plan), Ok(view)) => plan@ == view,
        (Err(error), Err(view)) => error@ == view,
        _ => false,
    }
}

fn update_plan(statement: PostgresQuery) -> (result: Result<ChangePlan, PostgresStateError>)
    ensures
        plans(result, update(statement@)),
{
    Ok(ChangePlan::Write { statement, expect: WriteExpectation::Update })
}

fn refusal(outcome: CommitOutcome) -> (result: Result<ChangePlan, PostgresStateError>)
    ensures
        plans(result, refuse(outcome@)),
{
    Ok(ChangePlan::Refuse(outcome))
}

fn inode_query(request: &CommitRequest, sql: &'static str, inode_id: InodeId) -> (result: PostgresQuery)
    ensures
        result@ == inode_update(*request, sql, inode_id),
{
    query(sql).bind_id(request.filesystem_id.value).bind_id(inode_id.value)
}

fn plan_advance(
    request: &CommitRequest,
    records: &RecordTable,
    sql: &'static str,
    current: Option<u64>,
    count: u64,
    revision: u64,
) -> (result: Result<ChangePlan, PostgresStateError>)
    ensures
        plans(result, advance_plan(*request, records@, sql, current, count, revision)),
{
    match current {
        None => refusal(missing_conflict(request, RecordKey::Filesystem(request.filesystem_id))),
        Some(current) => match current.checked_add(count) {
            None => refusal(malformed_arithmetic()),
            Some(next) => update_plan(
                query(sql).bind_id(request.filesystem_id.value).bind_number(next).bind_number(
                    revision,
                ),
            ),
        },
    }
}

fn plan_directory(
    request: &CommitRequest,
    records: &RecordTable,
    inode_id: InodeId,
    revision: u64,
) -> (result: Result<ChangePlan, PostgresStateError>)
    ensures
        plans(result, directory_plan(*request, records@, inode_id, revision)),
{
    let inode = match records.inode(request.filesystem_id, inode_id) {
        Some(inode) => inode,
        None => {
            return refusal(
                missing_conflict(request, RecordKey::Inode(request.filesystem_id, inode_id)),
            );
        },
    };
    match (inode.inode_generation.checked_next(), inode.directory_generation()) {
        (Ok(generation), Some(directory)) => match directory.checked_next() {
            Ok(directory) => update_plan(
                inode_query(request, BUMP_DIRECTORY_SQL, inode_id).bind_number(
                    generation.value,
                ).bind_number(directory.value).bind_number(revision),
            ),
            Err(_) => refusal(malformed_arithmetic()),
        },
        _ => refusal(malformed_arithmetic()),
    }
}

fn plan_links(
    request: &CommitRequest,
    records: &RecordTable,
    inode_id: InodeId,
    adjustment: request::CountAdjustment,
    revision: u64,
) -> (result: Result<ChangePlan, PostgresStateError>)
    ensures
        plans(result, link_plan(*request, records@, inode_id, adjustment, revision)),
{
    let inode = match records.inode(request.filesystem_id, inode_id) {
        Some(inode) => inode,
        None => {
            return refusal(
                missing_conflict(request, RecordKey::Inode(request.filesystem_id, inode_id)),
            );
        },
    };
    match (adjustment.apply(inode.link_count), inode.inode_generation.checked_next()) {
        (Some(count), Ok(generation)) => update_plan(
            inode_query(request, ADJUST_LINKS_SQL, inode_id).bind_number(count).bind_number(
                generation.value,
            ).bind_number(revision),
        ),
        _ => refusal(malformed_arithmetic()),
    }
}

fn plan_pins(
    request: &CommitRequest,
    records: &RecordTable,
    inode_id: InodeId,
    adjustment: request::CountAdjustment,
    revision: u64,
) -> (result: Result<ChangePlan, PostgresStateError>)
    ensures
        plans(result, pin_plan(*request, records@, inode_id, adjustment, revision)),
{
    let key = RecordKey::Orphan(request.filesystem_id, inode_id);
    match records.get(&key) {
        Some(StateRecord::Orphan(orphan)) => match adjustment.apply(orphan.open_pin_count) {
            Some(count) => if count == 0 {
                refusal(malformed_arithmetic())
            } else {
                update_plan(
                    inode_query(request, ADJUST_PINS_SQL, inode_id).bind_number(
                        count,
                    ).bind_number(revision),
                )
            },
            None => refusal(malformed_arithmetic()),
        },
        _ => refusal(missing_conflict(request, key)),
    }
}

fn plan_publication(
    request: &CommitRequest,
    records: &RecordTable,
    publication: &ContentPublication,
    revision: u64,
    verdict: ChangeVerdict,
) -> (result: Result<ChangePlan, PostgresStateError>)
    requires
        writable(*request, StateChange::PublishContent(publication@), records@),
    ensures
        plans(result, publish_plan(*request, records@, publication@, revision, verdict)),
{
    let current = match records.inode(request.filesystem_id, publication.inode_id) {
        Some(current) => current,
        None => {
            return refusal(
                missing_conflict(
                    request,
                    RecordKey::Inode(request.filesystem_id, publication.inode_id),
                ),
            );
        },
    };
    match verdict.publication {
        Some(error) => {
            return refusal(
                CommitOutcome::MalformedRequest(MalformedCommit::InvalidPublication(error)),
            );
        },
        None => {},
    }
    let times = publication.attributes.apply_times(current.times);
    let mode: u32 = match publication.attributes.mode {
        Some(mode) => mode,
        None => current.mode,
    };
    let owner = match &publication.attributes.owner {
        Some(owner) => owner,
        None => &current.owner,
    };
    let group = match &publication.attributes.group {
        Some(group) => group,
        None => &current.group,
    };
    update_plan(
        inode_query(request, PUBLISH_CONTENT_SQL, publication.inode_id).bind_number(
            revision,
        ).bind_number(publication.logical_size).bind_number(
            publication.inode_generation.value,
        ).bind_id(publication.content.file_id.value).bind_number(publication.data_generation).bind(
            SqlValue::Text(Some(copy_text(publication.content.manifest_key.text.as_str()))),
        ).bind(SqlValue::Bytes(Some(publication.content.manifest_digest.to_vec()))).bind(
            SqlValue::Int2(Some(encode_storage_method(publication.content.method))),
        ).bind(SqlValue::Int8(Some(times.accessed.seconds))).bind(
            SqlValue::Int4(Some(times.accessed.nanoseconds as i32)),
        ).bind(SqlValue::Int8(Some(times.modified.seconds))).bind(
            SqlValue::Int4(Some(times.modified.nanoseconds as i32)),
        ).bind(SqlValue::Int8(Some(times.changed.seconds))).bind(
            SqlValue::Int4(Some(times.changed.nanoseconds as i32)),
        ).bind(SqlValue::Int8(Some(times.created.seconds))).bind(
            SqlValue::Int4(Some(times.created.nanoseconds as i32)),
        ).bind(SqlValue::Int4(Some(mode as i32))).bind_bytes(&owner.bytes).bind_bytes(&group.bytes),
    )
}

fn plan_rewrap(
    request: &CommitRequest,
    records: &RecordTable,
    rewrap: &ContentMetadataRewrap,
    revision: u64,
    verdict: ChangeVerdict,
) -> (result: Result<ChangePlan, PostgresStateError>)
    ensures
        plans(result, rewrap_plan(*request, records@, rewrap@, revision, verdict)),
{
    let key = RecordKey::ContentMetadata(request.filesystem_id, rewrap.content_file_id);
    let current = match records.get(&key) {
        Some(StateRecord::ContentMetadata(current)) => current,
        _ => {
            return refusal(missing_conflict(request, key));
        },
    };
    if current.context_id != rewrap.expected_context_id || current.revision
        != rewrap.expected_revision || current.wrapped_key_bytes.is_none() {
        return refusal(
            conflict_outcome(
                request,
                CommitConflictKind::RecordRevision {
                    key,
                    expected: rewrap.expected_revision,
                    actual: current.revision,
                },
            ),
        );
    }
    match verdict.rewrap {
        Some(RewrapError::Limit(error)) => refusal(
            CommitOutcome::MalformedRequest(MalformedCommit::Limit(error)),
        ),
        Some(RewrapError::Invalid) => refusal(
            CommitOutcome::MalformedRequest(MalformedCommit::InvalidContentMetadataRewrap),
        ),
        None => update_plan(
            query(REWRAP_SQL).bind_id(request.filesystem_id.value).bind_id(
                rewrap.content_file_id.value,
            ).bind_bytes(&rewrap.wrapped_key_bytes).bind_number(revision).bind_id(
                rewrap.expected_context_id.value,
            ).bind_number(rewrap.expected_revision.value),
        ),
    }
}

fn plan_xattr(
    request: &CommitRequest,
    records: &RecordTable,
    publication: &XattrPublication,
    revision: StateRevision,
) -> (result: Result<ChangePlan, PostgresStateError>)
    ensures
        plans(result, xattr_plan(*request, records@, publication@, revision.value)),
{
    let staging_key = RecordKey::XattrStaging(request.filesystem_id, publication.staging_id);
    let staging = match records.get(&staging_key) {
        Some(StateRecord::XattrStaging(staging)) => staging,
        _ => {
            return refusal(
                CommitOutcome::MalformedRequest(MalformedCommit::InvalidXattrStaging),
            );
        },
    };
    let xattr_key = RecordKey::Xattr(
        request.filesystem_id,
        publication.inode_id,
        publication.name.copied(),
    );
    let xattr = StateRecord::Xattr(
        XattrRecord {
            inode_id: publication.inode_id,
            name: publication.name.copied(),
            value: staging.bytes.copied(),
            revision: RecordRevision { value: revision.value },
        },
    );
    assert(xattr@ == published_xattr(publication@, staging@, revision.value));
    assert(record_write::prepare_refusal(xattr_key@, xattr@) is None);
    let delete = delete_record(&staging_key)?;
    let write = if records.get(&xattr_key).is_some() {
        replace_record(&xattr_key, &xattr, revision)?
    } else {
        insert_record(&xattr_key, &xattr, revision)?
    };
    Ok(ChangePlan::Publish { delete, write })
}

fn content_differs(current: &InodeRecord, replacement: &InodeRecord) -> (result: bool)
    ensures
        result == replaces_content(
            Some(StateRecord::Inode(current@)),
            StateRecord::Inode(replacement@),
        ),
{
    !current.same_content(replacement) || current.content_file_id()
        != replacement.content_file_id() || current.content_context_id
        != replacement.content_context_id
}

/// Decides what a change writes at an allocated revision.
pub fn apply_change(
    request: &CommitRequest,
    change: &StateChange,
    records: &RecordTable,
    revision: StateRevision,
    verdict: ChangeVerdict,
) -> (result: Result<ChangePlan, PostgresStateError>)
    requires
        writable(*request, change@, records@),
    ensures
        plans(result, planned(*request, change@, records@, revision.value, verdict)),
{
    reveal(planned);
    let filesystem_id = request.filesystem_id;
    let key = change.primary_key(filesystem_id);
    let header = match records.get(&RecordKey::Filesystem(filesystem_id)) {
        Some(StateRecord::Filesystem(filesystem)) => Some(*filesystem),
        _ => None,
    };
    match change {
        StateChange::Insert { record, .. } => {
            if records.get(&key).is_some() {
                return refusal(
                    conflict_outcome(request, CommitConflictKind::RecordPresent(key)),
                );
            }
            let statement = insert_record(&key, record, revision)?;
            Ok(ChangePlan::Write { statement, expect: WriteExpectation::Insert })
        },
        StateChange::Replace { record, .. } => {
            let differs = match (records.get(&key), record) {
                (Some(StateRecord::Inode(old)), StateRecord::Inode(new)) => content_differs(
                    old,
                    new,
                ),
                _ => false,
            };
            if differs {
                return refusal(
                    CommitOutcome::MalformedRequest(
                        MalformedCommit::ContentReplacementRequiresPreparedPublication,
                    ),
                );
            }
            let statement = replace_record(&key, record, revision)?;
            Ok(ChangePlan::Write { statement, expect: WriteExpectation::Point })
        },
        StateChange::Delete(_) => {
            let statement = delete_record(&key)?;
            Ok(ChangePlan::Write { statement, expect: WriteExpectation::Point })
        },
        StateChange::AdvanceDirectoryCookie { count } => plan_advance(
            request,
            records,
            ADVANCE_COOKIE_SQL,
            match header {
                Some(filesystem) => Some(filesystem.next_directory_cookie.value),
                None => None,
            },
            *count,
            revision.value,
        ),
        StateChange::AdvanceQidPath { count } => plan_advance(
            request,
            records,
            ADVANCE_QID_SQL,
            match header {
                Some(filesystem) => Some(filesystem.next_qid_path.value),
                None => None,
            },
            *count,
            revision.value,
        ),
        StateChange::BumpFilesystemPolicyGeneration => plan_advance(
            request,
            records,
            BUMP_POLICY_SQL,
            match header {
                Some(filesystem) => Some(filesystem.policy_generation),
                None => None,
            },
            1,
            revision.value,
        ),
        StateChange::BumpInodeGeneration(inode_id) => match records.inode(
            filesystem_id,
            *inode_id,
        ) {
            None => refusal(missing_conflict(request, key)),
            Some(inode) => match inode.inode_generation.checked_next() {
                Ok(generation) => update_plan(
                    inode_query(request, BUMP_INODE_SQL, *inode_id).bind_number(
                        generation.value,
                    ).bind_number(revision.value),
                ),
                Err(_) => refusal(malformed_arithmetic()),
            },
        },
        StateChange::BumpDirectoryGeneration(inode_id) => plan_directory(
            request,
            records,
            *inode_id,
            revision.value,
        ),
        StateChange::AdjustLinkCount { inode_id, adjustment } => plan_links(
            request,
            records,
            *inode_id,
            *adjustment,
            revision.value,
        ),
        StateChange::AdjustOpenPinCount { inode_id, adjustment } => plan_pins(
            request,
            records,
            *inode_id,
            *adjustment,
            revision.value,
        ),
        StateChange::BumpLockGeneration { inode_id, lock_id } => match records.get(&key) {
            Some(StateRecord::Lock(lock)) => match lock.generation.checked_next() {
                Ok(generation) => update_plan(
                    inode_query(request, BUMP_LOCK_SQL, *inode_id).bind_id(
                        lock_id.value,
                    ).bind_number(generation.value).bind_number(revision.value),
                ),
                Err(_) => refusal(malformed_arithmetic()),
            },
            _ => refusal(missing_conflict(request, key)),
        },
        StateChange::PublishContent(publication) => plan_publication(
            request,
            records,
            publication,
            revision.value,
            verdict,
        ),
        StateChange::RewrapContentMetadata(rewrap) => plan_rewrap(
            request,
            records,
            rewrap,
            revision.value,
            verdict,
        ),
        StateChange::PublishXattrStaging(publication) => plan_xattr(
            request,
            records,
            publication,
            revision,
        ),
    }
}

/// The metadata that a content publication is checked against.
pub fn publication_metadata_key(request: &CommitRequest, publication: &ContentPublication) -> (result:
    RecordKey)
    ensures
        result@ == RecordKey::<Seq<u8>>::ContentMetadata(
            request.filesystem_id,
            publication.context_file_id,
        ),
{
    RecordKey::ContentMetadata(request.filesystem_id, publication.context_file_id)
}

/// Why content cannot be published over stored metadata: without metadata its
/// context cannot match.
pub fn publication_verdict(
    metadata: Option<&StateRecord>,
    checked: Option<PublishContentError>,
) -> (result: Option<PublishContentError>)
    ensures
        result == (match metadata {
            Some(StateRecord::ContentMetadata(_)) => checked,
            _ => Some(PublishContentError::ContentContextMismatch),
        }),
{
    match metadata {
        Some(StateRecord::ContentMetadata(_)) => checked,
        _ => Some(PublishContentError::ContentContextMismatch),
    }
}

/// What the rows that a write affected say of a change.
pub open spec fn concluded(
    request: CommitRequest,
    key: RecordKey<Seq<u8>>,
    expect: WriteExpectation,
    rows: u64,
) -> Result<Option<CommitOutcome<Seq<u8>>>, StateFailure> {
    if rows == 1 {
        Ok(None)
    } else if expect == WriteExpectation::Update {
        Ok(Some(missing(request, key)))
    } else if rows > 1 {
        Err(
            precondition::commit_failure(
                AdapterFailureKind::Corruption,
                "",
                FailureCause::PointWrite(rows),
            ),
        )
    } else if expect == WriteExpectation::Insert {
        Err(
            precondition::commit_failure(
                AdapterFailureKind::Internal,
                "record insert affected no row",
                FailureCause::Plain,
            ),
        )
    } else {
        Ok(Some(missing(request, key)))
    }
}

/// An optional outcome or failure meets what contracts say of it.
pub open spec fn concludes(
    result: Result<Option<CommitOutcome>, PostgresStateError>,
    expected: Result<Option<CommitOutcome<Seq<u8>>>, StateFailure>,
) -> bool {
    match (result, expected) {
        (Ok(Some(outcome)), Ok(Some(view))) => outcome@ == view,
        (Ok(None), Ok(None)) => true,
        (Err(error), Err(view)) => error@ == view,
        _ => false,
    }
}

/// Reads the rows that a write affected.
pub fn apply_presence(
    request: &CommitRequest,
    key: RecordKey,
    expect: WriteExpectation,
    rows: u64,
) -> (result: Result<Option<CommitOutcome>, PostgresStateError>)
    ensures
        concludes(result, concluded(*request, key@, expect, rows)),
{
    if expect == WriteExpectation::Update {
        if rows == 1 {
            return Ok(None);
        }
        return Ok(Some(missing_conflict(request, key)));
    }
    match affected_presence(rows) {
        Err(error) => Err(error),
        Ok(RowPresence::Present) => Ok(None),
        Ok(RowPresence::Absent) => if expect == WriteExpectation::Insert {
            Err(internal("record insert affected no row", FailureCause::Plain))
        } else {
            Ok(Some(missing_conflict(request, key)))
        },
    }
}

/// A stepped inode generation is the one after the generation that was read,
/// and is written with the allocated revision.
pub proof fn law_bumped_generation_follows(
    request: CommitRequest,
    records: Records,
    inode_id: InodeId,
    revision: u64,
    verdict: ChangeVerdict,
)
    ensures
        match planned(
            request,
            StateChange::BumpInodeGeneration(inode_id),
            records,
            revision,
            verdict,
        ) {
            Ok(PlanView::Write { statement, .. }) => {
                let inode = table::inode_at(records, request.filesystem_id, inode_id);
                &&& inode is Some
                &&& statement.values.len() == 4
                &&& statement.values[2] == statement::number_value(
                    (inode->0.inode_generation.value + 1) as u64,
                )
                &&& statement.values[3] == statement::number_value(revision)
            },
            Ok(PlanView::Refuse(_)) => true,
            _ => false,
        },
{
    reveal(planned);
}

} // verus!
