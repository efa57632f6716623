//! What the statement of each change does to the stored row.
use vstd::prelude::*;

use crate::change_plan;
use crate::change_plan::{ChangeVerdict, PlanView, WriteExpectation};
use crate::failure::{AdapterFailureKind, StateFailure};
use crate::ids::{
    DirectoryCookie, DirectoryGeneration, InodeGeneration, LockGeneration, QidPath, RecordRevision,
    StateRevision,
};
use crate::key::RecordKey;
use crate::limits::StateLimits;
use crate::precondition_law;
use crate::record::{
    ContentMetadataRecord, ContentRef, FilesystemRecord, InodeData, InodeRecord, InodeTimes,
    LockRecord, OrphanRecord, StateRecord, XattrRecord, XattrStagingRecord,
};
use crate::record_write;
use crate::request::{
    CommitConflictKind, CommitOutcome, CommitRequest, ContentMetadataRewrap, ContentPublication,
    CountAdjustment, MalformedCommit, RewrapError, StateChange, XattrPublication,
};
use crate::row_codec;
use crate::row_law;
use crate::rows::{ContentMetadataRow, FilesystemRow, InodeRow, LockRow, OrphanRow, SqlStateRecord};
use crate::statement::{StatementView, ValueView};
use crate::table::Records;
use crate::transition;

verus! {

/// Running the statement turns one row of the filesystem header into another.
pub open spec fn steps_header(
    statement: StatementView,
    before: FilesystemRow<Seq<u8>, Seq<char>>,
    after: FilesystemRow<Seq<u8>, Seq<char>>,
) -> bool {
    let v = statement.values;
    &&& v.len() == 3
    &&& v[0] == ValueView::Bytes(Some(before.filesystem_id))
    &&& v[2] == ValueView::Text(Some(after.state_revision))
    &&& v[2] == ValueView::Text(Some(after.record_revision))
    &&& {
        ||| {
            &&& statement.sql
                == "UPDATE \"public\".\"w9pt_fs_state_filesystem_records\" SET \"next_directory_cookie\" = $2::numeric, \"state_revision\" = $3::numeric, \"record_revision\" = $3::numeric WHERE \"filesystem_id\" = $1"@
            &&& v[1] == ValueView::Text(Some(after.next_directory_cookie))
            &&& after == (FilesystemRow {
                next_directory_cookie: after.next_directory_cookie,
                state_revision: after.state_revision,
                record_revision: after.record_revision,
                ..before
            })
        }
        ||| {
            &&& statement.sql
                == "UPDATE \"public\".\"w9pt_fs_state_filesystem_records\" SET \"next_qid_path\" = $2::numeric, \"state_revision\" = $3::numeric, \"record_revision\" = $3::numeric WHERE \"filesystem_id\" = $1"@
            &&& v[1] == ValueView::Text(Some(after.next_qid_path))
            &&& after == (FilesystemRow {
                next_qid_path: after.next_qid_path,
                state_revision: after.state_revision,
                record_revision: after.record_revision,
                ..before
            })
        }
        ||| {
            &&& statement.sql
                == "UPDATE \"public\".\"w9pt_fs_state_filesystem_records\" SET \"policy_generation\" = $2::numeric, \"state_revision\" = $3::numeric, \"record_revision\" = $3::numeric WHERE \"filesystem_id\" = $1"@
            &&& v[1] == ValueView::Text(Some(after.policy_generation))
            &&& after == (FilesystemRow {
                policy_generation: after.policy_generation,
                state_revision: after.state_revision,
                record_revision: after.record_revision,
                ..before
            })
        }
    }
}

/// Running the statement turns one row of an inode into another that differs in
/// its generations and its link count.
pub open spec fn steps_inode(
    statement: StatementView,
    before: InodeRow<Seq<u8>, Seq<char>>,
    after: InodeRow<Seq<u8>, Seq<char>>,
) -> bool {
    let v = statement.values;
    &&& v.len() >= 4
    &&& v[0] == ValueView::Bytes(Some(before.filesystem_id))
    &&& v[1] == ValueView::Bytes(Some(before.inode_id))
    &&& {
        ||| {
            &&& statement.sql
                == "UPDATE \"public\".\"w9pt_fs_state_inodes\" SET \"inode_generation\" = $3::numeric, \"record_revision\" = $4::numeric WHERE \"filesystem_id\" = $1 AND \"inode_id\" = $2"@
            &&& v.len() == 4
            &&& v[2] == ValueView::Text(Some(after.inode_generation))
            &&& v[3] == ValueView::Text(Some(after.record_revision))
            &&& after == (InodeRow {
                inode_generation: after.inode_generation,
                record_revision: after.record_revision,
                ..before
            })
        }
        ||| {
            &&& statement.sql
                == "UPDATE \"public\".\"w9pt_fs_state_inodes\" SET \"inode_generation\" = $3::numeric, \"directory_generation\" = $4::numeric, \"record_revision\" = $5::numeric WHERE \"filesystem_id\" = $1 AND \"inode_id\" = $2"@
            &&& v.len() == 5
            &&& v[2] == ValueView::Text(Some(after.inode_generation))
            &&& v[3] == ValueView::Text(after.directory_generation)
            &&& v[4] == ValueView::Text(Some(after.record_revision))
            &&& after == (InodeRow {
                inode_generation: after.inode_generation,
                directory_generation: after.directory_generation,
                record_revision: after.record_revision,
                ..before
            })
        }
        ||| {
            &&& statement.sql
                == "UPDATE \"public\".\"w9pt_fs_state_inodes\" SET \"link_count\" = $3::numeric, \"inode_generation\" = $4::numeric, \"record_revision\" = $5::numeric WHERE \"filesystem_id\" = $1 AND \"inode_id\" = $2"@
            &&& v.len() == 5
            &&& v[2] == ValueView::Text(Some(after.link_count))
            &&& v[3] == ValueView::Text(Some(after.inode_generation))
            &&& v[4] == ValueView::Text(Some(after.record_revision))
            &&& after == (InodeRow {
                link_count: after.link_count,
                inode_generation: after.inode_generation,
                record_revision: after.record_revision,
                ..before
            })
        }
    }
}

/// Running the statement turns one row of an inode into another that differs in
/// its content and the attributes that a publication may set.
pub open spec fn publishes_inode(
    statement: StatementView,
    before: InodeRow<Seq<u8>, Seq<char>>,
    after: InodeRow<Seq<u8>, Seq<char>>,
) -> bool {
    let v = statement.values;
    &&& statement.sql
        == "UPDATE \"public\".\"w9pt_fs_state_inodes\" SET \"record_revision\" = $3::numeric, \"logical_size\" = $4::numeric, \"inode_generation\" = $5::numeric, \"content_file_id\" = $6, \"data_generation\" = $7::numeric, \"content_generation\" = $7::numeric, \"content_logical_size\" = $4::numeric, \"content_manifest_key\" = $8, \"content_manifest_digest\" = $9, \"content_storage_method\" = $10, \"accessed_seconds\" = $11, \"accessed_nanoseconds\" = $12, \"modified_seconds\" = $13, \"modified_nanoseconds\" = $14, \"changed_seconds\" = $15, \"changed_nanoseconds\" = $16, \"created_seconds\" = $17, \"created_nanoseconds\" = $18, \"mode\" = $19, \"owner\" = $20, \"group_id\" = $21 WHERE \"filesystem_id\" = $1 AND \"inode_id\" = $2"@
    &&& v.len() == 21
    &&& v[0] == ValueView::Bytes(Some(before.filesystem_id))
    &&& v[1] == ValueView::Bytes(Some(before.inode_id))
    &&& v[2] == ValueView::Text(Some(after.record_revision))
    &&& v[3] == ValueView::Text(Some(after.logical_size))
    &&& v[3] == ValueView::Text(after.content_logical_size)
    &&& v[4] == ValueView::Text(Some(after.inode_generation))
    &&& v[5] == ValueView::Bytes(after.content_file_id)
    &&& v[6] == ValueView::Text(after.data_generation)
    &&& v[6] == ValueView::Text(after.content_generation)
    &&& v[7] == ValueView::Text(after.content_manifest_key)
    &&& v[8] == ValueView::Bytes(after.content_manifest_digest)
    &&& v[9] == ValueView::Int2(after.content_storage_method)
    &&& v[10] == ValueView::Int8(Some(after.accessed_seconds))
    &&& v[11] == ValueView::Int4(Some(after.accessed_nanoseconds))
    &&& v[12] == ValueView::Int8(Some(after.modified_seconds))
    &&& v[13] == ValueView::Int4(Some(after.modified_nanoseconds))
    &&& v[14] == ValueView::Int8(Some(after.changed_seconds))
    &&& v[15] == ValueView::Int4(Some(after.changed_nanoseconds))
    &&& v[16] == ValueView::Int8(Some(after.created_seconds))
    &&& v[17] == ValueView::Int4(Some(after.created_nanoseconds))
    &&& v[18] == ValueView::Int4(Some(after.mode))
    &&& v[19] == ValueView::Bytes(Some(after.owner))
    &&& v[20] == ValueView::Bytes(Some(after.group_id))
    &&& after == (InodeRow {
        record_revision: after.record_revision,
        logical_size: after.logical_size,
        content_logical_size: after.content_logical_size,
        inode_generation: after.inode_generation,
        content_file_id: after.content_file_id,
        data_generation: after.data_generation,
        content_generation: after.content_generation,
        content_manifest_key: after.content_manifest_key,
        content_manifest_digest: after.content_manifest_digest,
        content_storage_method: after.content_storage_method,
        accessed_seconds: after.accessed_seconds,
        accessed_nanoseconds: after.accessed_nanoseconds,
        modified_seconds: after.modified_seconds,
        modified_nanoseconds: after.modified_nanoseconds,
        changed_seconds: after.changed_seconds,
        changed_nanoseconds: after.changed_nanoseconds,
        created_seconds: after.created_seconds,
        created_nanoseconds: after.created_nanoseconds,
        mode: after.mode,
        owner: after.owner,
        group_id: after.group_id,
        ..before
    })
}

/// Running the statement turns one row of an orphan into another.
pub open spec fn steps_orphan(
    statement: StatementView,
    before: OrphanRow<Seq<u8>, Seq<char>>,
    after: OrphanRow<Seq<u8>, Seq<char>>,
) -> bool {
    let v = statement.values;
    &&& statement.sql
        == "UPDATE \"public\".\"w9pt_fs_state_orphans\" SET \"open_pin_count\" = $3::numeric, \"record_revision\" = $4::numeric WHERE \"filesystem_id\" = $1 AND \"inode_id\" = $2"@
    &&& v.len() == 4
    &&& v[0] == ValueView::Bytes(Some(before.filesystem_id))
    &&& v[1] == ValueView::Bytes(Some(before.inode_id))
    &&& v[2] == ValueView::Text(Some(after.open_pin_count))
    &&& v[3] == ValueView::Text(Some(after.record_revision))
    &&& after == (OrphanRow {
        open_pin_count: after.open_pin_count,
        record_revision: after.record_revision,
        ..before
    })
}

/// Running the statement turns one row of a lock into another.
pub open spec fn steps_lock(
    statement: StatementView,
    before: LockRow<Seq<u8>, Seq<char>>,
    after: LockRow<Seq<u8>, Seq<char>>,
) -> bool {
    let v = statement.values;
    &&& statement.sql
        == "UPDATE \"public\".\"w9pt_fs_state_locks\" SET \"lock_generation\" = $4::numeric, \"record_revision\" = $5::numeric WHERE \"filesystem_id\" = $1 AND \"inode_id\" = $2 AND \"lock_id\" = $3"@
    &&& v.len() == 5
    &&& v[0] == ValueView::Bytes(Some(before.filesystem_id))
    &&& v[1] == ValueView::Bytes(Some(before.inode_id))
    &&& v[2] == ValueView::Bytes(Some(before.lock_id))
    &&& v[3] == ValueView::Text(Some(after.lock_generation))
    &&& v[4] == ValueView::Text(Some(after.record_revision))
    &&& after == (LockRow {
        lock_generation: after.lock_generation,
        record_revision: after.record_revision,
        ..before
    })
}

/// Running the statement turns one row of content metadata into another, and
/// finds it only at its own context and revision.
pub open spec fn steps_metadata(
    statement: StatementView,
    before: ContentMetadataRow<Seq<u8>, Seq<char>>,
    after: ContentMetadataRow<Seq<u8>, Seq<char>>,
) -> bool {
    let v = statement.values;
    &&& statement.sql
        == "UPDATE \"public\".\"w9pt_fs_state_content_metadata\" SET \"wrapped_key_bytes\" = $3, \"record_revision\" = $4::numeric WHERE \"filesystem_id\" = $1 AND \"content_file_id\" = $2 AND \"context_id\" = $5 AND \"record_revision\" = $6::numeric"@
    &&& v.len() == 6
    &&& v[0] == ValueView::Bytes(Some(before.filesystem_id))
    &&& v[1] == ValueView::Bytes(Some(before.content_file_id))
    &&& v[2] == ValueView::Bytes(after.wrapped_key_bytes)
    &&& v[3] == ValueView::Text(Some(after.record_revision))
    &&& v[4] == ValueView::Bytes(Some(before.context_id))
    &&& v[5] == ValueView::Text(Some(before.record_revision))
    &&& after == (ContentMetadataRow {
        wrapped_key_bytes: after.wrapped_key_bytes,
        record_revision: after.record_revision,
        ..before
    })
}

/// The plan is one statement that must affect exactly one row.
pub open spec fn single_update(plan: Result<PlanView, StateFailure>) -> bool {
    plan matches Ok(PlanView::Write { expect: WriteExpectation::Update, .. })
}

/// The plan refuses the request, with an outcome.
pub open spec fn refused(
    plan: Result<PlanView, StateFailure>,
    outcome: CommitOutcome<Seq<u8>>,
) -> bool {
    plan == Ok::<PlanView, StateFailure>(PlanView::Refuse(outcome))
}

/// The plan refuses the request: the record under a key is missing.
pub open spec fn refused_missing(
    plan: Result<PlanView, StateFailure>,
    request: CommitRequest,
    key: RecordKey<Seq<u8>>,
) -> bool {
    &&& plan matches Ok(PlanView::Refuse(CommitOutcome::Conflict(conflict)))
    &&& conflict.precondition_index == request.preconditions.len()
    &&& conflict.kind == CommitConflictKind::<Seq<u8>>::RecordMissing(key)
}

/// The plan refuses the request: a number would leave its range.
pub open spec fn refused_arithmetic(plan: Result<PlanView, StateFailure>) -> bool {
    refused(plan, CommitOutcome::MalformedRequest(MalformedCommit::Arithmetic))
}

/// No inode is known to stand under an identity.
pub open spec fn no_inode(request: CommitRequest, records: Records, id: crate::ids::InodeId) -> bool {
    let key = RecordKey::Inode(request.filesystem_id, id);
    !(records.dom().contains(key) && records[key] matches Some(StateRecord::Inode(_)))
}

/// The inode that a publication turns the stored one into: size, generations
/// and content are those of the publication, each attribute is that of the
/// publication where it sets one and the stored one otherwise, and all else
/// stays.
pub open spec fn published_inode(
    stored: InodeRecord<Seq<u8>, Seq<char>>,
    publication: ContentPublication<Seq<u8>, Seq<char>>,
    revision: u64,
) -> InodeRecord<Seq<u8>, Seq<char>> {
    let set = publication.attributes;
    InodeRecord {
        revision: RecordRevision { value: revision },
        logical_size: publication.logical_size,
        inode_generation: publication.inode_generation,
        mode: match set.mode {
            Some(mode) => mode,
            None => stored.mode,
        },
        owner: match set.owner {
            Some(owner) => owner,
            None => stored.owner,
        },
        group: match set.group {
            Some(group) => group,
            None => stored.group,
        },
        times: InodeTimes {
            accessed: match set.accessed {
                Some(time) => time,
                None => stored.times.accessed,
            },
            modified: match set.modified {
                Some(time) => time,
                None => stored.times.modified,
            },
            changed: match set.changed {
                Some(time) => time,
                None => stored.times.changed,
            },
            created: match set.created {
                Some(time) => time,
                None => stored.times.created,
            },
        },
        data: InodeData::RegularFile {
            content_file_id: publication.content.file_id,
            content: Some(
                ContentRef {
                    file_id: publication.content.file_id,
                    generation: publication.data_generation,
                    logical_size: publication.logical_size,
                    manifest_key: publication.content.manifest_key,
                    manifest_digest: publication.content.manifest_digest,
                    method: publication.content.method,
                },
            ),
            data_generation: publication.data_generation,
        },
        ..stored
    }
}

/// An accepted publication is one update of the stored inode's row, and every
/// row that the update leaves reads back as the inode that carries what was
/// published, with unset attributes kept from the stored one.
pub proof fn law_published_content_is_read_back(
    request: CommitRequest,
    records: Records,
    publication: ContentPublication<Seq<u8>, Seq<char>>,
    stored: InodeRecord<Seq<u8>, Seq<char>>,
    revision: u64,
    verdict: ChangeVerdict,
    limits: StateLimits,
    after: InodeRow<Seq<u8>, Seq<char>>,
)
    requires
        precondition_law::stands(
            records,
            RecordKey::Inode(request.filesystem_id, publication.inode_id),
            StateRecord::Inode(stored),
        ),
        stored.inode_id == publication.inode_id,
        stored.data is RegularFile,
        verdict.publication is None,
    ensures
        ({
            let plan = change_plan::planned(
                request,
                StateChange::PublishContent(publication),
                records,
                revision,
                verdict,
            );
            let before = row_codec::inode_row_of(request.filesystem_id, stored);
            let published = published_inode(stored, publication, revision);
            &&& single_update(plan)
            &&& publishes_inode(
                plan->Ok_0->Write_statement,
                before,
                row_codec::inode_row_of(request.filesystem_id, published),
            )
            &&& publishes_inode(plan->Ok_0->Write_statement, before, after)
                && row_law::record_valid(StateRecord::Inode(published), limits) ==> {
                &&& row_codec::row_failure(SqlStateRecord::Inode(after), limits) is None
                &&& row_codec::row_record(SqlStateRecord::Inode(after)) == StateRecord::Inode(
                    published,
                )
            }
        }),
{
    reveal(change_plan::planned);
    let filesystem_id = request.filesystem_id;
    let plan = change_plan::planned(
        request,
        StateChange::PublishContent(publication),
        records,
        revision,
        verdict,
    );
    let statement = plan->Ok_0->Write_statement;
    let published = published_inode(stored, publication, revision);
    let before = row_codec::inode_row_of(filesystem_id, stored);
    let expected = row_codec::inode_row_of(filesystem_id, published);
    assert(publishes_inode(statement, before, expected));
    if publishes_inode(statement, before, after) && row_law::record_valid(
        StateRecord::Inode(published),
        limits,
    ) {
        assert(after == expected);
        row_law::law_encode_then_decode(filesystem_id, StateRecord::Inode(published), limits);
    }
}

/// A publication over an inode that is not there, or one that the rules of
/// published content reject, writes nothing.
pub proof fn law_refused_publications_write_nothing(
    request: CommitRequest,
    records: Records,
    publication: ContentPublication<Seq<u8>, Seq<char>>,
    revision: u64,
    verdict: ChangeVerdict,
)
    ensures
        ({
            let plan = change_plan::planned(
                request,
                StateChange::PublishContent(publication),
                records,
                revision,
                verdict,
            );
            let missing = no_inode(request, records, publication.inode_id);
            &&& missing ==> refused_missing(
                plan,
                request,
                RecordKey::Inode(request.filesystem_id, publication.inode_id),
            )
            &&& !missing && verdict.publication is Some ==> refused(
                plan,
                CommitOutcome::MalformedRequest(
                    MalformedCommit::InvalidPublication(verdict.publication->0),
                ),
            )
            &&& !missing && verdict.publication is None ==> single_update(plan)
        }),
{
    reveal(change_plan::planned);
}

/// A counter of the filesystem header is stepped by exactly the requested
/// count, a policy generation by one, in the header's own row; the header is
/// left alone otherwise. A sum that leaves its range, or a header that is not
/// there, is refused.
pub proof fn law_header_steps_are_exact(
    request: CommitRequest,
    records: Records,
    change: transition::Change,
    stored: FilesystemRecord,
    revision: u64,
    verdict: ChangeVerdict,
)
    requires
        change is AdvanceDirectoryCookie || change is AdvanceQidPath
            || change is BumpFilesystemPolicyGeneration,
        stored.filesystem_id == request.filesystem_id,
    ensures
        ({
            let plan = change_plan::planned(request, change, records, revision, verdict);
            let key = RecordKey::Filesystem(request.filesystem_id);
            let stamped = FilesystemRecord {
                revision: StateRevision { value: revision },
                record_revision: RecordRevision { value: revision },
                ..stored
            };
            let (sum, stepped): (int, FilesystemRecord) = match change {
                StateChange::AdvanceDirectoryCookie { count } => {
                    let sum = stored.next_directory_cookie.value + count;
                    (
                        sum,
                        FilesystemRecord {
                            next_directory_cookie: DirectoryCookie { value: sum as u64 },
                            ..stamped
                        },
                    )
                },
                StateChange::AdvanceQidPath { count } => {
                    let sum = stored.next_qid_path.value + count;
                    (
                        sum,
                        FilesystemRecord { next_qid_path: QidPath { value: sum as u64 }, ..stamped },
                    )
                },
                _ => {
                    let sum = stored.policy_generation + 1;
                    (sum, FilesystemRecord { policy_generation: sum as u64, ..stamped })
                },
            };
            &&& precondition_law::stands(records, key, StateRecord::Filesystem(stored)) ==> {
                &&& sum <= u64::MAX ==> single_update(plan) && steps_header(
                    plan->Ok_0->Write_statement,
                    row_codec::row_of(
                        request.filesystem_id,
                        StateRecord::Filesystem(stored),
                    )->Filesystem_0,
                    row_codec::row_of(
                        request.filesystem_id,
                        StateRecord::Filesystem(stepped),
                    )->Filesystem_0,
                )
                &&& sum > u64::MAX ==> refused_arithmetic(plan)
            }
            &&& !(records.dom().contains(key) && records[key] matches Some(
                StateRecord::Filesystem(_),
            )) ==> refused_missing(plan, request, key)
        }),
{
    reveal(change_plan::planned);
}

/// A stepped inode generation is the stored one plus one. A stepped directory
/// generation steps both generations of the directory by one. An adjusted link
/// count is the stored one plus or minus the amount, and steps the inode
/// generation by one. All of it happens in the row of the named inode, and the
/// row is left alone otherwise.
pub proof fn law_inode_steps_are_exact(
    request: CommitRequest,
    records: Records,
    change: transition::Change,
    inode_id: crate::ids::InodeId,
    stored: InodeRecord<Seq<u8>, Seq<char>>,
    revision: u64,
    verdict: ChangeVerdict,
)
    requires
        match change {
            StateChange::BumpInodeGeneration(named) => named == inode_id,
            StateChange::BumpDirectoryGeneration(named) => named == inode_id,
            StateChange::AdjustLinkCount { inode_id: named, .. } => named == inode_id,
            _ => false,
        },
        precondition_law::stands(
            records,
            RecordKey::Inode(request.filesystem_id, inode_id),
            StateRecord::Inode(stored),
        ),
        stored.inode_id == inode_id,
    ensures
        ({
            let plan = change_plan::planned(request, change, records, revision, verdict);
            let next = stored.inode_generation.value + 1;
            let stamped = InodeRecord {
                revision: RecordRevision { value: revision },
                inode_generation: InodeGeneration { value: next as u64 },
                ..stored
            };
            let (fits, stepped): (bool, InodeRecord<Seq<u8>, Seq<char>>) = match change {
                StateChange::BumpDirectoryGeneration(_) => match stored.data {
                    InodeData::Directory { generation, parent_inode_id } => (
                        next <= u64::MAX && generation.value + 1 <= u64::MAX,
                        InodeRecord {
                            data: InodeData::Directory {
                                generation: DirectoryGeneration {
                                    value: (generation.value + 1) as u64,
                                },
                                parent_inode_id,
                            },
                            ..stamped
                        },
                    ),
                    _ => (false, stamped),
                },
                StateChange::AdjustLinkCount { adjustment, .. } => {
                    let count: int = match adjustment {
                        CountAdjustment::Increase(amount) => stored.link_count + amount,
                        CountAdjustment::Decrease(amount) => stored.link_count - amount,
                    };
                    (
                        next <= u64::MAX && 0 <= count <= u64::MAX,
                        InodeRecord { link_count: count as u64, ..stamped },
                    )
                },
                _ => (next <= u64::MAX, stamped),
            };
            &&& fits ==> single_update(plan) && steps_inode(
                plan->Ok_0->Write_statement,
                row_codec::inode_row_of(request.filesystem_id, stored),
                row_codec::inode_row_of(request.filesystem_id, stepped),
            )
            &&& !fits ==> refused_arithmetic(plan)
        }),
{
    reveal(change_plan::planned);
}

/// A step of an inode that is not there is refused, and the conflict names the
/// inode.
pub proof fn law_missing_inodes_are_not_stepped(
    request: CommitRequest,
    records: Records,
    change: transition::Change,
    inode_id: crate::ids::InodeId,
    revision: u64,
    verdict: ChangeVerdict,
)
    requires
        match change {
            StateChange::BumpInodeGeneration(named) => named == inode_id,
            StateChange::BumpDirectoryGeneration(named) => named == inode_id,
            StateChange::AdjustLinkCount { inode_id: named, .. } => named == inode_id,
            _ => false,
        },
        no_inode(request, records, inode_id),
    ensures
        refused_missing(
            change_plan::planned(request, change, records, revision, verdict),
            request,
            RecordKey::Inode(request.filesystem_id, inode_id),
        ),
{
    reveal(change_plan::planned);
}

/// An adjusted pin count is the stored one plus or minus the amount, in the row
/// of the named orphan, and never reaches zero. An orphan that is not there is
/// refused.
pub proof fn law_pin_steps_are_exact(
    request: CommitRequest,
    records: Records,
    inode_id: crate::ids::InodeId,
    adjustment: CountAdjustment,
    stored: OrphanRecord,
    revision: u64,
    verdict: ChangeVerdict,
)
    requires
        stored.inode_id == inode_id,
    ensures
        ({
            let plan = change_plan::planned(
                request,
                StateChange::AdjustOpenPinCount { inode_id, adjustment },
                records,
                revision,
                verdict,
            );
            let key = RecordKey::Orphan(request.filesystem_id, inode_id);
            let count: int = match adjustment {
                CountAdjustment::Increase(amount) => stored.open_pin_count + amount,
                CountAdjustment::Decrease(amount) => stored.open_pin_count - amount,
            };
            let stepped = OrphanRecord {
                open_pin_count: count as u64,
                revision: RecordRevision { value: revision },
                ..stored
            };
            &&& precondition_law::stands(records, key, StateRecord::Orphan(stored)) ==> {
                &&& 0 < count <= u64::MAX ==> single_update(plan) && steps_orphan(
                    plan->Ok_0->Write_statement,
                    row_codec::row_of(
                        request.filesystem_id,
                        StateRecord::Orphan(stored),
                    )->Orphan_0,
                    row_codec::row_of(
                        request.filesystem_id,
                        StateRecord::Orphan(stepped),
                    )->Orphan_0,
                )
                &&& !(0 < count <= u64::MAX) ==> refused_arithmetic(plan)
            }
            &&& !(records.dom().contains(key) && records[key] matches Some(
                StateRecord::Orphan(_),
            )) ==> refused_missing(plan, request, key)
        }),
{
    reveal(change_plan::planned);
}

/// A stepped lock generation is the stored one plus one, in the row of the
/// named lock. A lock that is not there is refused.
pub proof fn law_lock_steps_are_exact(
    request: CommitRequest,
    records: Records,
    stored: LockRecord,
    revision: u64,
    verdict: ChangeVerdict,
)
    ensures
        ({
            let plan = change_plan::planned(
                request,
                StateChange::BumpLockGeneration {
                    inode_id: stored.inode_id,
                    lock_id: stored.lock_id,
                },
                records,
                revision,
                verdict,
            );
            let key = RecordKey::Lock(request.filesystem_id, stored.inode_id, stored.lock_id);
            let next = stored.generation.value + 1;
            let stepped = LockRecord {
                generation: LockGeneration { value: next as u64 },
                revision: RecordRevision { value: revision },
                ..stored
            };
            &&& precondition_law::stands(records, key, StateRecord::Lock(stored)) ==> {
                &&& next <= u64::MAX ==> single_update(plan) && steps_lock(
                    plan->Ok_0->Write_statement,
                    row_codec::row_of(request.filesystem_id, StateRecord::Lock(stored))->Lock_0,
                    row_codec::row_of(request.filesystem_id, StateRecord::Lock(stepped))->Lock_0,
                )
                &&& next > u64::MAX ==> refused_arithmetic(plan)
            }
            &&& !(records.dom().contains(key) && records[key] matches Some(StateRecord::Lock(_)))
                ==> refused_missing(plan, request, key)
        }),
{
    reveal(change_plan::planned);
}

/// A replaced wrapped key changes the wrapped key alone, and only where the
/// stored metadata has the context and the revision that the replacement
/// expects and holds a wrapped key already. Any other metadata is a conflict
/// about its revision, and metadata that is not there is refused.
pub proof fn law_rewrapped_keys_replace_the_expected_ones(
    request: CommitRequest,
    records: Records,
    rewrap: ContentMetadataRewrap<Seq<u8>>,
    stored: ContentMetadataRecord<Seq<u8>>,
    revision: u64,
    verdict: ChangeVerdict,
)
    requires
        stored.content_file_id == rewrap.content_file_id,
    ensures
        ({
            let plan = change_plan::planned(
                request,
                StateChange::RewrapContentMetadata(rewrap),
                records,
                revision,
                verdict,
            );
            let key = RecordKey::ContentMetadata(request.filesystem_id, rewrap.content_file_id);
            let expected = stored.context_id.value == rewrap.expected_context_id.value
                && stored.revision.value == rewrap.expected_revision.value
                && stored.wrapped_key_bytes is Some;
            let rewrapped = ContentMetadataRecord {
                wrapped_key_bytes: Some(rewrap.wrapped_key_bytes),
                revision: RecordRevision { value: revision },
                ..stored
            };
            &&& precondition_law::stands(records, key, StateRecord::ContentMetadata(stored)) ==> {
                &&& expected && verdict.rewrap is None ==> single_update(plan) && steps_metadata(
                    plan->Ok_0->Write_statement,
                    row_codec::row_of(
                        request.filesystem_id,
                        StateRecord::ContentMetadata(stored),
                    )->ContentMetadata_0,
                    row_codec::row_of(
                        request.filesystem_id,
                        StateRecord::ContentMetadata(rewrapped),
                    )->ContentMetadata_0,
                )
                &&& expected && verdict.rewrap is Some ==> refused(
                    plan,
                    CommitOutcome::MalformedRequest(
                        match verdict.rewrap->0 {
                            RewrapError::Limit(error) => MalformedCommit::Limit(error),
                            RewrapError::Invalid => MalformedCommit::InvalidContentMetadataRewrap,
                        },
                    ),
                )
                &&& !expected ==> {
                    &&& plan matches Ok(PlanView::Refuse(CommitOutcome::Conflict(conflict)))
                    &&& conflict.precondition_index == request.preconditions.len()
                    &&& conflict.kind == (CommitConflictKind::<Seq<u8>>::RecordRevision {
                        key,
                        expected: rewrap.expected_revision,
                        actual: stored.revision,
                    })
                }
            }
            &&& !(records.dom().contains(key) && records[key] matches Some(
                StateRecord::ContentMetadata(_),
            )) ==> refused_missing(plan, request, key)
        }),
{
    reveal(change_plan::planned);
}

/// A published attribute holds the staged bytes under the published inode and
/// name, at the allocated revision; it replaces an attribute that is there and
/// is inserted otherwise, and the staged record is deleted by its own identity.
pub proof fn law_published_attributes_hold_the_staged_bytes(
    request: CommitRequest,
    records: Records,
    publication: XattrPublication<Seq<u8>>,
    staged: XattrStagingRecord<Seq<u8>>,
    revision: u64,
    verdict: ChangeVerdict,
)
    ensures
        ({
            let filesystem_id = request.filesystem_id;
            let plan = change_plan::planned(
                request,
                StateChange::PublishXattrStaging(publication),
                records,
                revision,
                verdict,
            );
            let staging_key = RecordKey::XattrStaging(filesystem_id, publication.staging_id);
            let key = RecordKey::Xattr(filesystem_id, publication.inode_id, publication.name);
            let row = row_codec::row_of(
                filesystem_id,
                StateRecord::Xattr(
                    XattrRecord {
                        inode_id: publication.inode_id,
                        name: publication.name,
                        value: staged.bytes,
                        revision: RecordRevision { value: revision },
                    },
                ),
            );
            &&& precondition_law::stands(records, staging_key, StateRecord::XattrStaging(staged))
                ==> {
                &&& plan matches Ok(PlanView::Publish { delete, write })
                &&& delete.sql
                    == "DELETE FROM \"public\".\"w9pt_fs_state_xattr_staging\" WHERE \"filesystem_id\" = $1 AND \"staging_id\" = $2"@
                &&& delete.values == seq![
                    ValueView::Bytes(Some(crate::bytes::id_bytes(filesystem_id.value))),
                    ValueView::Bytes(Some(crate::bytes::id_bytes(publication.staging_id.value))),
                ]
                &&& records.dom().contains(key) && records[key] is Some
                    ==> record_write::row_replacement(row) == Some(write)
                &&& !(records.dom().contains(key) && records[key] is Some)
                    ==> record_write::row_insertion(row) == Some(write)
            }
            &&& !(records.dom().contains(staging_key) && records[staging_key] matches Some(
                StateRecord::XattrStaging(_),
            )) ==> refused(
                plan,
                CommitOutcome::MalformedRequest(MalformedCommit::InvalidXattrStaging),
            )
        }),
{
    reveal(change_plan::planned);
}

/// An insertion is planned only where nothing stands under the key, and else is
/// a conflict that names it. It must add exactly one row.
pub proof fn law_insertions_need_an_absent_record(
    request: CommitRequest,
    records: Records,
    key: RecordKey<Seq<u8>>,
    record: StateRecord<Seq<u8>, Seq<char>>,
    revision: u64,
    verdict: ChangeVerdict,
)
    ensures
        ({
            let plan = change_plan::planned(
                request,
                StateChange::Insert { key, record },
                records,
                revision,
                verdict,
            );
            let there = records.dom().contains(key) && records[key] is Some;
            &&& there ==> {
                &&& plan matches Ok(PlanView::Refuse(CommitOutcome::Conflict(conflict)))
                &&& conflict.precondition_index == request.preconditions.len()
                &&& conflict.kind == CommitConflictKind::<Seq<u8>>::RecordPresent(key)
            }
            &&& !there ==> !(plan matches Ok(PlanView::Refuse(_)))
            &&& !there && record_write::prepare_refusal(key, record) is None ==> {
                &&& plan matches Ok(PlanView::Write { statement, expect })
                &&& expect == WriteExpectation::Insert
                &&& record_write::row_insertion(record_write::written_row(key, record, revision))
                    == Some(statement)
            }
        }),
{
    reveal(change_plan::planned);
    if record_write::prepare_refusal(key, record) is None {
        lemma_written_statements(key, record, revision);
    }
}

proof fn lemma_written_statements(
    key: RecordKey<Seq<u8>>,
    record: StateRecord<Seq<u8>, Seq<char>>,
    revision: u64,
)
    requires
        record_write::prepare_refusal(key, record) is None,
    ensures
        record_write::row_insertion(record_write::written_row(key, record, revision)) is Some,
        record_write::row_replacement(record_write::written_row(key, record, revision)) is Some,
{
}

/// A stored regular file keeps its content file, its content and its context
/// through every replacement; only a publication changes them.
pub proof fn law_replacements_keep_content(
    request: CommitRequest,
    records: Records,
    key: RecordKey<Seq<u8>>,
    stored: InodeRecord<Seq<u8>, Seq<char>>,
    replacement: InodeRecord<Seq<u8>, Seq<char>>,
    revision: u64,
    verdict: ChangeVerdict,
)
    requires
        precondition_law::stands(records, key, StateRecord::Inode(stored)),
    ensures
        ({
            let plan = change_plan::planned(
                request,
                StateChange::Replace { key, record: StateRecord::Inode(replacement) },
                records,
                revision,
                verdict,
            );
            let kept = stored.content_context_id == replacement.content_context_id && match (
                stored.data,
                replacement.data,
            ) {
                (
                    InodeData::RegularFile { content_file_id: old_file, content: old, .. },
                    InodeData::RegularFile { content_file_id: new_file, content: new, .. },
                ) => old_file == new_file && old == new,
                (InodeData::RegularFile { .. }, _) => false,
                (_, InodeData::RegularFile { .. }) => false,
                _ => true,
            };
            &&& !kept ==> refused(
                plan,
                CommitOutcome::MalformedRequest(
                    MalformedCommit::ContentReplacementRequiresPreparedPublication,
                ),
            )
            &&& kept ==> !(plan matches Ok(PlanView::Refuse(_)))
            &&& kept && record_write::prepare_refusal(key, StateRecord::Inode(replacement)) is None
                ==> {
                &&& plan matches Ok(PlanView::Write { statement, expect })
                &&& expect == WriteExpectation::Point
                &&& record_write::row_replacement(
                    record_write::written_row(key, StateRecord::Inode(replacement), revision),
                ) == Some(statement)
            }
        }),
{
    reveal(change_plan::planned);
    if record_write::prepare_refusal(key, StateRecord::Inode(replacement)) is None {
        lemma_written_statements(key, StateRecord::Inode(replacement), revision);
    }
}

/// A written change that affected exactly one row is done. One that affected
/// none is a conflict about a missing record, except that an insertion then
/// failed inside the adapter. One that affected several is corruption, except
/// that a step of one record then reports it missing.
pub proof fn law_exactly_one_row_is_affected(
    request: CommitRequest,
    key: RecordKey<Seq<u8>>,
    expect: WriteExpectation,
    rows: u64,
)
    ensures
        ({
            let end = change_plan::concluded(request, key, expect, rows);
            &&& end == Ok::<Option<CommitOutcome<Seq<u8>>>, StateFailure>(None) <==> rows == 1
            &&& end is Err <==> {
                ||| expect == WriteExpectation::Insert && rows != 1
                ||| expect == WriteExpectation::Point && rows > 1
            }
            &&& end is Err && rows > 1 ==> end->Err_0.kind == AdapterFailureKind::Corruption
            &&& end is Err && rows == 0 ==> end->Err_0.kind == AdapterFailureKind::Internal
            &&& end matches Ok(Some(outcome)) ==> refused_missing(
                Ok(PlanView::Refuse(outcome)),
                request,
                key,
            )
        }),
{
}

} // verus!
