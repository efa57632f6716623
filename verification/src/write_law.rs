//! What is written is read back: laws over statements and rows.
use vstd::prelude::*;

use crate::bytes;
use crate::commit;
use crate::failure::StateStoreOperation;
use crate::ids::{FilesystemId, RecordRevision, StateRevision, WriterScopeId};
use crate::key;
use crate::key::RecordKey;
use crate::lease_staging;
use crate::lease_staging::{FenceRow, LockedFenceState};
use crate::limits::StateLimits;
use crate::numeric;
use crate::precondition;
use crate::precondition::MutationReplay;
use crate::publish;
use crate::record;
use crate::record::{
    ContentMetadataRecord, DirectoryEntryRecord, FilesystemRecord, InodeRecord, LockRecord,
    OpenPinRecord, OpenRecord, OrphanRecord, StateRecord, WriterLeaseRecord, XattrRecord,
    XattrStagingRecord,
};
use crate::record_write;
use crate::request::{CommitOutcome, CommitRequest, CommittedMutation};
use crate::row_codec;
use crate::row_law;
use crate::rows::{MutationRow, SqlStateRecord};
use crate::statement::ValueView;

verus! {

/// A public record at another revision.
pub open spec fn at_revision(record: StateRecord<Seq<u8>, Seq<char>>, revision: u64) -> StateRecord<
    Seq<u8>,
    Seq<char>,
> {
    let stamp = RecordRevision { value: revision };
    match record {
        StateRecord::Filesystem(r) => StateRecord::Filesystem(
            FilesystemRecord {
                revision: StateRevision { value: revision },
                record_revision: stamp,
                ..r
            },
        ),
        StateRecord::Inode(r) => StateRecord::Inode(InodeRecord { revision: stamp, ..r }),
        StateRecord::ContentMetadata(r) => StateRecord::ContentMetadata(
            ContentMetadataRecord { revision: stamp, ..r },
        ),
        StateRecord::DirectoryEntry(r) => StateRecord::DirectoryEntry(
            DirectoryEntryRecord { revision: stamp, ..r },
        ),
        StateRecord::Open(r) => StateRecord::Open(OpenRecord { revision: stamp, ..r }),
        StateRecord::OpenPin(r) => StateRecord::OpenPin(OpenPinRecord { revision: stamp, ..r }),
        StateRecord::Orphan(r) => StateRecord::Orphan(OrphanRecord { revision: stamp, ..r }),
        StateRecord::Lock(r) => StateRecord::Lock(LockRecord { revision: stamp, ..r }),
        StateRecord::Xattr(r) => StateRecord::Xattr(XattrRecord { revision: stamp, ..r }),
        StateRecord::XattrStaging(r) => StateRecord::XattrStaging(
            XattrStagingRecord { revision: stamp, ..r },
        ),
        other => other,
    }
}

/// Reading the row that a public record is written as gives back the record
/// under its key, at the revision that was allocated to it.
pub proof fn law_written_records_are_read_back(
    key: RecordKey<Seq<u8>>,
    record: StateRecord<Seq<u8>, Seq<char>>,
    revision: u64,
    limits: StateLimits,
)
    requires
        record_write::prepare_refusal(key, record) is None,
        row_law::record_valid(record, limits),
        revision != 0,
    ensures
        ({
            let row = record_write::written_row(key, record, revision);
            &&& row_codec::row_failure(row, limits) is None
            &&& row_codec::row_key(row) == key
            &&& row_codec::row_record(row) == at_revision(record, revision)
        }),
{
    let filesystem_id = key::key_filesystem(key);
    let stamped = at_revision(record, revision);
    assert(record::record_key(filesystem_id, record) == key);
    assert(record::record_key(filesystem_id, stamped) == key);
    assert(row_law::record_valid(stamped, limits));
    row_law::law_encode_then_decode(filesystem_id, stamped, limits);
    assert(record_write::stamped(row_codec::row_of(filesystem_id, record), revision) == Some(
        row_codec::row_of(filesystem_id, stamped),
    ));
}

/// The ledger row of a request that is committed at a revision.
pub open spec fn ledger_row(request: CommitRequest, revision: u64) -> MutationRow<
    Seq<u8>,
    Seq<char>,
> {
    record_write::stamped_mutation(
        row_codec::row_of(
            request.filesystem_id,
            StateRecord::Mutation(publish::ledger_record(request, revision)),
        )->Mutation_0,
        revision,
    )
}

/// A commit recovers exactly: the row that its ledger statement writes stands
/// under the key of the mutation, and answers a replay with the revision and
/// the result of the commit.
pub proof fn law_committed_mutations_replay(
    request: CommitRequest,
    revision: u64,
    limits: StateLimits,
)
    requires
        row_law::record_valid(
            StateRecord::Mutation(publish::ledger_record(request, revision)),
            limits,
        ),
    ensures
        ({
            let row = SqlStateRecord::Mutation(ledger_row(request, revision));
            &&& commit::ledger_statement(request, revision).values
                == record_write::mutation_values(ledger_row(request, revision))
            &&& row_codec::row_failure(row, limits) is None
            &&& row_codec::row_key(row) == request.ledger_key()
            &&& precondition::ledger_answer(row_codec::row_record(row), MutationReplay::Exact)
                == Ok::<CommitOutcome<Seq<u8>>, crate::failure::StateFailure>(
                CommitOutcome::AlreadyCommitted(
                    CommittedMutation {
                        revision: StateRevision { value: revision },
                        result: request.terminal_result@,
                    },
                ),
            )
        }),
{
    let record = StateRecord::Mutation(publish::ledger_record(request, revision));
    row_law::law_encode_then_decode(request.filesystem_id, record, limits);
    assert(row_codec::row_of(request.filesystem_id, record) == SqlStateRecord::Mutation(
        ledger_row(request, revision),
    ));
}

/// A fence row holds the columns that a grant binds.
pub open spec fn holds_grant(row: FenceRow, values: Seq<ValueView>) -> bool {
    &&& values[2] == ValueView::Text(Some(row.greatest_fencing_token@))
    &&& values[3] == ValueView::Bytes(bytes::optional_bytes(row.active_holder_id))
    &&& values[4] == ValueView::Bytes(bytes::optional_bytes(row.active_lease_id))
    &&& values[5] == ValueView::Text(bytes::optional_text(row.active_deadline_tick))
    &&& values[6] == ValueView::Text(bytes::optional_text(row.active_record_revision))
}

/// A fence row holds the columns that a renewal binds.
pub open spec fn holds_renewal(row: FenceRow, values: Seq<ValueView>) -> bool {
    &&& values[2] == ValueView::Bytes(bytes::optional_bytes(row.active_holder_id))
    &&& values[3] == ValueView::Bytes(bytes::optional_bytes(row.active_lease_id))
    &&& values[4] == ValueView::Text(bytes::optional_text(row.active_deadline_tick))
    &&& values[5] == ValueView::Text(bytes::optional_text(row.active_record_revision))
}

proof fn lemma_active_fence(
    record: WriterLeaseRecord,
    row: FenceRow,
    limits: StateLimits,
    operation: StateStoreOperation,
)
    requires
        record.fencing_token.valid(),
        record.revision.valid(),
        row.greatest_fencing_token@ == numeric::decimal(record.fencing_token.value as nat),
        bytes::optional_bytes(row.active_holder_id) == Some(bytes::id_bytes(record.holder.value)),
        bytes::optional_bytes(row.active_lease_id) == Some(bytes::id_bytes(record.lease_id.value)),
        bytes::optional_text(row.active_deadline_tick) == Some(
            numeric::decimal(record.deadline.value as nat),
        ),
        bytes::optional_text(row.active_record_revision) == Some(
            numeric::decimal(record.revision.value as nat),
        ),
    ensures
        lease_staging::fence_failure(
            record.filesystem_id,
            record.scope,
            row,
            limits,
            operation,
        ) is None,
        lease_staging::fence_state(record.filesystem_id, record.scope, Some(row)) == (
        LockedFenceState { greatest: Some(record.fencing_token), current: Some(record) }),
{
    let state = StateRecord::<Seq<u8>, Seq<char>>::WriterLease(record);
    numeric::law_decimal_round_trip(record.fencing_token.value);
    row_law::law_encode_then_decode(record.filesystem_id, state, limits);
    assert(row_codec::row_of(record.filesystem_id, state) == SqlStateRecord::WriterLease(
        lease_staging::active_row(record.filesystem_id, record.scope, row)->0,
    ));
}

/// A granted lease is read back: the fence row that a grant writes holds the
/// lease, and its token is the greatest one.
pub proof fn law_granted_fences_are_read_back(
    record: WriterLeaseRecord,
    row: FenceRow,
    limits: StateLimits,
    operation: StateStoreOperation,
)
    requires
        record.fencing_token.valid(),
        record.revision.valid(),
        holds_grant(row, lease_staging::write_fence(record).values),
    ensures
        lease_staging::fence_failure(
            record.filesystem_id,
            record.scope,
            row,
            limits,
            operation,
        ) is None,
        lease_staging::fence_state(record.filesystem_id, record.scope, Some(row)) == (
        LockedFenceState { greatest: Some(record.fencing_token), current: Some(record) }),
{
    lemma_active_fence(record, row, limits, operation);
}

/// A renewed lease is read back with the token that it had: a renewal writes
/// every column of a fence but the token.
pub proof fn law_renewed_fences_keep_their_token(
    record: WriterLeaseRecord,
    before: FenceRow,
    after: FenceRow,
    limits: StateLimits,
    operation: StateStoreOperation,
)
    requires
        record.fencing_token.valid(),
        record.revision.valid(),
        lease_staging::fence_failure(
            record.filesystem_id,
            record.scope,
            before,
            limits,
            operation,
        ) is None,
        lease_staging::fence_state(record.filesystem_id, record.scope, Some(before)).greatest
            == Some(record.fencing_token),
        after.greatest_fencing_token@ == before.greatest_fencing_token@,
        holds_renewal(after, lease_staging::renew_fence(record).values),
    ensures
        lease_staging::fence_failure(
            record.filesystem_id,
            record.scope,
            after,
            limits,
            operation,
        ) is None,
        lease_staging::fence_state(record.filesystem_id, record.scope, Some(after)) == (
        LockedFenceState { greatest: Some(record.fencing_token), current: Some(record) }),
{
    numeric::law_decimal_canonical(before.greatest_fencing_token@);
    lemma_active_fence(record, after, limits, operation);
}

/// A released fence keeps its greatest token and has no lease: a release
/// clears every column of a fence but the token.
pub proof fn law_released_fences_keep_their_token(
    filesystem_id: FilesystemId,
    scope: WriterScopeId,
    before: FenceRow,
    after: FenceRow,
    limits: StateLimits,
    operation: StateStoreOperation,
)
    requires
        lease_staging::fence_failure(filesystem_id, scope, before, limits, operation) is None,
        after.greatest_fencing_token@ == before.greatest_fencing_token@,
        lease_staging::inactive(after),
    ensures
        lease_staging::fence_failure(filesystem_id, scope, after, limits, operation) is None,
        lease_staging::fence_state(filesystem_id, scope, Some(after)) == (LockedFenceState {
            greatest: lease_staging::fence_state(filesystem_id, scope, Some(before)).greatest,
            current: None,
        }),
{
}

} // verus!
