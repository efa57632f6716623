//! Publication of a commit: the authority head, the change log and the ledger.
use vstd::prelude::*;

use crate::failure::{AdapterFailureKind, FailureCause, PostgresStateError, StateFailure};
use crate::ids::{FilesystemId, InvalidValue, RecordRevision, StateRevision, WriterScopeId};
use crate::key;
use crate::key::{insert_sorted, RecordKey};
use crate::key_codec;
use crate::key_codec::{canonical_affected_keys, SqlRecordKey};
use crate::numeric;
use crate::precondition;
use crate::precondition::{corruption, decode_number, internal};
use crate::record::MutationRecord;
use crate::request::{mutation_key, CommitRequest, MalformedCommit};
use crate::statement;
use crate::statement::{query, PostgresQuery, SqlValue, StatementView, ValueView};

verus! {

/// Tag of changes that a mutation made.
pub const MUTATION_ORIGIN_TAG: i16 = 1;

/// Text that creates a missing authority head.
pub const ENSURE_HEAD_SQL: &'static str =
    "INSERT INTO \"public\".\"w9pt_fs_state_authority_heads\" (\"filesystem_id\", \"current_revision\", \"oldest_retained_revision\") VALUES ($1, 1, 1) ON CONFLICT (\"filesystem_id\") DO NOTHING";

/// Text that locks and reads the authority head.
pub const LOCK_HEAD_SQL: &'static str =
    "SELECT \"current_revision\"::text FROM \"public\".\"w9pt_fs_state_authority_heads\" WHERE \"filesystem_id\" = $1 FOR UPDATE";

/// Text that locks a writer fence.
pub const LOCK_FENCE_SQL: &'static str =
    "SELECT 1 FROM \"public\".\"w9pt_fs_state_writer_fences\" WHERE \"filesystem_id\" = $1 AND \"writer_scope_id\" = $2 FOR UPDATE";

/// Text that logs a change.
pub const INSERT_COMMIT_SQL: &'static str =
    "INSERT INTO \"public\".\"w9pt_fs_state_change_commits\" (\"filesystem_id\", \"revision\", \"origin_kind\", \"origin_id\", \"key_count\") VALUES ($1, $2::numeric, $3, $4, $5)";

/// Text that logs one key of a change.
pub const INSERT_KEY_SQL: &'static str =
    "INSERT INTO \"public\".\"w9pt_fs_state_change_keys\" (\"filesystem_id\", \"revision\", \"ordinal\", \"family_tag\", \"component_a\", \"component_b\") VALUES ($1, $2::numeric, $3, $4, $5, $6)";

/// Text that drops the keys of changes that are no longer retained.
pub const DROP_KEYS_SQL: &'static str =
    "DELETE FROM \"public\".\"w9pt_fs_state_change_keys\" WHERE \"filesystem_id\" = $1 AND \"revision\" <= $2::numeric";

/// Text that drops changes that are no longer retained.
pub const DROP_COMMITS_SQL: &'static str =
    "DELETE FROM \"public\".\"w9pt_fs_state_change_commits\" WHERE \"filesystem_id\" = $1 AND \"revision\" <= $2::numeric";

/// Text that advances the authority head.
pub const ADVANCE_HEAD_SQL: &'static str =
    "UPDATE \"public\".\"w9pt_fs_state_authority_heads\" SET \"current_revision\" = $2::numeric, \"oldest_retained_revision\" = GREATEST(\"oldest_retained_revision\", $3::numeric) WHERE \"filesystem_id\" = $1";

/// Statements as contracts speak of them.
pub open spec fn statement_views(statements: Seq<PostgresQuery>) -> Seq<StatementView> {
    statements.map_values(|statement: PostgresQuery| statement@)
}

/// The statement that creates a missing authority head.
pub open spec fn ensure_head(filesystem_id: FilesystemId) -> StatementView {
    statement::text_only(ENSURE_HEAD_SQL@).with_id(filesystem_id.value)
}

/// The statement that creates a missing authority head.
pub fn ensure_head_statement(filesystem_id: FilesystemId) -> (result: PostgresQuery)
    ensures
        result@ == ensure_head(filesystem_id),
{
    query(ENSURE_HEAD_SQL).bind_id(filesystem_id.value)
}

/// The statement that locks and reads the authority head.
pub open spec fn lock_head(filesystem_id: FilesystemId) -> StatementView {
    statement::text_only(LOCK_HEAD_SQL@).with_id(filesystem_id.value)
}

/// The statement that locks and reads the authority head.
pub fn lock_head_statement(filesystem_id: FilesystemId) -> (result: PostgresQuery)
    ensures
        result@ == lock_head(filesystem_id),
{
    query(LOCK_HEAD_SQL).bind_id(filesystem_id.value)
}

/// The statement that locks a writer fence.
pub open spec fn lock_fence(filesystem_id: FilesystemId, scope: WriterScopeId) -> StatementView {
    statement::text_only(LOCK_FENCE_SQL@).with_id(filesystem_id.value).with_id(scope.value)
}

/// The statement that locks a writer fence.
pub fn lock_fence_statement(filesystem_id: FilesystemId, scope: WriterScopeId) -> (result: PostgresQuery)
    ensures
        result@ == lock_fence(filesystem_id, scope),
{
    query(LOCK_FENCE_SQL).bind_id(filesystem_id.value).bind_id(scope.value)
}

/// The failure of a persisted revision.
pub open spec fn revision_failure(field: &'static str, text: Seq<char>) -> Option<StateFailure> {
    if !numeric::parses(text) {
        Some(precondition::number_corruption(field, text))
    } else if numeric::parsed(text) == 0 {
        Some(
            precondition::commit_failure(
                AdapterFailureKind::Corruption,
                "",
                FailureCause::Value(InvalidValue::Zero),
            ),
        )
    } else {
        None
    }
}

/// Reads a persisted revision, which is never zero.
pub fn decode_revision(field: &'static str, text: &String) -> (result: Result<
    StateRevision,
    PostgresStateError,
>)
    ensures
        match result {
            Ok(revision) => revision_failure(field, text@) is None && revision.value
                == numeric::parsed(text@) && revision.valid(),
            Err(error) => revision_failure(field, text@) == Some(error@),
        },
{
    let value: u64 = decode_number(field, text)?;
    if value == 0 {
        return Err(
            corruption("", FailureCause::Value(InvalidValue::Zero)),
        );
    }
    Ok(StateRevision { value })
}

/// The oldest revision whose change stays in the log.
pub open spec fn oldest_retained(revision: u64, maximum: u32) -> u64 {
    if revision > maximum + 1 {
        (revision - maximum) as u64
    } else {
        1
    }
}

/// The cursor behind which exactly the configured number of changes stays.
pub fn retained_change_cursor(current: StateRevision, maximum_events: u32) -> (result: u64)
    ensures
        result == oldest_retained(current.value, maximum_events),
{
    let maximum: u64 = maximum_events as u64;
    if current.value <= maximum + 1 {
        1
    } else {
        current.value - maximum
    }
}

/// The log keeps the newest changes, up to the limit and never more: a change
/// stays exactly if fewer than that many follow it.
pub proof fn law_log_keeps_the_newest_changes(current: u64, maximum: u32, revision: u64)
    requires
        1 < revision <= current,
    ensures
        revision > oldest_retained(current, maximum) <==> current - revision < maximum,
{
}

/// Every record that a request changes, and its ledger record.
pub open spec fn announced(request: CommitRequest, k: RecordKey<Seq<u8>>) -> bool {
    k == request.ledger_key() || key_codec::touched_before(
        request.filesystem_id,
        request.change_seq(),
        request.change_seq().len() as int,
        k,
    )
}

/// Keys are those that the change of a commit announces, in key order, each
/// once.
pub open spec fn announces(request: CommitRequest, keys: Seq<RecordKey<Seq<u8>>>) -> bool {
    &&& key::strictly_sorted(keys)
    &&& forall|k: RecordKey<Seq<u8>>| #[trigger] keys.contains(k) <==> announced(request, k)
}

/// A change touches the ledger record itself.
pub open spec fn touches_ledger(request: CommitRequest) -> bool {
    key_codec::touched_before(
        request.filesystem_id,
        request.change_seq(),
        request.change_seq().len() as int,
        request.ledger_key(),
    )
}

/// The failure of changes that target one record twice.
pub open spec fn twice_failure(target: RecordKey<Seq<u8>>) -> StateFailure {
    precondition::commit_failure(
        AdapterFailureKind::Internal,
        "",
        FailureCause::Malformed(MalformedCommit::DuplicateChangeTarget(target)),
    )
}

/// The failure of a change that touches the ledger record.
pub open spec fn ledger_failure() -> StateFailure {
    precondition::commit_failure(
        AdapterFailureKind::Internal,
        "mutation ledger key duplicates a caller change",
        FailureCause::Plain,
    )
}

/// The failure of a change with more keys than the log can number.
pub open spec fn count_failure() -> StateFailure {
    precondition::commit_failure(
        AdapterFailureKind::Internal,
        "change key count does not fit i32",
        FailureCause::Plain,
    )
}

/// The keys that the change of a commit announces, in key order, each once.
pub fn changed_keys(request: &CommitRequest) -> (result: Result<Vec<RecordKey>, PostgresStateError>)
    ensures
        match result {
            Ok(keys) => {
                &&& key_codec::targets_once(request.filesystem_id, request.change_seq())
                &&& !touches_ledger(*request)
                &&& announces(*request, key::key_views(keys@))
            },
            Err(error) => if key_codec::targets_once(
                request.filesystem_id,
                request.change_seq(),
            ) {
                touches_ledger(*request) && error@ == ledger_failure()
            } else {
                exists|i: int, target: RecordKey<Seq<u8>>| #[trigger]
                    key_codec::first_duplicate(
                        request.filesystem_id,
                        request.change_seq(),
                        i,
                        target,
                    ) && error@ == twice_failure(target)
            },
        },
{
    let mut keys = match canonical_affected_keys(request.filesystem_id, &request.changes) {
        Ok(keys) => keys,
        Err(error) => {
            return Err(
                internal("", FailureCause::Malformed(error)),
            );
        },
    };
    let ghost before = key::key_views(keys@);
    let ledger = mutation_key(request);
    if !insert_sorted(&mut keys, ledger) {
        return Err(
            internal("mutation ledger key duplicates a caller change", FailureCause::Plain),
        );
    }
    proof {
        let after = key::key_views(keys@);
        assert forall|k: RecordKey<Seq<u8>>| #[trigger] after.contains(k) <==> announced(
            *request,
            k,
        ) by {
            assert(after.to_set().contains(k) == after.contains(k));
            assert(before.to_set().contains(k) == before.contains(k));
        }
    }
    Ok(keys)
}

/// A component as a nullable column.
pub open spec fn component_value(component: Seq<u8>) -> ValueView {
    if component.len() == 0 {
        SqlValue::Bytes(None)
    } else {
        SqlValue::Bytes(Some(component))
    }
}

/// The statement that logs one key of a change.
pub open spec fn key_statement(
    filesystem_id: FilesystemId,
    revision: u64,
    ordinal: int,
    k: RecordKey<Seq<u8>>,
) -> StatementView {
    statement::text_only(INSERT_KEY_SQL@).with_id(filesystem_id.value).with_number(revision).with(
        SqlValue::Int4(Some(ordinal as i32)),
    ).with(SqlValue::Int2(Some(key::family_tag(k)))).with(
        component_value(key::component_a(k)),
    ).with(component_value(key::component_b(k)))
}

/// The statement that logs a change with its number of keys.
pub open spec fn commit_statement(request: CommitRequest, revision: u64, count: int) -> StatementView {
    statement::text_only(INSERT_COMMIT_SQL@).with_id(request.filesystem_id.value).with_number(
        revision,
    ).with(SqlValue::Int2(Some(MUTATION_ORIGIN_TAG))).with_id(
        request.mutation.mutation_id.value,
    ).with(SqlValue::Int4(Some(count as i32)))
}

/// A statement about one filesystem and one revision.
pub open spec fn revision_statement(
    sql: &'static str,
    filesystem_id: FilesystemId,
    revision: u64,
) -> StatementView {
    statement::text_only(sql@).with_id(filesystem_id.value).with_number(revision)
}

/// The statement that advances the authority head.
pub open spec fn head_statement(
    filesystem_id: FilesystemId,
    revision: u64,
    oldest: u64,
) -> StatementView {
    revision_statement(ADVANCE_HEAD_SQL, filesystem_id, revision).with_number(oldest)
}

/// The statements that publish a change, in order: log the change and its
/// keys, drop what is no longer retained, advance the head.
pub open spec fn publication(
    request: CommitRequest,
    revision: u64,
    keys: Seq<RecordKey<Seq<u8>>>,
    maximum: u32,
) -> Seq<StatementView> {
    let fs = request.filesystem_id;
    let oldest = oldest_retained(revision, maximum);
    seq![commit_statement(request, revision, keys.len() as int)] + Seq::new(
        keys.len(),
        |i: int| key_statement(fs, revision, i, keys[i]),
    ) + seq![
        revision_statement(DROP_KEYS_SQL, fs, oldest),
        revision_statement(DROP_COMMITS_SQL, fs, oldest),
        head_statement(fs, revision, oldest),
    ]
}

fn component(value: Option<&Vec<u8>>) -> (result: SqlValue)
    ensures
        result@ == (match value {
            Some(bytes) => ValueView::Bytes(Some(bytes@)),
            None => SqlValue::Bytes(None),
        }),
{
    match value {
        Some(bytes) => SqlValue::Bytes(Some(crate::bytes::copy_bytes(bytes))),
        None => SqlValue::Bytes(None),
    }
}

/// The statements that publish a change, or the failure of one with more keys
/// than the log can number.
pub fn publish_change(
    request: &CommitRequest,
    revision: StateRevision,
    keys: &Vec<RecordKey>,
    history_limit: u32,
) -> (result: Result<Vec<PostgresQuery>, PostgresStateError>)
    ensures
        match result {
            Ok(statements) => keys@.len() <= i32::MAX && statement_views(statements@)
                == publication(*request, revision.value, key::key_views(keys@), history_limit),
            Err(error) => keys@.len() > i32::MAX && error@ == count_failure(),
        },
{
    if keys.len() > i32::MAX as usize {
        return Err(internal("change key count does not fit i32", FailureCause::Plain));
    }
    let fs = request.filesystem_id;
    let ghost views = key::key_views(keys@);
    let ghost first = commit_statement(*request, revision.value, views.len() as int);
    let mut statements: Vec<PostgresQuery> = Vec::new();
    statements.push(
        query(INSERT_COMMIT_SQL).bind_id(fs.value).bind_number(revision.value).bind(
            SqlValue::Int2(Some(MUTATION_ORIGIN_TAG)),
        ).bind_id(request.mutation.mutation_id.value).bind(
            SqlValue::Int4(Some(keys.len() as i32)),
        ),
    );
    let mut ordinal: usize = 0;
    assert(statement_views(statements@) =~= seq![first]);
    while ordinal < keys.len()
        invariant
            ordinal <= keys@.len(),
            keys@.len() <= i32::MAX,
            views == key::key_views(keys@),
            fs == request.filesystem_id,
            statement_views(statements@) == seq![first] + Seq::new(
                ordinal as nat,
                |i: int| key_statement(fs, revision.value, i, views[i]),
            ),
        decreases keys@.len() - ordinal,
    {
        let ghost before = statement_views(statements@);
        let encoded = SqlRecordKey::encode(&keys[ordinal]);
        let statement = query(INSERT_KEY_SQL).bind_id(fs.value).bind_number(revision.value).bind(
            SqlValue::Int4(Some(ordinal as i32)),
        ).bind(SqlValue::Int2(Some(encoded.family_tag))).bind(
            component(encoded.sql_component_a()),
        ).bind(component(encoded.sql_component_b()));
        assert(views[ordinal as int] == keys@[ordinal as int]@);
        assert(statement@ == key_statement(fs, revision.value, ordinal as int, views[ordinal as int]));
        let ghost added = statement@;
        statements.push(statement);
        proof {
            assert(statement_views(statements@) =~= before.push(added));
            assert(before.push(added) =~= seq![first] + Seq::new(
                (ordinal + 1) as nat,
                |i: int| key_statement(fs, revision.value, i, views[i]),
            ));
        }
        ordinal = ordinal + 1;
    }
    let oldest: u64 = retained_change_cursor(revision, history_limit);
    let ghost middle = statement_views(statements@);
    statements.push(query(DROP_KEYS_SQL).bind_id(fs.value).bind_number(oldest));
    statements.push(query(DROP_COMMITS_SQL).bind_id(fs.value).bind_number(oldest));
    statements.push(
        query(ADVANCE_HEAD_SQL).bind_id(fs.value).bind_number(revision.value).bind_number(oldest),
    );
    proof {
        assert(statement_views(statements@) =~= middle + seq![
            revision_statement(DROP_KEYS_SQL, fs, oldest),
            revision_statement(DROP_COMMITS_SQL, fs, oldest),
            head_statement(fs, revision.value, oldest),
        ]);
    }
    Ok(statements)
}

/// The ledger record of a request that is committed at a revision.
pub open spec fn ledger_record(request: CommitRequest, revision: u64) -> MutationRecord<Seq<u8>> {
    MutationRecord {
        filesystem_id: request.filesystem_id,
        mutation_id: request.mutation.mutation_id,
        fingerprint: request.mutation.fingerprint,
        client_incarnation: request.mutation.client_incarnation,
        writer_scope: request.fence.scope,
        writer_incarnation: request.fence.holder,
        fencing_token: request.fence.fencing_token,
        result: request.terminal_result@,
        committed_revision: StateRevision { value: revision },
        retention: request.mutation.retention,
        revision: RecordRevision { value: revision },
    }
}

/// The ledger record of a request that is committed at a revision.
pub fn terminal_record(request: &CommitRequest, revision: StateRevision) -> (result: MutationRecord)
    ensures
        result@ == ledger_record(*request, revision.value),
{
    MutationRecord {
        filesystem_id: request.filesystem_id,
        mutation_id: request.mutation.mutation_id,
        fingerprint: request.mutation.fingerprint,
        client_incarnation: request.mutation.client_incarnation,
        writer_scope: request.fence.scope,
        writer_incarnation: request.fence.holder,
        fencing_token: request.fence.fencing_token,
        result: request.terminal_result.copied(),
        committed_revision: revision,
        retention: request.mutation.retention,
        revision: RecordRevision { value: revision.value },
    }
}

} // verus!
