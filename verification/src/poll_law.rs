//! What a poll gives back of the changes that were logged.
use vstd::prelude::*;

use crate::bytes;
use crate::change;
use crate::change::{
    ChangeHeader, ChangeKeyRow, ChangeOrigin, ChangePoll, ChangePollOutcome, HeaderSelection,
    KeyColumns,
};
use crate::failure::PostgresStateError;
use crate::ids::{FilesystemId, LeaseOperationId, MutationId, StateRevision};
use crate::key;
use crate::key::RecordKey;
use crate::key_codec;
use crate::lease::LeaseRequest;
use crate::limits::StateLimits;
use crate::log_law;
use crate::log_law::{LoggedChange, LoggedKey};
use crate::numeric;
use crate::poll;
use crate::poll::{HeadColumns, HeaderColumns, PollAction, PollPhase, PollRun};
use crate::request::CommitRequest;
use crate::statement::ValueView;

verus! {

/// The columns of a header were read from a logged change.
pub open spec fn reads_change(row: HeaderColumns, logged: LoggedChange) -> bool {
    &&& row.revision@ == numeric::decimal(logged.revision as nat)
    &&& row.origin_kind == logged.origin
    &&& row.origin_id@ == logged.origin_id
    &&& row.key_count == logged.keys
}

/// A commit that was logged is polled as a change of its own revision, made by
/// its own mutation, with the number of its keys.
pub proof fn law_logged_commits_are_polled(
    request: CommitRequest,
    revision: u64,
    keys: int,
    row: HeaderColumns,
)
    requires
        0 < keys <= i32::MAX,
        revision > 0,
        reads_change(row, log_law::commit_change(request, revision as int, keys)),
    ensures
        change::header_detail(row.revision@, row.origin_kind, row.origin_id@, row.key_count)
            is None,
        change::header_of(row.revision@, row.origin_kind, row.origin_id@, row.key_count) == (
        ChangeHeader {
            revision: StateRevision { value: revision },
            origin: ChangeOrigin::Mutation(
                MutationId { value: request.mutation.mutation_id.value },
            ),
            key_count: keys as u32,
        }),
{
    numeric::law_decimal_round_trip(revision);
    bytes::lemma_id_round_trip(request.mutation.mutation_id.value);
}

/// A lease operation that was logged is polled as a change of its own revision,
/// made by itself, with one key.
pub proof fn law_logged_lease_operations_are_polled(
    request: LeaseRequest,
    revision: u64,
    maximum: int,
    row: HeaderColumns,
)
    requires
        revision > 0,
        reads_change(row, log_law::lease_effects(request, revision as int, maximum)[1]->AddChange_0),
    ensures
        change::header_detail(row.revision@, row.origin_kind, row.origin_id@, row.key_count)
            is None,
        change::header_of(row.revision@, row.origin_kind, row.origin_id@, row.key_count) == (
        ChangeHeader {
            revision: StateRevision { value: revision },
            origin: ChangeOrigin::Lease(
                LeaseOperationId { value: log_law::lease_names(request).1 },
            ),
            key_count: 1,
        }),
{
    numeric::law_decimal_round_trip(revision);
    bytes::lemma_id_round_trip(log_law::lease_names(request).1);
}

/// The columns of a key were read from a logged key.
pub open spec fn reads_key(row: KeyColumns, logged: LoggedKey) -> bool {
    &&& row.revision@ == numeric::decimal(logged.revision as nat)
    &&& row.ordinal == logged.ordinal
    &&& row.family_tag == logged.family
    &&& bytes::optional_bytes(row.component_a) == logged.first
    &&& bytes::optional_bytes(row.component_b) == logged.second
}

/// A logged key is polled as the key of the very record that it names, under
/// its own revision and position. Keys of content metadata are left out: the
/// log does not know their family when it is read.
pub proof fn law_logged_keys_are_polled(
    filesystem_id: FilesystemId,
    logged: LoggedKey,
    named: RecordKey<Seq<u8>>,
    row: KeyColumns,
    limits: StateLimits,
)
    requires
        reads_key(row, logged),
        0 < logged.revision <= u64::MAX,
        0 <= logged.ordinal <= i32::MAX,
        log_law::names(logged, named),
        key::key_filesystem(named) == filesystem_id,
        key_codec::key_valid(named, limits),
        !(named is ContentMetadata),
    ensures
        change::key_row_detail(filesystem_id, row, limits) is None,
        change::key_row_of(filesystem_id, row) == (ChangeKeyRow::<Seq<u8>> {
            revision: StateRevision { value: logged.revision as u64 },
            ordinal: logged.ordinal as u32,
            key: named,
        }),
{
    numeric::law_decimal_round_trip(logged.revision as u64);
    match named {
        RecordKey::Filesystem(_) => {},
        RecordKey::Inode(_, id) => {
            bytes::lemma_id_round_trip(id.value);
        },
        RecordKey::DirectoryEntry(_, parent, name) => {
            bytes::lemma_id_round_trip(parent.value);
            assert(change::component(row.component_b) =~= name.bytes);
        },
        RecordKey::Open(_, id) => {
            bytes::lemma_id_round_trip(id.value);
        },
        RecordKey::OpenPin(_, inode_id, open_id) => {
            bytes::lemma_id_round_trip(inode_id.value);
            bytes::lemma_id_round_trip(open_id.value);
        },
        RecordKey::Orphan(_, id) => {
            bytes::lemma_id_round_trip(id.value);
        },
        RecordKey::Lock(_, inode_id, lock_id) => {
            bytes::lemma_id_round_trip(inode_id.value);
            bytes::lemma_id_round_trip(lock_id.value);
        },
        RecordKey::Xattr(_, inode_id, name) => {
            bytes::lemma_id_round_trip(inode_id.value);
            assert(change::component(row.component_b) =~= name.bytes);
        },
        RecordKey::XattrStaging(_, id) => {
            bytes::lemma_id_round_trip(id.value);
        },
        RecordKey::Mutation(_, id) => {
            bytes::lemma_id_round_trip(id.value);
        },
        RecordKey::WriterLease(_, scope) => {
            bytes::lemma_id_round_trip(scope.value);
        },
        RecordKey::ContentMetadata(_, _) => {},
    }
}

/// A position is answered from the log exactly where the authority has reached
/// it and still retains every change that follows it. A position ahead of the
/// authority is unavailable, and one whose next change may be gone is
/// compacted; both answers name the position of the authority.
pub proof fn law_positions_are_answered_where_the_log_is_whole(
    request: ChangePoll,
    current: StateRevision,
    oldest: StateRevision,
)
    requires
        oldest.value <= current.value,
    ensures
        ({
            let after = request.after.revision.value;
            let answer = poll::position_answer(request, current, oldest);
            let whole = forall|revision: int|
                after < revision <= current.value ==> #[trigger] retained(revision, oldest);
            &&& answer is None <==> after <= current.value && whole
            &&& after > current.value ==> answer == Some(
                ChangePollOutcome::RevisionUnavailable {
                    requested: request.after.revision,
                    current,
                },
            )
            &&& after <= current.value && !whole ==> answer == Some(
                ChangePollOutcome::RevisionCompacted {
                    oldest_available: oldest,
                    current_revision: current,
                },
            )
        }),
{
    let after = request.after.revision.value;
    if after < oldest.value {
        assert(!retained(after + 1, oldest));
    }
}

/// A revision lies above the oldest position that a head retains.
pub open spec fn retained(revision: int, oldest: StateRevision) -> bool {
    revision > oldest.value
}

/// Keys of the first headers together.
pub open spec fn key_weight(headers: Seq<ChangeHeader>, count: int) -> int
    decreases count,
{
    if count <= 0 {
        0
    } else {
        key_weight(headers, count - 1) + headers[count - 1].key_count
    }
}

proof fn lemma_key_weight(headers: Seq<ChangeHeader>, count: int)
    ensures
        key_weight(headers, count) == change::key_total(headers, count),
    decreases count,
{
    if count > 0 {
        lemma_key_weight(headers, count - 1);
    }
}

proof fn lemma_run(headers: Seq<ChangeHeader>, max_keys: u32, from: int)
    requires
        0 <= from <= headers.len(),
        from == 0 || change::key_total(headers, from) <= max_keys,
    ensures
        from <= change::run_length(headers, max_keys, from) <= headers.len(),
        change::key_total(headers, change::run_length(headers, max_keys, from)) <= max_keys,
        change::run_length(headers, max_keys, from) < headers.len() ==> change::key_total(
            headers,
            change::run_length(headers, max_keys, from) + 1,
        ) > max_keys,
    decreases headers.len() - from,
{
    if from < headers.len() && change::key_total(headers, from + 1) <= max_keys {
        lemma_run(headers, max_keys, from + 1);
    }
}

/// A poll selects the longest run of changes from the first one on whose keys
/// it takes. It selects less than all of them only because the next change has
/// too many keys, and says so where that is the first one. Where it takes all
/// of them it has reached the current revision or its number of events.
pub proof fn law_polls_take_the_longest_run(
    request: ChangePoll,
    current: StateRevision,
    headers: Seq<ChangeHeader>,
)
    requires
        change::header_selection(request, current, headers) is Ok,
    ensures
        headers.len() <= request.max_events,
        match change::header_selection(request, current, headers)->Ok_0 {
            HeaderSelection::Selected(selected) => {
                let n = selected.len() as int;
                &&& n <= headers.len()
                &&& selected == headers.take(n)
                &&& key_weight(headers, n) <= request.max_keys
                &&& n < headers.len() ==> n > 0 && key_weight(headers, n + 1) > request.max_keys
                &&& n == headers.len() ==> {
                    ||| n == request.max_events
                    ||| n > 0 && headers[n - 1].revision.value >= current.value
                    ||| n == 0 && request.after.revision.value >= current.value
                }
            },
            HeaderSelection::PollBoundTooSmall { revision, required_keys } => {
                &&& headers.len() > 0
                &&& revision == headers[0].revision
                &&& required_keys == headers[0].key_count
                &&& required_keys > request.max_keys
            },
        },
{
    let n = change::run_length(headers, request.max_keys, 0);
    lemma_run(headers, request.max_keys, 0);
    lemma_key_weight(headers, n);
    lemma_key_weight(headers, n + 1);
    reveal_with_fuel(change::key_total, 2);
    assert(headers.take(headers.len() as int) =~= headers);
}

/// Headers are asked for behind the position and up to the current revision,
/// as many as the poll takes events; keys between the position and the last
/// selected revision, one more than the headers announce.
pub proof fn law_polls_ask_between_position_and_head(
    request: ChangePoll,
    current: StateRevision,
    headers: Seq<ChangeHeader>,
)
    requires
        headers.len() > 0,
    ensures
        poll::headers_query(request, current).values == seq![
            ValueView::Bytes(Some(bytes::id_bytes(request.filesystem_id.value))),
            log_law::number(request.after.revision.value as int),
            log_law::number(current.value as int),
            ValueView::Int8(Some(request.max_events as i64)),
        ],
        poll::headers_query(request, current).sql
            == "SELECT \"revision\"::text AS revision, \"origin_kind\", \"origin_id\", \"key_count\" FROM \"public\".\"w9pt_fs_state_change_commits\" AS \"commit_event\" WHERE \"commit_event\".\"filesystem_id\" = $1 AND \"commit_event\".\"revision\" > $2::numeric AND \"commit_event\".\"revision\" <= $3::numeric ORDER BY \"commit_event\".\"revision\" LIMIT $4"@,
        poll::keys_query(request, headers).values == seq![
            ValueView::Bytes(Some(bytes::id_bytes(request.filesystem_id.value))),
            log_law::number(request.after.revision.value as int),
            log_law::number(headers[headers.len() - 1].revision.value as int),
            ValueView::Int8(Some((key_weight(headers, headers.len() as int) + 1) as i64)),
        ],
        poll::keys_query(request, headers).sql
            == "SELECT \"revision\"::text AS revision, \"ordinal\", \"family_tag\", \"component_a\", \"component_b\" FROM \"public\".\"w9pt_fs_state_change_keys\" AS \"commit_key\" WHERE \"commit_key\".\"filesystem_id\" = $1 AND \"commit_key\".\"revision\" > $2::numeric AND \"commit_key\".\"revision\" <= $3::numeric ORDER BY \"commit_key\".\"revision\", \"commit_key\".\"ordinal\" LIMIT $4"@,
{
    lemma_key_weight(headers, headers.len() as int);
}

proof fn lemma_rows_follow(
    expected: Seq<(StateRevision, u32, u32)>,
    rows: Seq<ChangeKeyRow<Seq<u8>>>,
    from: int,
    index: int,
)
    requires
        0 <= from <= index < expected.len(),
        change::rows_failure(expected, rows, from) is None,
    ensures
        index < rows.len(),
        rows.len() == expected.len(),
        rows[index].revision == expected[index].0,
        rows[index].ordinal == expected[index].1,
    decreases expected.len() - from,
{
    reveal_with_fuel(change::rows_failure, 2);
    if from + 1 < expected.len() {
        if from < index {
            lemma_rows_follow(expected, rows, from + 1, index);
        } else {
            lemma_rows_follow(expected, rows, from + 1, from + 1);
        }
    }
}

proof fn lemma_expected_at(headers: Seq<ChangeHeader>, count: int, header: int, ordinal: int)
    requires
        0 <= header < count <= headers.len(),
        0 <= ordinal < headers[header].key_count,
    ensures
        change::expected(headers, count).len() == key_weight(headers, count),
        key_weight(headers, header) >= 0,
        key_weight(headers, header) + ordinal < change::expected(headers, count).len(),
        change::expected(headers, count)[key_weight(headers, header) + ordinal] == (
            headers[header].revision,
            ordinal as u32,
            headers[header].key_count,
        ),
    decreases count,
{
    lemma_expected_length(headers, count - 1);
    lemma_expected_length(headers, header);
    if header < count - 1 {
        lemma_expected_at(headers, count - 1, header, ordinal);
    }
}

proof fn lemma_expected_length(headers: Seq<ChangeHeader>, count: int)
    requires
        0 <= count <= headers.len(),
    ensures
        change::expected(headers, count).len() == key_weight(headers, count),
        key_weight(headers, count) >= 0,
    decreases count,
{
    if count > 0 {
        lemma_expected_length(headers, count - 1);
    }
}

/// A polled event is the change of its header, and the key at each of its
/// positions is the one that was read under the event's own revision and that
/// position.
pub proof fn law_events_hold_their_own_keys(
    filesystem_id: FilesystemId,
    headers: Seq<ChangeHeader>,
    rows: Seq<ChangeKeyRow<Seq<u8>>>,
    index: int,
    ordinal: int,
)
    requires
        0 <= index < headers.len(),
        0 <= ordinal < headers[index].key_count,
        change::rows_failure(change::expected(headers, headers.len() as int), rows, 0) is None,
    ensures
        ({
            let event = change::event_of(filesystem_id, headers, rows, index);
            &&& event.filesystem_id == filesystem_id
            &&& event.revision == headers[index].revision
            &&& event.origin == headers[index].origin
            &&& event.keys.len() == headers[index].key_count
            &&& rows.len() == key_weight(headers, headers.len() as int)
            &&& exists|row: int|
                0 <= row < rows.len() && (#[trigger] rows[row]).revision == headers[index].revision
                    && rows[row].ordinal == ordinal && rows[row].key == event.keys[ordinal]
        }),
{
    let expected = change::expected(headers, headers.len() as int);
    let at = key_weight(headers, index) + ordinal;
    lemma_key_weight(headers, index);
    lemma_expected_at(headers, headers.len() as int, index, ordinal);
    lemma_rows_follow(expected, rows, 0, at);
    assert(rows[at].key == change::event_of(filesystem_id, headers, rows, index).keys[ordinal]);
}

/// A poll is taken exactly where it asks for no more changes and no more keys
/// than the receiver takes.
pub proof fn law_accepted_polls_are_within_limits(request: ChangePoll, limits: StateLimits)
    ensures
        change::poll_failure(request, limits) is None <==> request.max_events
            <= limits.values.max_changes && request.max_keys <= limits.values.max_change_keys,
{
}

/// A head is read as the two revisions that it spells, the newest first. It is
/// refused where one of them is zero or the oldest retained one is newer than
/// the newest. Without a head, both are the first revision.
pub proof fn law_polled_heads_are_read(row: HeadColumns, current: u64, oldest: u64)
    requires
        row.current@ == numeric::decimal(current as nat),
        row.oldest@ == numeric::decimal(oldest as nat),
    ensures
        poll::head_detail(row) is None <==> 0 < oldest <= current,
        poll::head_revisions(Some(row)).0.value == current,
        poll::head_revisions(Some(row)).1.value == oldest,
        poll::head_revisions(None).0.value == 1,
        poll::head_revisions(None).1.value == 1,
{
    numeric::law_decimal_round_trip(current);
    numeric::law_decimal_round_trip(oldest);
}

/// A poll from a position that the log still follows reads the headers; one
/// from behind the head or from before the log is answered at once, with the
/// head's revisions.
pub proof fn law_polls_start_where_the_log_is_whole(
    before: PollRun,
    after: PollRun,
    result: Result<PollAction, PostgresStateError>,
    row: HeadColumns,
    current: u64,
    oldest: u64,
)
    requires
        0 < oldest <= current,
        row.current@ == numeric::decimal(current as nat),
        row.oldest@ == numeric::decimal(oldest as nat),
        before.after_head(after, result, Some(&row)),
    ensures
        after.current.value == current,
        ({
            let position = before.request.after.revision;
            if oldest <= position.value <= current {
                &&& after.phase == PollPhase::Headers
                &&& result matches Ok(PollAction::Fetch(_))
            } else {
                &&& result matches Ok(PollAction::Finish)
                &&& after.phase == PollPhase::Finished
                &&& match after.outcome {
                    Some(ChangePollOutcome::RevisionUnavailable { requested, current: newest }) => {
                        position.value > current && requested == position && newest.value
                            == current
                    },
                    Some(
                        ChangePollOutcome::RevisionCompacted { oldest_available, current_revision },
                    ) => position.value < oldest && oldest_available.value == oldest
                        && current_revision.value == current,
                    _ => false,
                }
            }
        }),
{
    law_polled_heads_are_read(row, current, oldest);
}

proof fn lemma_headers(rows: Seq<HeaderColumns>, from: int)
    requires
        0 <= from <= rows.len(),
    ensures
        poll::headers_detail(rows, from) is None <==> forall|i: int|
            from <= i < rows.len() ==> readable(#[trigger] rows[i]),
    decreases rows.len() - from,
{
    if from < rows.len() {
        lemma_headers(rows, from + 1);
        if readable(rows[from]) && (forall|i: int|
            from + 1 <= i < rows.len() ==> readable(#[trigger] rows[i])) {
            assert forall|i: int| from <= i < rows.len() implies readable(#[trigger] rows[i]) by {}
        }
    }
}

/// The columns of a header are those of a change.
pub open spec fn readable(row: HeaderColumns) -> bool {
    change::header_detail(row.revision@, row.origin_kind, row.origin_id@, row.key_count) is None
}

/// Headers are read exactly where each of them can be, each as itself and in
/// the order in which they were found.
pub proof fn law_headers_are_read_in_order(rows: Seq<HeaderColumns>)
    ensures
        poll::headers_detail(rows, 0) is None <==> forall|i: int|
            0 <= i < rows.len() ==> readable(#[trigger] rows[i]),
        poll::row_headers(rows).len() == rows.len(),
        forall|i: int|
            0 <= i < rows.len() ==> #[trigger] poll::row_headers(rows)[i] == change::header_of(
                rows[i].revision@,
                rows[i].origin_kind,
                rows[i].origin_id@,
                rows[i].key_count,
            ),
{
    lemma_headers(rows, 0);
}

proof fn lemma_keys(
    filesystem_id: FilesystemId,
    rows: Seq<KeyColumns>,
    limits: StateLimits,
    from: int,
)
    requires
        0 <= from <= rows.len(),
    ensures
        poll::keys_detail(filesystem_id, rows, limits, from) is None <==> forall|i: int|
            from <= i < rows.len() ==> change::key_row_detail(
                filesystem_id,
                #[trigger] rows[i],
                limits,
            ) is None,
    decreases rows.len() - from,
{
    if from < rows.len() {
        lemma_keys(filesystem_id, rows, limits, from + 1);
        if change::key_row_detail(filesystem_id, rows[from], limits) is None && (forall|i: int|
            from + 1 <= i < rows.len() ==> change::key_row_detail(
                filesystem_id,
                #[trigger] rows[i],
                limits,
            ) is None) {
            assert forall|i: int| from <= i < rows.len() implies change::key_row_detail(
                filesystem_id,
                #[trigger] rows[i],
                limits,
            ) is None by {}
        }
    }
}

/// Keys are read exactly where each of them can be, each as itself and in the
/// order in which they were found.
pub proof fn law_keys_are_read_in_order(
    filesystem_id: FilesystemId,
    rows: Seq<KeyColumns>,
    limits: StateLimits,
)
    ensures
        poll::keys_detail(filesystem_id, rows, limits, 0) is None <==> forall|i: int|
            0 <= i < rows.len() ==> change::key_row_detail(
                filesystem_id,
                #[trigger] rows[i],
                limits,
            ) is None,
        poll::row_keys(filesystem_id, rows).len() == rows.len(),
        forall|i: int|
            0 <= i < rows.len() ==> #[trigger] poll::row_keys(filesystem_id, rows)[i]
                == change::key_row_of(filesystem_id, rows[i]),
{
    lemma_keys(filesystem_id, rows, limits, 0);
}

/// A poll that finds no header stays where it is: it delivers nothing and is to
/// be resumed from its own position. One that finds some reads their keys, and
/// one whose first change alone is over the bound says so.
pub proof fn law_polls_without_changes_stay(
    before: PollRun,
    after: PollRun,
    result: Result<PollAction, PostgresStateError>,
    rows: Seq<HeaderColumns>,
)
    requires
        before.after_headers(after, result, rows),
        result is Ok,
    ensures
        rows.len() == 0 ==> {
            &&& result matches Ok(PollAction::Judge)
            &&& after.outcome matches Some(ChangePollOutcome::Changes(batch)) && batch.events@.len()
                == 0 && batch.next.revision == before.request.after.revision && batch.current
                == after.current
        },
        match result {
            Ok(PollAction::Fetch(_)) => {
                &&& after.phase == PollPhase::Keys
                &&& 0 < after.selected@.len() <= rows.len()
                &&& forall|i: int|
                    0 <= i < after.selected@.len() ==> #[trigger] after.selected@[i]
                        == poll::row_headers(rows)[i]
            },
            Ok(PollAction::Judge) => after.phase == PollPhase::Verdict,
            Ok(PollAction::Finish) => match after.outcome {
                Some(ChangePollOutcome::PollBoundTooSmall { revision, required_keys }) => {
                    &&& rows.len() > 0
                    &&& revision == poll::row_headers(rows)[0].revision
                    &&& required_keys == poll::row_headers(rows)[0].key_count
                    &&& required_keys > before.request.max_keys
                },
                _ => false,
            },
            _ => false,
        },
{
    law_headers_are_read_in_order(rows);
    law_polls_take_the_longest_run(before.request, before.current, poll::row_headers(rows));
    match result {
        Ok(PollAction::Judge) => {
            match after.outcome {
                Some(ChangePollOutcome::Changes(batch)) => {
                    assert(change::event_views(batch.events@).len() == batch.events@.len());
                },
                _ => {},
            }
        },
        _ => {},
    }
}

/// Events that nothing refuses are delivered as they were assembled, and the
/// poll is to be resumed behind the last of their changes; what is refused, or
/// was not whole, fails the poll.
pub proof fn law_assembled_events_are_delivered(
    before: PollRun,
    after: PollRun,
    result: Result<PollAction, PostgresStateError>,
    refusal: Option<String>,
)
    requires
        before.after_events(after, result, refusal),
    ensures
        result is Err <==> refusal is Some || before.failure is Some,
        result is Ok ==> {
            &&& result matches Ok(PollAction::Judge)
            &&& after.phase == PollPhase::Verdict
            &&& after.outcome matches Some(ChangePollOutcome::Changes(batch)) && change::event_views(
                batch.events@,
            ) == change::event_views(before.events@) && batch.next.revision
                == before.selected@.last().revision && batch.current == after.current
        },
{
}

/// A batch that nothing refuses is the answer; one that is refused fails the
/// poll.
pub proof fn law_judged_batches_are_answered(
    before: PollRun,
    after: PollRun,
    result: Result<PollAction, PostgresStateError>,
    refusal: Option<String>,
)
    requires
        before.after_verdict(after, result, refusal),
    ensures
        result is Err <==> refusal is Some,
        refusal is None ==> after.phase == PollPhase::Finished && (result matches Ok(
            PollAction::Finish,
        )),
{
}

/// The events of selected headers are judged one for each header where the keys
/// that were found are all there, and each is made of its own header and keys.
pub proof fn law_events_are_assembled_for_each_header(
    before: PollRun,
    after: PollRun,
    result: Result<PollAction, PostgresStateError>,
    rows: Seq<KeyColumns>,
)
    requires
        before.after_keys(after, result, rows),
        result is Ok,
    ensures
        after.phase == PollPhase::Events,
        after.failure is None ==> after.events@.len() == before.selected@.len(),
        forall|i: int|
            0 <= i < after.events@.len() ==> #[trigger] change::event_views(after.events@)[i]
                == change::event_of(
                before.request.filesystem_id,
                before.selected@,
                poll::row_keys(before.request.filesystem_id, rows),
                i,
            ),
{
    assert(change::event_views(after.events@).len() == after.events@.len());
}

} // verus!
