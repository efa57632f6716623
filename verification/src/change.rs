//! Polls of whole change events.
//!
//! A poll learns what the authority retains, selects the longest run of whole
//! events that fits its bounds, and checks that neither an event nor a key of
//! an event is missing.
use vstd::prelude::*;

use crate::bytes;
use crate::bytes::{copy_bytes, id_from_bytes};
use crate::failure;
use crate::failure::{
    AdapterFailureKind, FailureCause, FailureDetail, PostgresStateError, StateFailure,
    StateStoreOperation,
};
use crate::ids::{FilesystemId, InvalidValue, LeaseOperationId, MutationId, StateRevision};
use crate::key;
use crate::key::RecordKey;
use crate::key_codec;
use crate::key_codec::SqlRecordKey;
use crate::limits;
use crate::limits::{require_count, StateLimitError, StateLimitKind, StateLimits};
use crate::numeric;
use crate::numeric::{decode_u64, NumericCodecError};
use crate::values;

verus! {

/// Text that reads what an authority retains.
pub const AUTHORITY_HEAD_SQL: &'static str =
    "SELECT \"current_revision\"::text AS current_revision, \"oldest_retained_revision\"::text AS oldest_retained_revision FROM \"public\".\"w9pt_fs_state_authority_heads\" WHERE \"filesystem_id\" = $1";

/// Text that reads headers of changes.
pub const CHANGE_HEADERS_SQL: &'static str =
    "SELECT \"revision\"::text AS revision, \"origin_kind\", \"origin_id\", \"key_count\" FROM \"public\".\"w9pt_fs_state_change_commits\" AS \"commit_event\" WHERE \"commit_event\".\"filesystem_id\" = $1 AND \"commit_event\".\"revision\" > $2::numeric AND \"commit_event\".\"revision\" <= $3::numeric ORDER BY \"commit_event\".\"revision\" LIMIT $4";

/// Text that reads keys of changes.
pub const CHANGE_KEYS_SQL: &'static str =
    "SELECT \"revision\"::text AS revision, \"ordinal\", \"family_tag\", \"component_a\", \"component_b\" FROM \"public\".\"w9pt_fs_state_change_keys\" AS \"commit_key\" WHERE \"commit_key\".\"filesystem_id\" = $1 AND \"commit_key\".\"revision\" > $2::numeric AND \"commit_key\".\"revision\" <= $3::numeric ORDER BY \"commit_key\".\"revision\", \"commit_key\".\"ordinal\" LIMIT $4";

/// Position after one change.
#[derive(Clone, Copy, Debug, PartialEq, Eq, Structural)]
pub struct ChangeCursor {
    /// Revision of the change.
    pub revision: StateRevision,
}

/// Request for changes.
#[derive(Clone, Copy, Debug, PartialEq, Eq, Structural)]
pub struct ChangePoll {
    /// Authority.
    pub filesystem_id: FilesystemId,
    /// Position to start after.
    pub after: ChangeCursor,
    /// Most events.
    pub max_events: u32,
    /// Most keys in all events together.
    pub max_keys: u32,
}

/// What made a change.
#[derive(Clone, Copy, Debug, PartialEq, Eq, Structural)]
pub enum ChangeOrigin {
    /// A mutation.
    Mutation(MutationId),
    /// A lease operation.
    Lease(LeaseOperationId),
}

/// Header of a change.
#[derive(Clone, Copy, Debug, PartialEq, Eq, Structural)]
pub struct ChangeHeader {
    /// Revision.
    pub revision: StateRevision,
    /// What made the change.
    pub origin: ChangeOrigin,
    /// Number of changed keys.
    pub key_count: u32,
}

/// One key of a change.
#[derive(Clone, Debug, PartialEq, Eq)]
pub struct ChangeKeyRow<B = Vec<u8>> {
    /// Revision of the change.
    pub revision: StateRevision,
    /// Position among the keys of the change.
    pub ordinal: u32,
    /// The key.
    pub key: RecordKey<B>,
}

impl View for ChangeKeyRow<Vec<u8>> {
    type V = ChangeKeyRow<Seq<u8>>;

    open spec fn view(&self) -> ChangeKeyRow<Seq<u8>> {
        ChangeKeyRow { revision: self.revision, ordinal: self.ordinal, key: self.key@ }
    }
}

/// Key rows as contracts speak of them.
pub open spec fn key_row_views(rows: Seq<ChangeKeyRow>) -> Seq<ChangeKeyRow<Seq<u8>>> {
    rows.map_values(|row: ChangeKeyRow| row@)
}

/// Selection of the headers of a poll.
#[derive(Clone, Debug, PartialEq, Eq)]
pub enum HeaderPlan {
    /// These headers.
    Selected(Vec<ChangeHeader>),
    /// The first change alone has more keys than the poll takes.
    PollBoundTooSmall {
        /// Revision of the change.
        revision: StateRevision,
        /// Number of its keys.
        required_keys: u32,
    },
}

/// Selection of the headers of a poll, as contracts speak of it.
pub enum HeaderSelection {
    /// These headers.
    Selected(Seq<ChangeHeader>),
    /// The first change alone has more keys than the poll takes.
    PollBoundTooSmall {
        /// Revision of the change.
        revision: StateRevision,
        /// Number of its keys.
        required_keys: u32,
    },
}

impl View for HeaderPlan {
    type V = HeaderSelection;

    open spec fn view(&self) -> HeaderSelection {
        match self {
            HeaderPlan::Selected(headers) => HeaderSelection::Selected(headers@),
            HeaderPlan::PollBoundTooSmall { revision, required_keys } => {
                HeaderSelection::PollBoundTooSmall {
                    revision: *revision,
                    required_keys: *required_keys,
                }
            },
        }
    }
}

/// One whole change.
#[derive(Clone, Debug, PartialEq, Eq)]
pub struct ChangeEvent {
    /// Authority.
    pub filesystem_id: FilesystemId,
    /// Revision.
    pub revision: StateRevision,
    /// What made the change.
    pub origin: ChangeOrigin,
    /// Changed keys.
    pub keys: Vec<RecordKey>,
}

/// One whole change, as contracts speak of it.
#[verifier::ext_equal]
pub struct EventView {
    /// Authority.
    pub filesystem_id: FilesystemId,
    /// Revision.
    pub revision: StateRevision,
    /// What made the change.
    pub origin: ChangeOrigin,
    /// Changed keys.
    pub keys: Seq<RecordKey<Seq<u8>>>,
}

impl View for ChangeEvent {
    type V = EventView;

    open spec fn view(&self) -> EventView {
        EventView {
            filesystem_id: self.filesystem_id,
            revision: self.revision,
            origin: self.origin,
            keys: key::key_views(self.keys@),
        }
    }
}

/// Events as contracts speak of them.
pub open spec fn event_views(events: Seq<ChangeEvent>) -> Seq<EventView> {
    events.map_values(|event: ChangeEvent| event@)
}

/// Whole changes and the position after them.
#[derive(Clone, Debug, PartialEq, Eq)]
pub struct ChangeBatch {
    /// The changes in revision order.
    pub events: Vec<ChangeEvent>,
    /// Position to poll after next.
    pub next: ChangeCursor,
    /// Current revision of the authority.
    pub current: StateRevision,
}

/// What became of a poll.
#[derive(Clone, Debug, PartialEq, Eq)]
pub enum ChangePollOutcome {
    /// Changes, perhaps none.
    Changes(ChangeBatch),
    /// The authority has not reached the position.
    RevisionUnavailable {
        /// Position.
        requested: StateRevision,
        /// Current revision.
        current: StateRevision,
    },
    /// Changes after the position are no longer retained.
    RevisionCompacted {
        /// Oldest position that can be polled after.
        oldest_available: StateRevision,
        /// Current revision.
        current_revision: StateRevision,
    },
    /// The first change alone has more keys than the poll takes.
    PollBoundTooSmall {
        /// Revision of the change.
        revision: StateRevision,
        /// Number of its keys.
        required_keys: u32,
    },
    /// The poll exceeds a limit.
    MalformedRequest(StateLimitError),
}

/// A detail as contracts speak of it.
pub type DetailView = FailureDetail<Seq<u8>, Seq<char>>;

/// The limit that a poll exceeds.
pub open spec fn poll_failure(request: ChangePoll, limits: StateLimits) -> Option<StateLimitError> {
    values::first_failure(
        limits::limit_failure(
            StateLimitKind::Changes,
            request.max_events as nat,
            limits.values.max_changes as nat,
        ),
        limits::limit_failure(
            StateLimitKind::ChangeKeys,
            request.max_keys as nat,
            limits.values.max_change_keys as nat,
        ),
    )
}

/// Checks a poll against the receiver's limits.
pub fn validate_receiver(request: ChangePoll, limits: StateLimits) -> (result: Result<
    (),
    StateLimitError,
>)
    ensures
        result == limits::checked(poll_failure(request, limits)),
{
    require_count(StateLimitKind::Changes, request.max_events as usize, limits.values.max_changes)?;
    require_count(
        StateLimitKind::ChangeKeys,
        request.max_keys as usize,
        limits.values.max_change_keys,
    )
}

/// What a poll fails with when persisted changes are corrupt.
pub open spec fn poll_corruption(detail: DetailView) -> StateFailure {
    failure::plain_failure(
        StateStoreOperation::PollChanges,
        AdapterFailureKind::Corruption,
        detail.context,
        detail.cause,
    )
}

pub(crate) fn corruption(detail: FailureDetail) -> (result: PostgresStateError)
    ensures
        result@ == poll_corruption(detail@),
{
    PostgresStateError::new(
        StateStoreOperation::PollChanges,
        AdapterFailureKind::Corruption,
        detail.context,
        detail.cause,
    )
}

/// Why a text is no revision.
pub open spec fn revision_detail(field: &'static str, text: Seq<char>) -> Option<DetailView> {
    if !numeric::parses(text) {
        Some(
            FailureDetail {
                context: "",
                cause: FailureCause::Numeric(NumericCodecError { field, value: text }),
            },
        )
    } else if numeric::parsed(text) == 0 {
        Some(
            FailureDetail {
                context: "",
                cause: FailureCause::Value(InvalidValue::Zero),
            },
        )
    } else {
        None
    }
}

/// Reads a revision, which is never zero.
pub fn decode_revision_value(field: &'static str, text: &str) -> (result: Result<
    StateRevision,
    FailureDetail,
>)
    ensures
        match result {
            Ok(revision) => revision_detail(field, text@) is None && revision.value
                == numeric::parsed(text@),
            Err(detail) => revision_detail(field, text@) == Some(detail@),
        },
{
    match decode_u64(field, text) {
        Ok(value) => if value == 0 {
            Err(
                FailureDetail {
                    context: "",
                    cause: FailureCause::Value(InvalidValue::Zero),
                },
            )
        } else {
            Ok(StateRevision { value })
        },
        Err(error) => Err(
            FailureDetail {
                context: "",
                cause: FailureCause::Numeric(error),
            },
        ),
    }
}

/// Why a text is no revision of an authority head.
pub open spec fn head_revision_detail(
    field: &'static str,
    zero: &'static str,
    text: Seq<char>,
) -> Option<DetailView> {
    if !numeric::parses(text) {
        Some(
            FailureDetail {
                context: "invalid persisted revision",
                cause: FailureCause::Numeric(NumericCodecError { field, value: text }),
            },
        )
    } else if numeric::parsed(text) == 0 {
        Some(FailureDetail { context: zero, cause: FailureCause::Value(InvalidValue::Zero) })
    } else {
        None
    }
}

/// Reads a revision of an authority head; `zero` is the context of a revision
/// that is zero.
pub fn decode_revision(field: &'static str, zero: &'static str, text: &str) -> (result: Result<
    StateRevision,
    FailureDetail,
>)
    ensures
        match result {
            Ok(revision) => head_revision_detail(field, zero, text@) is None && revision.value
                == numeric::parsed(text@) && revision.valid(),
            Err(detail) => head_revision_detail(field, zero, text@) == Some(detail@),
        },
{
    match decode_u64(field, text) {
        Ok(value) => if value == 0 {
            Err(FailureDetail { context: zero, cause: FailureCause::Value(InvalidValue::Zero) })
        } else {
            Ok(StateRevision { value })
        },
        Err(error) => Err(
            FailureDetail {
                context: "invalid persisted revision",
                cause: FailureCause::Numeric(error),
            },
        ),
    }
}

/// Why bytes are no identity.
pub open spec fn id_detail(field: &'static str, bytes: Seq<u8>) -> Option<DetailView> {
    if bytes.len() == 16 {
        None
    } else {
        Some(
            FailureDetail {
                context: "",
                cause: FailureCause::Width { field, actual: bytes.len() as usize },
            },
        )
    }
}

/// Reads a fixed-width identity.
pub fn fixed_id(field: &'static str, value: &Vec<u8>) -> (result: Result<u128, FailureDetail>)
    ensures
        match result {
            Ok(id) => id_detail(field, value@) is None && id == bytes::id_value(value@),
            Err(detail) => id_detail(field, value@) == Some(detail@),
        },
{
    if value.len() == 16 {
        Ok(id_from_bytes(value))
    } else {
        Err(
            FailureDetail {
                context: "",
                cause: FailureCause::Width { field, actual: value.len() },
            },
        )
    }
}

/// The earlier of two failures.
pub open spec fn earlier(first: Option<DetailView>, second: Option<DetailView>) -> Option<
    DetailView,
> {
    match first {
        Some(detail) => Some(detail),
        None => second,
    }
}

/// Why columns are no header.
pub open spec fn header_detail(
    revision: Seq<char>,
    origin_kind: i16,
    origin_id: Seq<u8>,
    key_count: i32,
) -> Option<DetailView> {
    earlier(
        revision_detail("change_commits.revision", revision),
        earlier(
            id_detail("change_commits.origin_id", origin_id),
            if origin_kind != 1 && origin_kind != 2 {
                Some(
                    FailureDetail {
                        context: "unknown change origin tag",
                        cause: FailureCause::Ending(origin_kind as i64),
                    },
                )
            } else if key_count <= 0 {
                Some(
                    FailureDetail {
                        context: "invalid change key count",
                        cause: FailureCause::Ending(key_count as i64),
                    },
                )
            } else {
                None
            },
        ),
    )
}

/// The header that columns spell.
pub open spec fn header_of(
    revision: Seq<char>,
    origin_kind: i16,
    origin_id: Seq<u8>,
    key_count: i32,
) -> ChangeHeader {
    ChangeHeader {
        revision: StateRevision { value: numeric::parsed(revision) },
        origin: if origin_kind == 1 {
            ChangeOrigin::Mutation(MutationId { value: bytes::id_value(origin_id) })
        } else {
            ChangeOrigin::Lease(LeaseOperationId { value: bytes::id_value(origin_id) })
        },
        key_count: key_count as u32,
    }
}

/// Reads the header of a change.
pub fn decode_header(revision: &str, origin_kind: i16, origin_id: &Vec<u8>, key_count: i32) -> (result:
    Result<ChangeHeader, FailureDetail>)
    ensures
        match result {
            Ok(header) => header_detail(revision@, origin_kind, origin_id@, key_count) is None
                && header == header_of(revision@, origin_kind, origin_id@, key_count),
            Err(detail) => header_detail(revision@, origin_kind, origin_id@, key_count) == Some(
                detail@,
            ),
        },
{
    let revision = decode_revision_value("change_commits.revision", revision)?;
    let origin_id: u128 = fixed_id("change_commits.origin_id", origin_id)?;
    let origin = match origin_kind {
        1 => ChangeOrigin::Mutation(MutationId { value: origin_id }),
        2 => ChangeOrigin::Lease(LeaseOperationId { value: origin_id }),
        _ => {
            return Err(
                FailureDetail {
                    context: "unknown change origin tag",
                    cause: FailureCause::Ending(origin_kind as i64),
                },
            );
        },
    };
    if key_count <= 0 {
        return Err(
            FailureDetail {
                context: "invalid change key count",
                cause: FailureCause::Ending(key_count as i64),
            },
        );
    }
    Ok(ChangeHeader { revision, origin, key_count: key_count as u32 })
}

/// An absent component is empty.
pub open spec fn component(value: Option<Vec<u8>>) -> Seq<u8> {
    match value {
        Some(bytes) => bytes@,
        None => Seq::empty(),
    }
}

fn copy_component(value: &Option<Vec<u8>>) -> (result: Vec<u8>)
    ensures
        result@ == component(*value),
{
    match value {
        Some(bytes) => copy_bytes(bytes),
        None => Vec::new(),
    }
}

/// Columns of one key of a change.
#[derive(Clone, Debug, PartialEq, Eq)]
pub struct KeyColumns {
    /// Column `revision`.
    pub revision: String,
    /// Column `ordinal`.
    pub ordinal: i32,
    /// Column `family_tag`.
    pub family_tag: i16,
    /// Column `component_a`.
    pub component_a: Option<Vec<u8>>,
    /// Column `component_b`.
    pub component_b: Option<Vec<u8>>,
}

/// The stored key that columns spell.
pub open spec fn stored_key(filesystem_id: FilesystemId, row: KeyColumns) -> SqlRecordKey<Seq<u8>> {
    SqlRecordKey {
        family_tag: row.family_tag,
        filesystem_id,
        component_a: component(row.component_a),
        component_b: component(row.component_b),
    }
}

/// Why columns are no key of a change.
pub open spec fn key_row_detail(
    filesystem_id: FilesystemId,
    row: KeyColumns,
    limits: StateLimits,
) -> Option<DetailView> {
    earlier(
        revision_detail("change_keys.revision", row.revision@),
        if row.ordinal < 0 {
            Some(
                FailureDetail {
                    context: "negative change-key ordinal",
                    cause: FailureCause::Ending(row.ordinal as i64),
                },
            )
        } else {
            match key_codec::sql_key_failure(stored_key(filesystem_id, row), limits) {
                Some(error) => Some(
                    FailureDetail {
                        context: "invalid persisted change key",
                        cause: FailureCause::Key(error),
                    },
                ),
                None => None,
            }
        },
    )
}

/// The key of a change that columns spell.
pub open spec fn key_row_of(filesystem_id: FilesystemId, row: KeyColumns) -> ChangeKeyRow<Seq<u8>> {
    ChangeKeyRow {
        revision: StateRevision { value: numeric::parsed(row.revision@) },
        ordinal: row.ordinal as u32,
        key: key_codec::sql_key_value(stored_key(filesystem_id, row)),
    }
}

/// Reads one key of a change.
pub fn decode_key_row(filesystem_id: FilesystemId, row: &KeyColumns, limits: StateLimits) -> (result:
    Result<ChangeKeyRow, FailureDetail>)
    ensures
        match result {
            Ok(decoded) => key_row_detail(filesystem_id, *row, limits) is None && decoded@
                == key_row_of(filesystem_id, *row),
            Err(detail) => key_row_detail(filesystem_id, *row, limits) == Some(detail@),
        },
{
    let revision = decode_revision_value("change_keys.revision", row.revision.as_str())?;
    if row.ordinal < 0 {
        return Err(
            FailureDetail {
                context: "negative change-key ordinal",
                cause: FailureCause::Ending(row.ordinal as i64),
            },
        );
    }
    let stored = SqlRecordKey {
        family_tag: row.family_tag,
        filesystem_id,
        component_a: copy_component(&row.component_a),
        component_b: copy_component(&row.component_b),
    };
    assert(stored@ == stored_key(filesystem_id, *row));
    match stored.decode(limits) {
        Ok(k) => Ok(ChangeKeyRow { revision, ordinal: row.ordinal as u32, key: k }),
        Err(error) => Err(
            FailureDetail {
                context: "invalid persisted change key",
                cause: FailureCause::Key(error),
            },
        ),
    }
}

/// Keys of the first headers together.
pub open spec fn key_total(headers: Seq<ChangeHeader>, count: int) -> nat
    decreases count,
{
    if count <= 0 {
        0
    } else {
        key_total(headers, count - 1) + headers[count - 1].key_count as nat
    }
}

/// How many changes a poll returns: the longest run from the first one whose
/// keys it takes.
pub open spec fn run_length(headers: Seq<ChangeHeader>, max_keys: u32, from: int) -> int
    decreases headers.len() - from,
{
    if 0 <= from < headers.len() && key_total(headers, from + 1) <= max_keys {
        run_length(headers, max_keys, from + 1)
    } else {
        from
    }
}

/// The revision before a header of a poll.
pub open spec fn previous(request: ChangePoll, headers: Seq<ChangeHeader>, index: int) -> u64 {
    if index <= 0 {
        request.after.revision.value
    } else {
        headers[index - 1].revision.value
    }
}

/// Why a header does not follow the revision before it.
pub open spec fn gap(
    request: ChangePoll,
    current: StateRevision,
    headers: Seq<ChangeHeader>,
    index: int,
) -> Option<DetailView> {
    let before = previous(request, headers, index);
    let found = headers[index].revision.value;
    if before == u64::MAX {
        Some(
            FailureDetail {
                context: "change revision overflow while checking history",
                cause: FailureCause::Plain,
            },
        )
    } else if found != before + 1 || found > current.value {
        Some(
            FailureDetail {
                context: "",
                cause: FailureCause::Gap { after: before, found },
            },
        )
    } else {
        None
    }
}

/// The first gap before an index.
pub open spec fn first_gap(
    request: ChangePoll,
    current: StateRevision,
    headers: Seq<ChangeHeader>,
    from: int,
    count: int,
) -> Option<DetailView>
    decreases count - from,
{
    if from >= count {
        None
    } else {
        earlier(
            gap(request, current, headers, from),
            first_gap(request, current, headers, from + 1, count),
        )
    }
}

/// The selection for a poll: the longest run of whole changes whose keys it
/// takes, all of them following the position without a gap.
pub open spec fn header_selection(
    request: ChangePoll,
    current: StateRevision,
    headers: Seq<ChangeHeader>,
) -> Result<HeaderSelection, DetailView> {
    let n = run_length(headers, request.max_keys, 0);
    let seen = if n < headers.len() {
        n + 1
    } else {
        n
    };
    if headers.len() > request.max_events {
        Err(
            FailureDetail {
                context: "change header query exceeded the requested event bound",
                cause: FailureCause::Plain,
            },
        )
    } else {
        match first_gap(request, current, headers, 0, seen) {
            Some(detail) => Err(detail),
            None => if n < headers.len() {
                if key_total(headers, n + 1) > u32::MAX {
                    Err(
                        FailureDetail {
                            context: "aggregate change key count overflow",
                            cause: FailureCause::Plain,
                        },
                    )
                } else if n == 0 {
                    Ok(
                        HeaderSelection::PollBoundTooSmall {
                            revision: headers[0].revision,
                            required_keys: headers[0].key_count,
                        },
                    )
                } else {
                    Ok(HeaderSelection::Selected(headers.take(n)))
                }
            } else if previous(request, headers, n) < current.value && n < request.max_events {
                Err(
                    FailureDetail {
                        context: "",
                        cause: FailureCause::HistoryEnd {
                            last: previous(request, headers, n),
                            current: current.value,
                        },
                    },
                )
            } else {
                Ok(HeaderSelection::Selected(headers))
            },
        }
    }
}

proof fn lemma_run_length(headers: Seq<ChangeHeader>, max_keys: u32, from: int)
    requires
        0 <= from <= headers.len(),
        from == 0 || key_total(headers, from) <= max_keys,
    ensures
        from <= run_length(headers, max_keys, from) <= headers.len(),
        run_length(headers, max_keys, from) == 0 || key_total(
            headers,
            run_length(headers, max_keys, from),
        ) <= max_keys,
        run_length(headers, max_keys, from) < headers.len() ==> key_total(
            headers,
            run_length(headers, max_keys, from) + 1,
        ) > max_keys,
    decreases headers.len() - from,
{
    if from < headers.len() && key_total(headers, from + 1) <= max_keys {
        lemma_run_length(headers, max_keys, from + 1);
    }
}

proof fn lemma_first_gap(
    request: ChangePoll,
    current: StateRevision,
    headers: Seq<ChangeHeader>,
    from: int,
    index: int,
    count: int,
)
    requires
        0 <= from <= index <= count,
        forall|i: int|
            from <= i < index ==> (#[trigger] gap(request, current, headers, i)) is None,
    ensures
        first_gap(request, current, headers, from, count) == first_gap(
            request,
            current,
            headers,
            index,
            count,
        ),
    decreases index - from,
{
    if from < index {
        assert(gap(request, current, headers, from) is None);
        lemma_first_gap(request, current, headers, from + 1, index, count);
    }
}

proof fn lemma_no_gap(
    request: ChangePoll,
    current: StateRevision,
    headers: Seq<ChangeHeader>,
    from: int,
    index: int,
    count: int,
)
    requires
        0 <= from <= index < count,
        first_gap(request, current, headers, from, count) is None,
    ensures
        gap(request, current, headers, index) is None,
    decreases index - from,
{
    if from < index {
        lemma_no_gap(request, current, headers, from + 1, index, count);
    }
}

/// A poll loses and repeats nothing: what it selects are the revisions that
/// follow its position one by one, none beyond the current one, within its
/// bounds of events and keys.
pub proof fn law_polls_are_contiguous(
    request: ChangePoll,
    current: StateRevision,
    headers: Seq<ChangeHeader>,
    index: int,
)
    requires
        header_selection(request, current, headers) is Ok,
        header_selection(request, current, headers)->Ok_0 is Selected,
        0 <= index < header_selection(request, current, headers)->Ok_0->Selected_0.len(),
    ensures
        ({
            let selected = header_selection(request, current, headers)->Ok_0->Selected_0;
            &&& selected[index].revision.value == request.after.revision.value + 1 + index
            &&& selected[index].revision.value <= current.value
            &&& selected.len() <= request.max_events
            &&& key_total(selected, selected.len() as int) <= request.max_keys
        }),
    decreases index,
{
    let n = run_length(headers, request.max_keys, 0);
    lemma_run_length(headers, request.max_keys, 0);
    let seen = if n < headers.len() {
        n + 1
    } else {
        n
    };
    let selected = header_selection(request, current, headers)->Ok_0->Selected_0;
    assert(selected =~= headers.take(n));
    lemma_no_gap(request, current, headers, 0, index, seen);
    if index > 0 {
        law_polls_are_contiguous(request, current, headers, index - 1);
    }
    lemma_key_total_prefix(headers, n, n);
}

/// Polls resume where they left off: a poll after the position that an earlier
/// one returned starts with the revision right after it.
pub proof fn law_polls_resume(
    first: ChangePoll,
    first_current: StateRevision,
    first_headers: Seq<ChangeHeader>,
    second: ChangePoll,
    second_current: StateRevision,
    second_headers: Seq<ChangeHeader>,
)
    requires
        header_selection(first, first_current, first_headers) matches Ok(
            HeaderSelection::Selected(selected),
        ) && selected.len() > 0 && second.after.revision == selected.last().revision,
        header_selection(second, second_current, second_headers) matches Ok(
            HeaderSelection::Selected(selected),
        ) && selected.len() > 0,
    ensures
        ({
            let earlier_run = header_selection(
                first,
                first_current,
                first_headers,
            )->Ok_0->Selected_0;
            let later_run = header_selection(
                second,
                second_current,
                second_headers,
            )->Ok_0->Selected_0;
            forall|i: int|
                0 <= i < earlier_run.len() + later_run.len() ==> (#[trigger] (earlier_run
                    + later_run)[i]).revision.value == first.after.revision.value + 1 + i
        }),
{
    let earlier_run = header_selection(first, first_current, first_headers)->Ok_0->Selected_0;
    let later_run = header_selection(second, second_current, second_headers)->Ok_0->Selected_0;
    assert forall|i: int| 0 <= i < earlier_run.len() + later_run.len() implies (#[trigger] (
    earlier_run + later_run)[i]).revision.value == first.after.revision.value + 1 + i by {
        law_polls_are_contiguous(first, first_current, first_headers, earlier_run.len() - 1);
        if i < earlier_run.len() {
            law_polls_are_contiguous(first, first_current, first_headers, i);
        } else {
            law_polls_are_contiguous(
                second,
                second_current,
                second_headers,
                i - earlier_run.len(),
            );
        }
    }
}

proof fn lemma_key_total_prefix(headers: Seq<ChangeHeader>, n: int, count: int)
    requires
        0 <= count <= n <= headers.len(),
    ensures
        key_total(headers.take(n), count) == key_total(headers, count),
    decreases count,
{
    if count > 0 {
        lemma_key_total_prefix(headers, n, count - 1);
    }
}

/// A poll that selects nothing has seen every change: nothing follows its
/// position.
pub proof fn law_empty_polls_are_current(
    request: ChangePoll,
    current: StateRevision,
    headers: Seq<ChangeHeader>,
)
    requires
        header_selection(request, current, headers) is Ok,
        header_selection(request, current, headers)->Ok_0 is Selected,
        header_selection(request, current, headers)->Ok_0->Selected_0.len() == 0,
        request.max_events > 0,
    ensures
        request.after.revision.value >= current.value,
{
    lemma_run_length(headers, request.max_keys, 0);
    let n = run_length(headers, request.max_keys, 0);
    if n < headers.len() {
        assert(headers.take(n).len() == n);
    }
}

/// Selects the changes of a poll.
pub fn plan_headers(request: &ChangePoll, current: StateRevision, headers: Vec<ChangeHeader>) -> (result:
    Result<HeaderPlan, FailureDetail>)
    ensures
        match result {
            Ok(plan) => header_selection(*request, current, headers@) == Ok::<
                HeaderSelection,
                DetailView,
            >(plan@),
            Err(detail) => header_selection(*request, current, headers@) == Err::<
                HeaderSelection,
                DetailView,
            >(detail@),
        },
{
    let maximum: usize = request.max_events as usize;
    let count: usize = headers.len();
    if count > maximum {
        return Err(
            FailureDetail {
                context: "change header query exceeded the requested event bound",
                cause: FailureCause::Plain,
            },
        );
    }
    let mut total: u32 = 0;
    let mut before: u64 = request.after.revision.value;
    let mut taken: usize = 0;
    proof {
        lemma_run_length(headers@, request.max_keys, 0);
    }
    while taken < count
        invariant
            taken <= count,
            count == headers@.len(),
            count <= request.max_events,
            total == key_total(headers@, taken as int),
            taken == 0 || key_total(headers@, taken as int) <= request.max_keys,
            before == previous(*request, headers@, taken as int),
            run_length(headers@, request.max_keys, 0) == run_length(
                headers@,
                request.max_keys,
                taken as int,
            ),
            run_length(headers@, request.max_keys, 0) <= count,
            forall|i: int|
                0 <= i < taken ==> (#[trigger] gap(*request, current, headers@, i)) is None,
        decreases count - taken,
    {
        let ghost n = run_length(headers@, request.max_keys, 0);
        let ghost seen = if n < headers@.len() {
            n + 1
        } else {
            n
        };
        proof {
            lemma_run_length(headers@, request.max_keys, taken as int);
            reveal_with_fuel(key_total, 2);
            assert(seen > taken);
            lemma_first_gap(*request, current, headers@, 0, taken as int, seen);
        }
        let header = headers[taken];
        if before == u64::MAX {
            return Err(
                FailureDetail {
                    context: "change revision overflow while checking history",
                    cause: FailureCause::Plain,
                },
            );
        }
        if header.revision.value != before + 1 || header.revision.value > current.value {
            return Err(
                FailureDetail {
                    context: "",
                    cause: FailureCause::Gap { after: before, found: header.revision.value },
                },
            );
        }
        assert(gap(*request, current, headers@, taken as int) is None);
        match total.checked_add(header.key_count) {
            None => {
                proof {
                    assert(n == taken);
                    lemma_first_gap(*request, current, headers@, 0, taken + 1, seen);
                }
                return Err(
                    FailureDetail {
                        context: "aggregate change key count overflow",
                        cause: FailureCause::Plain,
                    },
                );
            },
            Some(next) => {
                if next > request.max_keys {
                    proof {
                        assert(n == taken);
                        lemma_first_gap(*request, current, headers@, 0, taken + 1, seen);
                    }
                    if taken == 0 {
                        return Ok(
                            HeaderPlan::PollBoundTooSmall {
                                revision: header.revision,
                                required_keys: header.key_count,
                            },
                        );
                    }
                    let ghost all = headers@;
                    let mut selected = headers;
                    selected.truncate(taken);
                    assert(selected@ =~= all.take(taken as int));
                    return Ok(HeaderPlan::Selected(selected));
                }
                total = next;
                before = header.revision.value;
                taken = taken + 1;
            },
        }
    }
    proof {
        lemma_first_gap(*request, current, headers@, 0, count as int, count as int);
    }
    if before < current.value && count < maximum {
        return Err(
            FailureDetail {
                context: "",
                cause: FailureCause::HistoryEnd { last: before, current: current.value },
            },
        );
    }
    Ok(HeaderPlan::Selected(headers))
}

/// Revision, ordinal and number of fellow keys of every key of the first
/// headers, in order.
pub open spec fn expected(headers: Seq<ChangeHeader>, count: int) -> Seq<(StateRevision, u32, u32)>
    decreases count,
{
    if count <= 0 {
        Seq::empty()
    } else {
        expected(headers, count - 1) + Seq::new(
            headers[count - 1].key_count as nat,
            |k: int| (headers[count - 1].revision, k as u32, headers[count - 1].key_count),
        )
    }
}

/// Why a key row is not the one that is expected at an index.
pub open spec fn row_gap(
    expected: Seq<(StateRevision, u32, u32)>,
    rows: Seq<ChangeKeyRow<Seq<u8>>>,
    index: int,
) -> Option<DetailView> {
    if index >= rows.len() {
        Some(
            FailureDetail {
                context: "",
                cause: FailureCause::FewerKeys {
                    revision: expected[index].0.value,
                    count: expected[index].2,
                },
            },
        )
    } else if rows[index].revision != expected[index].0 || rows[index].ordinal != expected[index].1 {
        Some(
            FailureDetail {
                context: "",
                cause: FailureCause::UnexpectedKey {
                    revision: rows[index].revision.value,
                    ordinal: rows[index].ordinal,
                },
            },
        )
    } else {
        None
    }
}

/// The first failure of key rows from an index on.
pub open spec fn rows_failure(
    expected: Seq<(StateRevision, u32, u32)>,
    rows: Seq<ChangeKeyRow<Seq<u8>>>,
    from: int,
) -> Option<DetailView>
    decreases expected.len() - from,
{
    if 0 <= from < expected.len() {
        earlier(row_gap(expected, rows, from), rows_failure(expected, rows, from + 1))
    } else if rows.len() > expected.len() {
        Some(
            FailureDetail {
                context: "change-key query returned rows beyond selected headers",
                cause: FailureCause::Plain,
            },
        )
    } else {
        None
    }
}

/// The change of a header, with the keys from a position on.
pub open spec fn event_of(
    filesystem_id: FilesystemId,
    headers: Seq<ChangeHeader>,
    rows: Seq<ChangeKeyRow<Seq<u8>>>,
    index: int,
) -> EventView {
    EventView {
        filesystem_id,
        revision: headers[index].revision,
        origin: headers[index].origin,
        keys: Seq::new(
            headers[index].key_count as nat,
            |k: int| rows[key_total(headers, index) + k].key,
        ),
    }
}

proof fn lemma_expected_length(headers: Seq<ChangeHeader>, count: int)
    requires
        0 <= count <= headers.len(),
    ensures
        expected(headers, count).len() == key_total(headers, count),
    decreases count,
{
    if count > 0 {
        lemma_expected_length(headers, count - 1);
    }
}

proof fn lemma_expected_prefix(headers: Seq<ChangeHeader>, low: int, high: int, index: int)
    requires
        0 <= low <= high <= headers.len(),
        0 <= index < key_total(headers, low),
    ensures
        index < expected(headers, high).len(),
        expected(headers, high)[index] == expected(headers, low)[index],
    decreases high - low,
{
    lemma_expected_length(headers, low);
    lemma_expected_length(headers, high);
    if low < high {
        lemma_expected_prefix(headers, low, high - 1, index);
        lemma_expected_length(headers, high - 1);
    }
}

proof fn lemma_expected_at(headers: Seq<ChangeHeader>, header: int, ordinal: int)
    requires
        0 <= header < headers.len(),
        0 <= ordinal < headers[header].key_count,
    ensures
        key_total(headers, header) + ordinal < expected(headers, headers.len() as int).len(),
        expected(headers, headers.len() as int)[key_total(headers, header) + ordinal] == (
            headers[header].revision,
            ordinal as u32,
            headers[header].key_count,
        ),
{
    lemma_expected_length(headers, header);
    let index = key_total(headers, header) + ordinal;
    assert(index < key_total(headers, header + 1));
    lemma_expected_prefix(headers, header + 1, headers.len() as int, index);
    assert(expected(headers, header + 1)[index] == (
        headers[header].revision,
        ordinal as u32,
        headers[header].key_count,
    ));
}

/// Every key of a change stands where it is expected.
pub open spec fn whole(
    headers: Seq<ChangeHeader>,
    rows: Seq<ChangeKeyRow<Seq<u8>>>,
    index: int,
) -> bool {
    forall|k: int|
        0 <= k < headers[index].key_count ==> (#[trigger] row_gap(
            expected(headers, headers.len() as int),
            rows,
            key_total(headers, index) + k,
        )) is None
}

/// How many changes are whole, from an index on up to the first that is not.
pub open spec fn whole_count(
    headers: Seq<ChangeHeader>,
    rows: Seq<ChangeKeyRow<Seq<u8>>>,
    from: int,
) -> int
    decreases headers.len() - from,
{
    if 0 <= from < headers.len() && whole(headers, rows, from) {
        whole_count(headers, rows, from + 1)
    } else {
        from
    }
}

/// The whole changes before the first that is not.
pub open spec fn whole_events(
    filesystem_id: FilesystemId,
    headers: Seq<ChangeHeader>,
    rows: Seq<ChangeKeyRow<Seq<u8>>>,
) -> Seq<EventView> {
    Seq::new(
        whole_count(headers, rows, 0) as nat,
        |i: int| event_of(filesystem_id, headers, rows, i),
    )
}

/// Changes that were assembled, and why no more of them were.
#[derive(Clone, Debug, PartialEq, Eq)]
pub struct AssembledEvents {
    /// The whole changes before the first failure.
    pub events: Vec<ChangeEvent>,
    /// The first failure of the keys.
    pub failure: Option<FailureDetail>,
}

impl AssembledEvents {
    /// The first failure of the keys, as contracts speak of it.
    pub open spec fn failure_view(self) -> Option<DetailView> {
        match self.failure {
            Some(detail) => Some(detail@),
            None => None,
        }
    }
}

/// Assembles whole changes from their headers and keys, up to the first key
/// that is missing, unexpected or beyond the last change.
pub fn assemble_events(
    filesystem_id: FilesystemId,
    headers: &Vec<ChangeHeader>,
    rows: &Vec<ChangeKeyRow>,
) -> (result: AssembledEvents)
    ensures
        result.failure_view() == rows_failure(
            expected(headers@, headers@.len() as int),
            key_row_views(rows@),
            0,
        ),
        event_views(result.events@) == whole_events(
            filesystem_id,
            headers@,
            key_row_views(rows@),
        ),
        result.failure is None ==> result.events@.len() == headers@.len(),
{
    let ghost views = key_row_views(rows@);
    let ghost keys = expected(headers@, headers@.len() as int);
    let mut events: Vec<ChangeEvent> = Vec::new();
    let mut position: usize = 0;
    let mut index: usize = 0;
    let count: usize = rows.len();
    proof {
        lemma_expected_length(headers@, headers@.len() as int);
    }
    while index < headers.len()
        invariant
            index <= headers@.len(),
            count == rows@.len(),
            position <= count,
            views == key_row_views(rows@),
            views.len() == count,
            keys == expected(headers@, headers@.len() as int),
            keys.len() == key_total(headers@, headers@.len() as int),
            position == key_total(headers@, index as int),
            rows_failure(keys, views, 0) == rows_failure(keys, views, position as int),
            whole_count(headers@, views, 0) == whole_count(headers@, views, index as int),
            events@.len() == index,
            forall|i: int|
                0 <= i < index ==> (#[trigger] events@[i])@ == event_of(
                    filesystem_id,
                    headers@,
                    views,
                    i,
                ),
        decreases headers@.len() - index,
    {
        let header = headers[index];
        let mut found: Vec<RecordKey> = Vec::new();
        let mut ordinal: u32 = 0;
        let ghost base = position as int;
        while ordinal < header.key_count
            invariant
                index < headers@.len(),
                header == headers@[index as int],
                ordinal <= header.key_count,
                count == rows@.len(),
                position <= count,
                position == base + ordinal,
                base == key_total(headers@, index as int),
                views == key_row_views(rows@),
                views.len() == count,
                keys == expected(headers@, headers@.len() as int),
                rows_failure(keys, views, 0) == rows_failure(keys, views, position as int),
                whole_count(headers@, views, 0) == whole_count(headers@, views, index as int),
                events@.len() == index,
                forall|i: int|
                    0 <= i < index ==> (#[trigger] events@[i])@ == event_of(
                        filesystem_id,
                        headers@,
                        views,
                        i,
                    ),
                forall|k: int|
                    0 <= k < ordinal ==> (#[trigger] row_gap(keys, views, base + k)) is None,
                found@.len() == ordinal,
                forall|k: int|
                    0 <= k < ordinal ==> (#[trigger] found@[k])@ == views[base + k].key,
            decreases header.key_count - ordinal,
        {
            proof {
                lemma_expected_at(headers@, index as int, ordinal as int);
            }
            if position >= count {
                assert(row_gap(keys, views, base + ordinal) is Some);
                assert(!whole(headers@, views, index as int));
                assert(event_views(events@) =~= whole_events(filesystem_id, headers@, views));
                let failure = FailureDetail {
                    context: "",
                    cause: FailureCause::FewerKeys {
                        revision: header.revision.value,
                        count: header.key_count,
                    },
                };
                return AssembledEvents { events, failure: Some(failure) };
            }
            assert(views[position as int] == rows@[position as int]@);
            let row = &rows[position];
            if row.revision.value != header.revision.value || row.ordinal != ordinal {
                assert(row_gap(keys, views, base + ordinal) is Some);
                assert(!whole(headers@, views, index as int));
                assert(event_views(events@) =~= whole_events(filesystem_id, headers@, views));
                let failure = FailureDetail {
                    context: "",
                    cause: FailureCause::UnexpectedKey {
                        revision: row.revision.value,
                        ordinal: row.ordinal,
                    },
                };
                return AssembledEvents { events, failure: Some(failure) };
            }
            assert(row_gap(keys, views, base + ordinal) is None);
            found.push(row.key.copied());
            assert(found@[ordinal as int]@ == views[base + ordinal].key);
            position = position + 1;
            ordinal = ordinal + 1;
        }
        let event = ChangeEvent {
            filesystem_id,
            revision: header.revision,
            origin: header.origin,
            keys: found,
        };
        assert(event@.keys =~= event_of(filesystem_id, headers@, views, index as int).keys) by {
            assert forall|k: int| 0 <= k < header.key_count implies event@.keys[k]
                == #[trigger] views[base + k].key by {
                assert(event@.keys[k] == found@[k]@);
            }
        }
        assert(event@ =~= event_of(filesystem_id, headers@, views, index as int));
        assert(whole(headers@, views, index as int));
        events.push(event);
        index = index + 1;
    }
    assert(event_views(events@) =~= whole_events(filesystem_id, headers@, views));
    let failure = if position < count {
        Some(
            FailureDetail {
                context: "change-key query returned rows beyond selected headers",
                cause: FailureCause::Plain,
            },
        )
    } else {
        None
    };
    AssembledEvents { events, failure }
}

} // verus!
