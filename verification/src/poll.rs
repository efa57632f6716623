//! One poll for changes, from statement to statement.
use vstd::prelude::*;

use crate::change;
use crate::change::{
    assemble_events, corruption, decode_header, decode_key_row, decode_revision,
    plan_headers, validate_receiver, ChangeBatch, ChangeCursor, ChangeEvent, ChangeHeader,
    ChangeKeyRow, ChangePoll, ChangePollOutcome, HeaderPlan, HeaderSelection, KeyColumns,
};
use crate::failure::{FailureCause, FailureDetail, PostgresStateError};
use crate::ids::{FilesystemId, StateRevision};
use crate::limits::StateLimits;
use crate::numeric;
use crate::statement;
use crate::statement::{query, PostgresQuery, SqlValue, StatementView};

verus! {

/// Columns of an authority head.
#[derive(Clone, Debug, PartialEq, Eq)]
pub struct HeadColumns {
    /// Column `current_revision`.
    pub current: String,
    /// Column `oldest_retained_revision`.
    pub oldest: String,
}

/// Columns of a header.
#[derive(Clone, Debug, PartialEq, Eq)]
pub struct HeaderColumns {
    /// Column `revision`.
    pub revision: String,
    /// Column `origin_kind`.
    pub origin_kind: i16,
    /// Column `origin_id`.
    pub origin_id: Vec<u8>,
    /// Column `key_count`.
    pub key_count: i32,
}

/// Why columns are no authority head.
pub open spec fn head_detail(row: HeadColumns) -> Option<change::DetailView> {
    change::earlier(
        change::head_revision_detail(
            "current_revision",
            "invalid current_revision",
            row.current@,
        ),
        change::earlier(
            change::head_revision_detail(
                "oldest_retained_revision",
                "invalid oldest_retained_revision",
                row.oldest@,
            ),
            if numeric::parsed(row.oldest@) > numeric::parsed(row.current@) {
                Some(
                    FailureDetail {
                        context: "oldest retained change revision exceeds current authority revision",
                        cause: FailureCause::Plain,
                    },
                )
            } else {
                None
            },
        ),
    )
}

/// The current and the oldest pollable revision of an authority; one without a
/// head is at its first revision.
pub open spec fn head_revisions(row: Option<HeadColumns>) -> (StateRevision, StateRevision) {
    match row {
        Some(row) => (
            StateRevision { value: numeric::parsed(row.current@) },
            StateRevision { value: numeric::parsed(row.oldest@) },
        ),
        None => (StateRevision { value: 1 }, StateRevision { value: 1 }),
    }
}

/// Reads an authority head.
pub fn decode_head(row: Option<&HeadColumns>) -> (result: Result<
    (StateRevision, StateRevision),
    FailureDetail,
>)
    ensures
        match row {
            None => result == Ok::<(StateRevision, StateRevision), FailureDetail>(
                head_revisions(None),
            ),
            Some(row) => match result {
                Ok(revisions) => head_detail(*row) is None && revisions == head_revisions(
                    Some(*row),
                ),
                Err(detail) => head_detail(*row) == Some(detail@),
            },
        },
{
    match row {
        None => Ok((StateRevision { value: 1 }, StateRevision { value: 1 })),
        Some(row) => {
            let current = decode_revision(
                "current_revision",
                "invalid current_revision",
                row.current.as_str(),
            )?;
            let oldest = decode_revision(
                "oldest_retained_revision",
                "invalid oldest_retained_revision",
                row.oldest.as_str(),
            )?;
            if oldest.value > current.value {
                return Err(
                    FailureDetail {
                        context: "oldest retained change revision exceeds current authority revision",
                        cause: FailureCause::Plain,
                    },
                );
            }
            Ok((current, oldest))
        },
    }
}

/// The failure of the first corrupt header from an index on.
pub open spec fn headers_detail(rows: Seq<HeaderColumns>, from: int) -> Option<change::DetailView>
    decreases rows.len() - from,
{
    if 0 <= from < rows.len() {
        change::earlier(
            change::header_detail(
                rows[from].revision@,
                rows[from].origin_kind,
                rows[from].origin_id@,
                rows[from].key_count,
            ),
            headers_detail(rows, from + 1),
        )
    } else {
        None
    }
}

/// The headers that rows spell.
pub open spec fn row_headers(rows: Seq<HeaderColumns>) -> Seq<ChangeHeader> {
    rows.map_values(
        |row: HeaderColumns|
            change::header_of(row.revision@, row.origin_kind, row.origin_id@, row.key_count),
    )
}

/// Reads headers.
pub fn decode_headers(rows: &Vec<HeaderColumns>) -> (result: Result<
    Vec<ChangeHeader>,
    FailureDetail,
>)
    ensures
        match result {
            Ok(headers) => headers_detail(rows@, 0) is None && headers@ == row_headers(rows@),
            Err(detail) => headers_detail(rows@, 0) == Some(detail@),
        },
{
    let mut headers: Vec<ChangeHeader> = Vec::new();
    let mut index: usize = 0;
    while index < rows.len()
        invariant
            index <= rows@.len(),
            headers@.len() == index,
            forall|i: int| 0 <= i < index ==> #[trigger] headers@[i] == row_headers(rows@)[i],
            headers_detail(rows@, 0) == headers_detail(rows@, index as int),
        decreases rows@.len() - index,
    {
        let row = &rows[index];
        let header = decode_header(
            row.revision.as_str(),
            row.origin_kind,
            &row.origin_id,
            row.key_count,
        )?;
        headers.push(header);
        index = index + 1;
    }
    assert(headers@ =~= row_headers(rows@));
    Ok(headers)
}

/// The failure of the first corrupt key from an index on.
pub open spec fn keys_detail(
    filesystem_id: FilesystemId,
    rows: Seq<KeyColumns>,
    limits: StateLimits,
    from: int,
) -> Option<change::DetailView>
    decreases rows.len() - from,
{
    if 0 <= from < rows.len() {
        change::earlier(
            change::key_row_detail(filesystem_id, rows[from], limits),
            keys_detail(filesystem_id, rows, limits, from + 1),
        )
    } else {
        None
    }
}

/// The keys that rows spell.
pub open spec fn row_keys(filesystem_id: FilesystemId, rows: Seq<KeyColumns>) -> Seq<
    ChangeKeyRow<Seq<u8>>,
> {
    rows.map_values(|row: KeyColumns| change::key_row_of(filesystem_id, row))
}

/// Reads keys.
pub fn decode_keys(filesystem_id: FilesystemId, rows: &Vec<KeyColumns>, limits: StateLimits) -> (result:
    Result<Vec<ChangeKeyRow>, FailureDetail>)
    ensures
        match result {
            Ok(keys) => keys_detail(filesystem_id, rows@, limits, 0) is None
                && change::key_row_views(keys@) == row_keys(filesystem_id, rows@),
            Err(detail) => keys_detail(filesystem_id, rows@, limits, 0) == Some(detail@),
        },
{
    let mut keys: Vec<ChangeKeyRow> = Vec::new();
    let mut index: usize = 0;
    while index < rows.len()
        invariant
            index <= rows@.len(),
            keys@.len() == index,
            forall|i: int|
                0 <= i < index ==> (#[trigger] keys@[i])@ == row_keys(filesystem_id, rows@)[i],
            keys_detail(filesystem_id, rows@, limits, 0) == keys_detail(
                filesystem_id,
                rows@,
                limits,
                index as int,
            ),
        decreases rows@.len() - index,
    {
        let row = decode_key_row(filesystem_id, &rows[index], limits)?;
        keys.push(row);
        index = index + 1;
    }
    assert(change::key_row_views(keys@) =~= row_keys(filesystem_id, rows@));
    Ok(keys)
}

/// Where a poll stands.
#[derive(Clone, Copy, Debug, PartialEq, Eq, Structural)]
pub enum PollPhase {
    /// The authority head is read.
    Head,
    /// Headers are read.
    Headers,
    /// Keys are read.
    Keys,
    /// Each assembled change is judged.
    Events,
    /// The changes together are judged.
    Verdict,
    /// The poll is over.
    Finished,
}

/// What a poll wants done next.
#[derive(Clone, Debug)]
pub enum PollAction {
    /// Run a statement and hand back what it finds.
    Fetch(PostgresQuery),
    /// Put each assembled change to the rules of the state contract, in order.
    JudgeEvents,
    /// Put the changes together to the rules of the state contract.
    Judge,
    /// End the transaction and answer.
    Finish,
}

/// What a poll fails with when a change is refused.
pub open spec fn event_refusal(text: Seq<char>) -> change::DetailView {
    FailureDetail {
        context: "invalid decoded change event",
        cause: FailureCause::Refusal(text),
    }
}

/// What a poll fails with when its changes together are refused.
pub open spec fn batch_refusal(text: Seq<char>) -> change::DetailView {
    FailureDetail {
        context: "invalid decoded change batch",
        cause: FailureCause::Refusal(text),
    }
}

/// One poll for changes.
pub struct PollRun {
    /// The request.
    pub request: ChangePoll,
    /// Limits of the receiver.
    pub limits: StateLimits,
    /// Current revision of the authority.
    pub current: StateRevision,
    /// Headers of the changes to return.
    pub selected: Vec<ChangeHeader>,
    /// Changes that were assembled from their keys.
    pub events: Vec<ChangeEvent>,
    /// Why no further change could be assembled.
    pub failure: Option<FailureDetail>,
    /// Answer, once there is one.
    pub outcome: Option<ChangePollOutcome>,
    /// Where the poll stands.
    pub phase: PollPhase,
}

/// The answer to a position that the authority has not reached or no longer
/// retains what follows.
pub open spec fn position_answer(
    request: ChangePoll,
    current: StateRevision,
    oldest: StateRevision,
) -> Option<ChangePollOutcome> {
    if request.after.revision.value > current.value {
        Some(
            ChangePollOutcome::RevisionUnavailable { requested: request.after.revision, current },
        )
    } else if request.after.revision.value < oldest.value {
        Some(
            ChangePollOutcome::RevisionCompacted {
                oldest_available: oldest,
                current_revision: current,
            },
        )
    } else {
        None
    }
}

/// The statement that reads headers of a poll.
pub open spec fn headers_query(request: ChangePoll, current: StateRevision) -> StatementView {
    statement::text_only(change::CHANGE_HEADERS_SQL@).with_id(
        request.filesystem_id.value,
    ).with_number(request.after.revision.value).with_number(current.value).with(
        SqlValue::Int8(Some(request.max_events as i64)),
    )
}

/// The statement that reads the keys of selected changes, and one more.
pub open spec fn keys_query(request: ChangePoll, headers: Seq<ChangeHeader>) -> StatementView {
    statement::text_only(change::CHANGE_KEYS_SQL@).with_id(request.filesystem_id.value).with_number(
        request.after.revision.value,
    ).with_number(headers.last().revision.value).with(
        SqlValue::Int8(Some((change::key_total(headers, headers.len() as int) + 1) as i64)),
    )
}

impl PollRun {
    /// The poll is consistent: keys are read for at least one selected change,
    /// only changes are judged, and a poll that is over has an answer.
    pub open spec fn well_formed(self) -> bool {
        match self.phase {
            PollPhase::Keys => self.selected@.len() > 0 && change::key_total(
                self.selected@,
                self.selected@.len() as int,
            ) <= u32::MAX,
            PollPhase::Events => self.selected@.len() > 0,
            PollPhase::Verdict => self.outcome matches Some(ChangePollOutcome::Changes(_)),
            PollPhase::Finished => self.outcome is Some,
            _ => true,
        }
    }

    /// Two states of one poll serve the same request.
    pub open spec fn same_request(self, other: Self) -> bool {
        self.request == other.request && self.limits == other.limits
    }

    /// Why no further change could be assembled, as contracts speak of it.
    pub open spec fn failure_view(self) -> Option<change::DetailView> {
        match self.failure {
            Some(detail) => Some(detail@),
            None => None,
        }
    }

    /// The poll fails.
    pub open spec fn fails(
        result: Result<PollAction, PostgresStateError>,
        detail: change::DetailView,
    ) -> bool {
        result is Err && result->Err_0@ == change::poll_corruption(detail)
    }

    /// The poll runs a statement.
    pub open spec fn fetches(
        result: Result<PollAction, PostgresStateError>,
        statement: StatementView,
    ) -> bool {
        result matches Ok(PollAction::Fetch(fetched)) && fetched@ == statement
    }

    /// The poll ends with an answer.
    pub open spec fn ends(
        self,
        result: Result<PollAction, PostgresStateError>,
        outcome: ChangePollOutcome,
    ) -> bool {
        &&& result matches Ok(PollAction::Finish)
        &&& self.well_formed()
        &&& self.phase == PollPhase::Finished
        &&& self.outcome == Some(outcome)
    }

    /// The poll has changes to be judged.
    pub open spec fn delivers(
        self,
        result: Result<PollAction, PostgresStateError>,
        events: Seq<change::EventView>,
        next: StateRevision,
    ) -> bool {
        &&& result matches Ok(PollAction::Judge)
        &&& self.well_formed()
        &&& self.phase == PollPhase::Verdict
        &&& self.outcome matches Some(ChangePollOutcome::Changes(batch)) && change::event_views(
            batch.events@,
        ) == events && batch.next.revision == next && batch.current == self.current
    }

    /// Starts a poll, or answers that it exceeds a limit.
    pub fn start(request: ChangePoll, limits: StateLimits) -> (result: Result<
        (Self, PollAction),
        ChangePollOutcome,
    >)
        ensures
            match change::poll_failure(request, limits) {
                Some(error) => result == Err::<(Self, PollAction), ChangePollOutcome>(
                    ChangePollOutcome::MalformedRequest(error),
                ),
                None => {
                    &&& result is Ok
                    &&& result->Ok_0.0.well_formed()
                    &&& result->Ok_0.0.request == request
                    &&& result->Ok_0.0.limits == limits
                    &&& result->Ok_0.0.phase == PollPhase::Head
                    &&& Self::fetches(
                        Ok(result->Ok_0.1),
                        statement::text_only(change::AUTHORITY_HEAD_SQL@).with_id(
                            request.filesystem_id.value,
                        ),
                    )
                },
            },
    {
        match validate_receiver(request, limits) {
            Ok(()) => {},
            Err(error) => {
                return Err(ChangePollOutcome::MalformedRequest(error));
            },
        }
        Ok(
            (
                PollRun {
                    request,
                    limits,
                    current: StateRevision { value: 1 },
                    selected: Vec::new(),
                    events: Vec::new(),
                    failure: None,
                    outcome: None,
                    phase: PollPhase::Head,
                },
                PollAction::Fetch(
                    query(change::AUTHORITY_HEAD_SQL).bind_id(request.filesystem_id.value),
                ),
            ),
        )
    }

    fn end(&mut self, outcome: ChangePollOutcome) -> (result: PollAction)
        ensures
            final(self).same_request(*old(self)),
            final(self).current == old(self).current,
            final(self).ends(Ok(result), outcome),
    {
        self.outcome = Some(outcome);
        self.phase = PollPhase::Finished;
        PollAction::Finish
    }

    fn deliver(&mut self, batch: ChangeBatch) -> (result: PollAction)
        ensures
            final(self).same_request(*old(self)),
            final(self).current == old(self).current,
            result is Judge,
            final(self).phase == PollPhase::Verdict,
            final(self).outcome == Some(ChangePollOutcome::Changes(batch)),
    {
        self.outcome = Some(ChangePollOutcome::Changes(batch));
        self.phase = PollPhase::Verdict;
        PollAction::Judge
    }

    /// The poll answers from the head, or reads the headers.
    pub open spec fn after_head(
        self,
        after: Self,
        result: Result<PollAction, PostgresStateError>,
        row: Option<&HeadColumns>,
    ) -> bool {
        let request = self.request;
        let found = match row {
            Some(row) => Some(*row),
            None => None,
        };
        let detail = match row {
            Some(row) => head_detail(*row),
            None => None,
        };
        let (current, oldest) = head_revisions(found);
        match detail {
            Some(detail) => Self::fails(result, detail),
            None => {
                &&& after.current == current
                &&& match position_answer(request, current, oldest) {
                    Some(outcome) => after.ends(result, outcome),
                    None => {
                        &&& after.well_formed()
                        &&& after.phase == PollPhase::Headers
                        &&& Self::fetches(result, headers_query(request, current))
                    },
                }
            },
        }
    }

    /// Takes the authority head. A position that the authority has not reached
    /// or no longer retains is answered at once.
    pub fn head(&mut self, row: Option<&HeadColumns>) -> (result: Result<
        PollAction,
        PostgresStateError,
    >)
        requires
            old(self).well_formed(),
            old(self).phase == PollPhase::Head,
        ensures
            final(self).same_request(*old(self)),
            old(self).after_head(*final(self), result, row),
    {
        let request = self.request;
        let (current, oldest) = match decode_head(row) {
            Ok(revisions) => revisions,
            Err(detail) => {
                return Err(corruption(detail));
            },
        };
        self.current = current;
        let requested = request.after.revision;
        if requested.value > current.value {
            return Ok(self.end(ChangePollOutcome::RevisionUnavailable { requested, current }));
        }
        if requested.value < oldest.value {
            return Ok(
                self.end(
                    ChangePollOutcome::RevisionCompacted {
                        oldest_available: oldest,
                        current_revision: current,
                    },
                ),
            );
        }
        self.phase = PollPhase::Headers;
        let maximum: i64 = request.max_events as i64;
        Ok(
            PollAction::Fetch(
                query(change::CHANGE_HEADERS_SQL).bind_id(request.filesystem_id.value).bind_number(
                    requested.value,
                ).bind_number(current.value).bind(SqlValue::Int8(Some(maximum))),
            ),
        )
    }

    /// The poll answers from the headers, or reads their keys.
    pub open spec fn after_headers(
        self,
        after: Self,
        result: Result<PollAction, PostgresStateError>,
        rows: Seq<HeaderColumns>,
    ) -> bool {
        match headers_detail(rows, 0) {
            Some(detail) => Self::fails(result, detail),
            None => match change::header_selection(
                self.request,
                self.current,
                row_headers(rows),
            ) {
                Err(detail) => Self::fails(result, detail),
                Ok(HeaderSelection::PollBoundTooSmall { revision, required_keys }) => {
                    after.ends(
                        result,
                        ChangePollOutcome::PollBoundTooSmall { revision, required_keys },
                    )
                },
                Ok(HeaderSelection::Selected(selected)) => if selected.len() == 0 {
                    after.delivers(
                        result,
                        Seq::empty(),
                        self.request.after.revision,
                    )
                } else {
                    &&& after.well_formed()
                    &&& after.phase == PollPhase::Keys
                    &&& after.selected@ == selected
                    &&& Self::fetches(result, keys_query(self.request, selected))
                },
            },
        }
    }

    /// Takes headers, and goes on to the keys of those that the poll returns.
    pub fn headers(&mut self, rows: &Vec<HeaderColumns>) -> (result: Result<
        PollAction,
        PostgresStateError,
    >)
        requires
            old(self).well_formed(),
            old(self).phase == PollPhase::Headers,
        ensures
            final(self).same_request(*old(self)),
            final(self).current == old(self).current,
            old(self).after_headers(*final(self), result, rows@),
    {
        let request = self.request;
        let headers = match decode_headers(rows) {
            Ok(headers) => headers,
            Err(detail) => {
                return Err(corruption(detail));
            },
        };
        let ghost all = headers@;
        let selected = match plan_headers(&request, self.current, headers) {
            Ok(HeaderPlan::Selected(selected)) => selected,
            Ok(HeaderPlan::PollBoundTooSmall { revision, required_keys }) => {
                return Ok(
                    self.end(ChangePollOutcome::PollBoundTooSmall { revision, required_keys }),
                );
            },
            Err(detail) => {
                return Err(corruption(detail));
            },
        };
        let count: usize = selected.len();
        if count == 0 {
            let events: Vec<ChangeEvent> = Vec::new();
            assert(change::event_views(events@) =~= Seq::empty());
            let batch = ChangeBatch { events, next: request.after, current: self.current };
            return Ok(self.deliver(batch));
        }
        proof {
            change::law_polls_are_contiguous(request, self.current, all, 0);
        }
        let mut total: u32 = 0;
        let mut index: usize = 0;
        while index < count
            invariant
                index <= count,
                count == selected@.len(),
                total == change::key_total(selected@, index as int),
                change::key_total(selected@, count as int) <= u32::MAX,
            decreases count - index,
        {
            proof {
                lemma_key_total_monotonic(selected@, index as int + 1, count as int);
                reveal_with_fuel(change::key_total, 2);
            }
            total = total + selected[index].key_count;
            index = index + 1;
        }
        let statement = query(change::CHANGE_KEYS_SQL).bind_id(
            request.filesystem_id.value,
        ).bind_number(request.after.revision.value).bind_number(
            selected[count - 1].revision.value,
        ).bind(SqlValue::Int8(Some(total as i64 + 1)));
        self.selected = selected;
        self.phase = PollPhase::Keys;
        Ok(PollAction::Fetch(statement))
    }

    /// The poll has the events of its headers judged.
    pub open spec fn after_keys(
        self,
        after: Self,
        result: Result<PollAction, PostgresStateError>,
        rows: Seq<KeyColumns>,
    ) -> bool {
        let fs = self.request.filesystem_id;
        let selected = self.selected@;
        let keys = row_keys(fs, rows);
        match keys_detail(fs, rows, self.limits, 0) {
            Some(detail) => Self::fails(result, detail),
            None => {
                &&& result matches Ok(PollAction::JudgeEvents)
                &&& after.well_formed()
                &&& after.phase == PollPhase::Events
                &&& after.failure_view() == change::rows_failure(
                    change::expected(selected, selected.len() as int),
                    keys,
                    0,
                )
                &&& change::event_views(after.events@) == change::whole_events(
                    fs,
                    selected,
                    keys,
                )
                &&& after.failure is None ==> after.events@.len()
                    == selected.len()
            },
        }
    }

    /// Takes the keys of the selected changes. The changes before the first
    /// missing, unexpected or surplus key are put to the rules before that key
    /// is reported.
    pub fn keys(&mut self, rows: &Vec<KeyColumns>) -> (result: Result<
        PollAction,
        PostgresStateError,
    >)
        requires
            old(self).well_formed(),
            old(self).phase == PollPhase::Keys,
        ensures
            final(self).same_request(*old(self)),
            final(self).current == old(self).current,
            final(self).selected == old(self).selected,
            old(self).after_keys(*final(self), result, rows@),
    {
        let fs = self.request.filesystem_id;
        let keys = match decode_keys(fs, rows, self.limits) {
            Ok(keys) => keys,
            Err(detail) => {
                return Err(corruption(detail));
            },
        };
        let assembled = assemble_events(fs, &self.selected, &keys);
        self.events = assembled.events;
        self.failure = assembled.failure;
        self.phase = PollPhase::Events;
        Ok(PollAction::JudgeEvents)
    }

    /// The poll delivers events that were not refused.
    pub open spec fn after_events(
        self,
        after: Self,
        result: Result<PollAction, PostgresStateError>,
        refusal: Option<String>,
    ) -> bool {
        match refusal {
            Some(text) => Self::fails(result, event_refusal(text@)),
            None => match self.failure_view() {
                Some(detail) => Self::fails(result, detail),
                None => after.delivers(
                    result,
                    change::event_views(self.events@),
                    self.selected@.last().revision,
                ),
            },
        }
    }

    /// Takes the first refusal of an assembled change. A refused change is
    /// corruption; without one the first failure of the keys is reported, and
    /// without that the changes together are judged.
    pub fn events_judged(&mut self, refusal: Option<String>) -> (result: Result<
        PollAction,
        PostgresStateError,
    >)
        requires
            old(self).well_formed(),
            old(self).phase == PollPhase::Events,
        ensures
            final(self).same_request(*old(self)),
            final(self).current == old(self).current,
            old(self).after_events(*final(self), result, refusal),
    {
        match refusal {
            Some(text) => {
                return Err(
                    corruption(
                        FailureDetail {
                            context: "invalid decoded change event",
                            cause: FailureCause::Refusal(text),
                        },
                    ),
                );
            },
            None => {},
        }
        match self.failure.take() {
            Some(detail) => {
                return Err(corruption(detail));
            },
            None => {},
        }
        let mut events: Vec<ChangeEvent> = Vec::new();
        std::mem::swap(&mut events, &mut self.events);
        let count: usize = self.selected.len();
        let next = ChangeCursor { revision: self.selected[count - 1].revision };
        let batch = ChangeBatch { events, next, current: self.current };
        Ok(self.deliver(batch))
    }

    /// The poll ends with a batch that was not refused.
    pub open spec fn after_verdict(
        self,
        after: Self,
        result: Result<PollAction, PostgresStateError>,
        refusal: Option<String>,
    ) -> bool {
        match refusal {
            Some(text) => Self::fails(result, batch_refusal(text@)),
            None => {
                &&& result matches Ok(PollAction::Finish)
                &&& after.well_formed()
                &&& after.phase == PollPhase::Finished
            },
        }
    }

    /// Takes the verdict on the changes together: a refusal is corruption, and
    /// changes that are not refused are the answer.
    pub fn judged(&mut self, refusal: Option<String>) -> (result: Result<
        PollAction,
        PostgresStateError,
    >)
        requires
            old(self).well_formed(),
            old(self).phase == PollPhase::Verdict,
        ensures
            final(self).same_request(*old(self)),
            final(self).current == old(self).current,
            final(self).outcome == old(self).outcome,
            old(self).after_verdict(*final(self), result, refusal),
    {
        match refusal {
            Some(text) => Err(
                corruption(
                    FailureDetail {
                        context: "invalid decoded change batch",
                        cause: FailureCause::Refusal(text),
                    },
                ),
            ),
            None => {
                self.phase = PollPhase::Finished;
                Ok(PollAction::Finish)
            },
        }
    }

    /// The answer of a poll that is over.
    pub fn finish(self) -> (result: ChangePollOutcome)
        requires
            self.well_formed(),
            self.phase == PollPhase::Finished,
        ensures
            self.outcome == Some(result),
    {
        match self.outcome {
            Some(outcome) => outcome,
            None => ChangePollOutcome::RevisionUnavailable {
                requested: self.request.after.revision,
                current: self.current,
            },
        }
    }
}

proof fn lemma_key_total_monotonic(headers: Seq<ChangeHeader>, low: int, high: int)
    requires
        low <= high,
    ensures
        change::key_total(headers, low) <= change::key_total(headers, high),
    decreases high - low,
{
    if low < high {
        lemma_key_total_monotonic(headers, low, high - 1);
    }
}

} // verus!
