//! One snapshot read, from statement to statement.
//!
//! A read checks its batch against the receiver's limits, learns the revision
//! of the snapshot, answers one query after the other and ends with one answer
//! per query. A page that cannot hold its first item ends the read early.
use vstd::prelude::*;

use crate::directory_page;
use crate::directory_page::{assemble_directory_page, DirectoryPageRow, PageOutcome};
use crate::failure::{
    FailureCause, PostgresStateError, StateFailure, StateStoreOperation,
};
use crate::ids::{FileId, FilesystemId, InodeId, InvalidValue, QidPath, StateRevision};
use crate::key;
use crate::key::RecordKey;
use crate::key_codec;
use crate::limits;
use crate::limits::{require_bytes, require_count, StateLimitError, StateLimitKind, StateLimits};
use crate::numeric;
use crate::numeric::{decode_u64, NumericCodecError};
use crate::query;
use crate::query::{
    validate_key_limits, ReadBatch, ReadConsistency, ReadOutcome, ReadQuery, ReadResult,
    RecordScan, ResultView, ScanBounds, ScanPage, ScanPageView, ScanResume, StateSnapshot,
};
use crate::read_sql;
use crate::read_sql::{
    directory_page_statement, path_statement, pin_count_statement, point_statement,
    revision_statement, scan_statement,
};
use crate::record;
use crate::record::{InodeRecord, StateRecord};
use crate::row_codec;
use crate::rows::SqlStateRecord;
use crate::scan;
use crate::scan::{
    check_announced, corruption, decode_scan_candidate, plan_scan_candidates, CandidatePlan,
    CandidateRow, PlanView, ScanCandidate,
};
use crate::statement;
use crate::statement::{PostgresQuery, StatementView};
use crate::values;

verus! {

/// A row as contracts speak of it.
pub type RowView = SqlStateRecord<Seq<u8>, Seq<char>>;

/// The bounds of a query that reads a page.
pub open spec fn query_bounds(q: ReadQuery<Seq<u8>>) -> Option<ScanBounds> {
    match q {
        ReadQuery::Scan(scan) => Some(query::scan_bounds(scan)),
        ReadQuery::DirectoryPage { bounds, .. } => Some(bounds),
        _ => None,
    }
}

/// The limit that a query exceeds.
pub open spec fn query_failure(
    q: ReadQuery<Seq<u8>>,
    filesystem_id: FilesystemId,
    limits: StateLimits,
) -> Option<StateLimitError> {
    let by_key = match query::query_key(q, filesystem_id) {
        Some(k) => query::key_limit_failure(k, limits),
        None => None,
    };
    let by_bounds = match query_bounds(q) {
        Some(bounds) => values::first_failure(
            limits::limit_failure(
                StateLimitKind::ScanItems,
                bounds.max_items as nat,
                limits.values.max_scan_items as nat,
            ),
            limits::limit_failure(
                StateLimitKind::ScanBytes,
                bounds.max_bytes as nat,
                limits.values.max_scan_bytes as nat,
            ),
        ),
        None => None,
    };
    let by_cursor = match q {
        ReadQuery::Scan(RecordScan::Xattrs { after: Some(cursor), .. }) => limits::limit_failure(
            StateLimitKind::XattrName,
            cursor.name.bytes.len(),
            limits.values.max_xattr_name_bytes as nat,
        ),
        _ => None,
    };
    values::first_failure(by_key, values::first_failure(by_bounds, by_cursor))
}

/// The first limit that queries exceed, from an index on.
pub open spec fn queries_failure(
    queries: Seq<ReadQuery<Seq<u8>>>,
    filesystem_id: FilesystemId,
    limits: StateLimits,
    from: int,
) -> Option<StateLimitError>
    decreases queries.len() - from,
{
    if 0 <= from < queries.len() {
        values::first_failure(
            query_failure(queries[from], filesystem_id, limits),
            queries_failure(queries, filesystem_id, limits, from + 1),
        )
    } else {
        None
    }
}

/// The first limit that a batch exceeds.
pub open spec fn batch_failure(request: ReadBatch, limits: StateLimits) -> Option<StateLimitError> {
    values::first_failure(
        limits::limit_failure(
            StateLimitKind::ReadQueries,
            request.queries@.len(),
            limits.values.max_read_queries as nat,
        ),
        queries_failure(request.query_seq(), request.filesystem_id, limits, 0),
    )
}

fn validate_query(q: &ReadQuery, filesystem_id: FilesystemId, limits: StateLimits) -> (result: Result<
    (),
    StateLimitError,
>)
    ensures
        result == limits::checked(query_failure(q@, filesystem_id, limits)),
{
    match q.point_key(filesystem_id) {
        Some(k) => {
            validate_key_limits(&k, limits)?;
        },
        None => {},
    }
    let bounds = match q {
        ReadQuery::Scan(scan) => Some(scan.bounds()),
        ReadQuery::DirectoryPage { bounds, .. } => Some(*bounds),
        _ => None,
    };
    match bounds {
        Some(bounds) => {
            require_count(
                StateLimitKind::ScanItems,
                bounds.max_items as usize,
                limits.max_scan_items(),
            )?;
            require_bytes(
                StateLimitKind::ScanBytes,
                bounds.max_bytes,
                limits.max_scan_bytes(),
            )?;
        },
        None => {},
    }
    match q {
        ReadQuery::Scan(RecordScan::Xattrs { after: Some(cursor), .. }) => require_bytes(
            StateLimitKind::XattrName,
            cursor.name.bytes.len(),
            limits.max_xattr_name_bytes(),
        ),
        _ => Ok(()),
    }
}

/// Checks a batch against the receiver's limits.
pub fn validate_read_request(request: &ReadBatch, limits: StateLimits) -> (result: Result<
    (),
    StateLimitError,
>)
    ensures
        result == limits::checked(batch_failure(*request, limits)),
{
    require_count(StateLimitKind::ReadQueries, request.queries.len(), limits.max_read_queries())?;
    let mut index: usize = 0;
    while index < request.queries.len()
        invariant
            index <= request.queries@.len(),
            limits::limit_failure(
                StateLimitKind::ReadQueries,
                request.queries@.len(),
                limits.values.max_read_queries as nat,
            ) is None,
            batch_failure(*request, limits) == queries_failure(
                request.query_seq(),
                request.filesystem_id,
                limits,
                index as int,
            ),
        decreases request.queries@.len() - index,
    {
        assert(request.query_seq()[index as int] == request.queries@[index as int]@);
        validate_query(&request.queries[index], request.filesystem_id, limits)?;
        index = index + 1;
    }
    Ok(())
}

/// Why a row is not the record with a key.
pub open spec fn point_failure(
    k: RecordKey<Seq<u8>>,
    row: Option<RowView>,
    limits: StateLimits,
) -> Option<StateFailure> {
    match row {
        None => None,
        Some(row) => match row_codec::row_failure(row, limits) {
            Some(error) => Some(
                scan::read_corruption("invalid public record row", FailureCause::Row(error)),
            ),
            None => if row_codec::row_key(row) != k {
                Some(
                    scan::read_corruption(
                        "point row key mismatch",
                        FailureCause::Mismatch { expected: k, actual: row_codec::row_key(row) },
                    ),
                )
            } else {
                None
            },
        },
    }
}

/// The record that an optional row spells.
pub open spec fn row_record(row: Option<RowView>) -> Option<StateRecord<Seq<u8>, Seq<char>>> {
    match row {
        Some(row) => Some(row_codec::row_record(row)),
        None => None,
    }
}

/// An optional row as contracts speak of it.
pub open spec fn row_view(row: Option<&SqlStateRecord>) -> Option<RowView> {
    match row {
        Some(row) => Some(row@),
        None => None,
    }
}

fn decode_sql_record(row: &SqlStateRecord, limits: StateLimits) -> (result: Result<
    (RecordKey, StateRecord),
    PostgresStateError,
>)
    ensures
        match result {
            Ok(pair) => {
                &&& row_codec::row_failure(row@, limits) is None
                &&& pair.0@ == row_codec::row_key(row@)
                &&& pair.1@ == row_codec::row_record(row@)
            },
            Err(error) => {
                &&& row_codec::row_failure(row@, limits) is Some
                &&& error@ == scan::read_corruption(
                    "invalid public record row",
                    FailureCause::Row(row_codec::row_failure(row@, limits)->0),
                )
            },
        },
{
    match row.decode(limits) {
        Ok(pair) => Ok(pair),
        Err(error) => Err(corruption("invalid public record row", FailureCause::Row(error))),
    }
}

/// Reads the record with a key from its row.
pub fn read_point(k: &RecordKey, row: Option<&SqlStateRecord>, limits: StateLimits) -> (result:
    Result<Option<StateRecord>, PostgresStateError>)
    ensures
        match result {
            Ok(record) => {
                &&& point_failure(k@, row_view(row), limits) is None
                &&& query::optional_record(record) == row_record(row_view(row))
                &&& record is Some ==> record::key_failure(k@, record->0@) is None
            },
            Err(error) => point_failure(k@, row_view(row), limits) == Some(error@),
        },
{
    match row {
        None => Ok(None),
        Some(row) => {
            let (actual, record) = decode_sql_record(row, limits)?;
            if !actual.same(k) {
                return Err(
                    corruption(
                        "point row key mismatch",
                        FailureCause::Mismatch { expected: k.copied(), actual },
                    ),
                );
            }
            Ok(Some(record))
        },
    }
}

/// Reads one record on behalf of an operation.
pub fn fetch_record(
    k: &RecordKey,
    row: Option<&SqlStateRecord>,
    limits: StateLimits,
    operation: StateStoreOperation,
) -> (result: Result<Option<StateRecord>, PostgresStateError>)
    ensures
        match result {
            Ok(record) => {
                &&& point_failure(k@, row_view(row), limits) is None
                &&& query::optional_record(record) == row_record(row_view(row))
                &&& record is Some ==> record::key_failure(k@, record->0@) is None
                &&& record is Some ==> row_codec::encodable(record->0@)
            },
            Err(error) => {
                &&& point_failure(k@, row_view(row), limits) is Some
                &&& error@ == (StateFailure {
                    operation,
                    ..point_failure(k@, row_view(row), limits)->0
                })
            },
        },
{
    match read_point(k, row, limits) {
        Ok(record) => Ok(record),
        Err(error) => Err(error.with_operation(operation)),
    }
}

/// Why an optional text is no authority revision.
pub open spec fn authority_failure(text: Option<Seq<char>>) -> Option<StateFailure> {
    match text {
        None => None,
        Some(text) => if !numeric::parses(text) {
            Some(
                scan::read_corruption(
                    "invalid authority revision",
                    FailureCause::Numeric(
                        NumericCodecError { field: "current_revision", value: text },
                    ),
                ),
            )
        } else if numeric::parsed(text) == 0 {
            Some(
                scan::read_corruption(
                    "invalid authority revision",
                    FailureCause::Value(InvalidValue::Zero),
                ),
            )
        } else {
            None
        },
    }
}

/// The authority revision that an optional text spells; an authority without a
/// head is at its first revision.
pub open spec fn authority_revision(text: Option<Seq<char>>) -> StateRevision {
    match text {
        Some(text) => StateRevision { value: numeric::parsed(text) },
        None => StateRevision { value: 1 },
    }
}

/// An optional text as contracts speak of it.
pub open spec fn text_view(text: Option<&String>) -> Option<Seq<char>> {
    match text {
        Some(text) => Some(text@),
        None => None,
    }
}

/// Reads the revision of an authority.
pub fn decode_authority_revision(text: Option<&String>) -> (result: Result<
    StateRevision,
    PostgresStateError,
>)
    ensures
        match result {
            Ok(revision) => authority_failure(text_view(text)) is None && revision
                == authority_revision(text_view(text)) && revision.valid(),
            Err(error) => authority_failure(text_view(text)) == Some(error@),
        },
{
    match text {
        None => Ok(StateRevision { value: 1 }),
        Some(text) => match decode_u64("current_revision", text.as_str()) {
            Ok(value) => if value == 0 {
                Err(
                    corruption(
                        "invalid authority revision",
                        FailureCause::Value(InvalidValue::Zero),
                    ),
                )
            } else {
                Ok(StateRevision { value })
            },
            Err(error) => Err(
                corruption("invalid authority revision", FailureCause::Numeric(error)),
            ),
        },
    }
}

/// Where a read stands.
#[derive(Clone, Copy, Debug, PartialEq, Eq, Structural)]
pub enum ReadPhase {
    /// The revision of the snapshot is read.
    Revision,
    /// One record is read.
    Point,
    /// An inode is read by its path number.
    ByPath,
    /// The inode of a composite query is read.
    CompositeInode,
    /// The metadata of a composite query is read.
    CompositeMetadata,
    /// Pins are counted.
    Pins,
    /// A page of a directory is read.
    Page,
    /// The candidates of a scan are sized.
    Scan,
    /// The record behind a candidate is read.
    Candidate,
    /// The read is over.
    Finished,
}

/// What a read wants done next.
#[derive(Clone, Debug)]
pub enum ReadAction {
    /// Run a statement and hand back what it finds.
    Fetch(PostgresQuery),
    /// End the transaction and answer.
    Finish,
}

/// One snapshot read.
pub struct ReadRun {
    /// The batch.
    pub request: ReadBatch,
    /// Limits of the receiver.
    pub limits: StateLimits,
    /// Revision of the snapshot.
    pub revision: StateRevision,
    /// Answers so far.
    pub results: Vec<ReadResult>,
    /// Inode of a composite query.
    pub inode: Option<InodeRecord>,
    /// Candidates of a scan.
    pub candidates: Vec<ScanCandidate>,
    /// Position after the last candidate, where there is more.
    pub resume: Option<ScanResume>,
    /// Records behind the first candidates.
    pub records: Vec<(RecordKey, StateRecord)>,
    /// Answer that ends the read early.
    pub refusal: Option<ReadOutcome>,
    /// Where the read stands.
    pub phase: ReadPhase,
}

/// The failure of the first corrupt candidate from an index on.
pub open spec fn candidates_failure(
    filesystem_id: FilesystemId,
    scan: RecordScan<Seq<u8>>,
    rows: Seq<CandidateRow>,
    limits: StateLimits,
    from: int,
) -> Option<StateFailure>
    decreases rows.len() - from,
{
    if 0 <= from < rows.len() {
        directory_page::earlier(
            scan::candidate_failure(filesystem_id, scan, rows[from], limits),
            candidates_failure(filesystem_id, scan, rows, limits, from + 1),
        )
    } else {
        None
    }
}

/// The candidates that rows spell.
pub open spec fn row_candidates(
    filesystem_id: FilesystemId,
    scan: RecordScan<Seq<u8>>,
    rows: Seq<CandidateRow>,
) -> Seq<scan::Candidate> {
    rows.map_values(|row: CandidateRow| scan::row_candidate(filesystem_id, scan, row))
}

/// Every candidate belongs to a family.
pub open spec fn of_family(candidates: Seq<scan::Candidate>, family: i16) -> bool {
    forall|i: int|
        0 <= i < candidates.len() ==> key::family_tag((#[trigger] candidates[i]).key) == family
}

fn decode_candidates(
    filesystem_id: FilesystemId,
    scan: &RecordScan,
    rows: &Vec<CandidateRow>,
    limits: StateLimits,
) -> (result: Result<Vec<ScanCandidate>, PostgresStateError>)
    ensures
        match result {
            Ok(candidates) => {
                &&& candidates_failure(filesystem_id, scan@, rows@, limits, 0) is None
                &&& scan::candidate_views(candidates@) == row_candidates(
                    filesystem_id,
                    scan@,
                    rows@,
                )
                &&& of_family(scan::candidate_views(candidates@), query::scan_family(scan@))
            },
            Err(error) => candidates_failure(filesystem_id, scan@, rows@, limits, 0) == Some(
                error@,
            ),
        },
{
    let mut candidates: Vec<ScanCandidate> = Vec::new();
    let mut index: usize = 0;
    while index < rows.len()
        invariant
            index <= rows@.len(),
            candidates@.len() == index,
            forall|i: int|
                0 <= i < index ==> (#[trigger] candidates@[i])@ == scan::row_candidate(
                    filesystem_id,
                    scan@,
                    rows@[i],
                ),
            forall|i: int|
                0 <= i < index ==> key::family_tag((#[trigger] candidates@[i]).key@)
                    == query::scan_family(scan@),
            candidates_failure(filesystem_id, scan@, rows@, limits, 0) == candidates_failure(
                filesystem_id,
                scan@,
                rows@,
                limits,
                index as int,
            ),
        decreases rows@.len() - index,
    {
        let candidate = decode_scan_candidate(&rows[index], filesystem_id, scan, limits)?;
        proof {
            let stored = scan::candidate_key(filesystem_id, scan@, rows@[index as int]);
            key_codec::law_stored_key_round_trip(stored, limits);
            assert(key_codec::sql_key(key_codec::sql_key_value(stored)).family_tag
                == stored.family_tag);
        }
        candidates.push(candidate);
        index = index + 1;
    }
    proof {
        assert(scan::candidate_views(candidates@) =~= row_candidates(filesystem_id, scan@, rows@));
    }
    Ok(candidates)
}

impl ReadRun {
    /// The query that is answered next.
    pub open spec fn current(self) -> ReadQuery<Seq<u8>> {
        self.request.query_seq()[self.results@.len() as int]
    }

    /// Every answer given so far answers its query.
    pub open spec fn answered(self) -> bool {
        &&& self.results@.len() <= self.request.queries@.len()
        &&& forall|i: int|
            0 <= i < self.results@.len() ==> query::answers(
                self.request.query_seq()[i],
                self.request.filesystem_id,
                (#[trigger] self.results@[i])@,
            )
    }

    /// The read is consistent: what it has answered answers its queries, and
    /// its phase fits the query that comes next.
    pub open spec fn well_formed(self) -> bool {
        &&& self.answered()
        &&& match self.phase {
            ReadPhase::Revision => self.results@.len() == 0,
            ReadPhase::Finished => self.refusal is Some || self.results@.len()
                == self.request.queries@.len(),
            _ => self.results@.len() < self.request.queries@.len(),
        }
        &&& self.phase != ReadPhase::Finished ==> self.refusal is None
        &&& match self.phase {
            ReadPhase::Point => query::query_key(
                self.current(),
                self.request.filesystem_id,
            ) is Some,
            ReadPhase::ByPath => self.current() is InodeByQidPath,
            ReadPhase::CompositeInode => self.current() is InodeWithContentMetadata,
            ReadPhase::CompositeMetadata => {
                &&& self.current() is InodeWithContentMetadata
                &&& self.inode is Some
                &&& self.inode->0@.inode_id == self.current()->InodeWithContentMetadata_0
                &&& record::content_file(self.inode->0@) is Some
            },
            ReadPhase::Pins => self.current() is OpenPinCount,
            ReadPhase::Page => self.current() is DirectoryPage,
            ReadPhase::Scan => self.current() is Scan,
            ReadPhase::Candidate => {
                &&& self.current() is Scan
                &&& self.records@.len() < self.candidates@.len()
                &&& self.candidates@.len() <= query::scan_bounds(
                    self.current()->Scan_0,
                ).max_items
                &&& of_family(
                    scan::candidate_views(self.candidates@),
                    query::scan_family(self.current()->Scan_0),
                )
            },
            _ => true,
        }
    }

    /// Two states of one read serve the same batch.
    pub open spec fn same_request(self, other: Self) -> bool {
        self.request == other.request && self.limits == other.limits
    }

    /// The read fails.
    pub open spec fn fails(
        result: Result<ReadAction, PostgresStateError>,
        failure: StateFailure,
    ) -> bool {
        result is Err && result->Err_0@ == failure
    }

    /// The read runs a statement.
    pub open spec fn fetches(
        result: Result<ReadAction, PostgresStateError>,
        statement: StatementView,
    ) -> bool {
        result matches Ok(ReadAction::Fetch(fetched)) && fetched@ == statement
    }

    /// The read ends early.
    pub open spec fn refuses(
        self,
        result: Result<ReadAction, PostgresStateError>,
        outcome: ReadOutcome,
    ) -> bool {
        &&& result matches Ok(ReadAction::Finish)
        &&& self.well_formed()
        &&& self.phase == ReadPhase::Finished
        &&& self.refusal == Some(outcome)
    }

    /// The read goes on with the next query, or ends if there is none.
    pub open spec fn goes_on(self, result: Result<ReadAction, PostgresStateError>) -> bool {
        let fs = self.request.filesystem_id;
        &&& self.well_formed()
        &&& self.refusal is None
        &&& if self.results@.len() == self.request.queries@.len() {
            self.phase == ReadPhase::Finished && result matches Ok(ReadAction::Finish)
        } else {
            match self.current() {
                ReadQuery::InodeByQidPath(path) => self.phase == ReadPhase::ByPath && Self::fetches(
                    result,
                    statement::text_only(read_sql::INODE_BY_QID_PATH_SQL@).with_id(
                        fs.value,
                    ).with_number(path.value),
                ),
                ReadQuery::InodeWithContentMetadata(id) => self.phase
                    == ReadPhase::CompositeInode && Self::fetches(
                    result,
                    read_sql::point(RecordKey::Inode(fs, id)),
                ),
                ReadQuery::OpenPinCount(id) => self.phase == ReadPhase::Pins && Self::fetches(
                    result,
                    statement::text_only(read_sql::PIN_COUNT_SQL@).with_id(fs.value).with_id(
                        id.value,
                    ),
                ),
                ReadQuery::DirectoryPage { parent_inode_id, after, bounds } => self.phase
                    == ReadPhase::Page && Self::fetches(
                    result,
                    read_sql::directory_page(fs, parent_inode_id, after, bounds),
                ),
                ReadQuery::Scan(scan) => self.phase == ReadPhase::Scan && Self::fetches(
                    result,
                    read_sql::scan_query(fs, scan),
                ),
                other => self.phase == ReadPhase::Point && Self::fetches(
                    result,
                    read_sql::point(query::query_key(other, fs)->0),
                ),
            }
        }
    }

    /// The read has one more answer and goes on.
    pub open spec fn answers(
        self,
        after: Self,
        result: Result<ReadAction, PostgresStateError>,
        answer: ResultView,
    ) -> bool {
        &&& after.results@.len() == self.results@.len() + 1
        &&& after.results@.last()@ == answer
        &&& forall|i: int|
            0 <= i < self.results@.len() ==> #[trigger] after.results@[i] == self.results@[i]
        &&& after.goes_on(result)
    }

    /// Starts a read, or answers that the batch exceeds a limit.
    pub fn start(request: ReadBatch, limits: StateLimits) -> (result: Result<
        (Self, ReadAction),
        ReadOutcome,
    >)
        ensures
            match batch_failure(request, limits) {
                Some(error) => result == Err::<(Self, ReadAction), ReadOutcome>(
                    ReadOutcome::MalformedRequest(error),
                ),
                None => {
                    &&& result is Ok
                    &&& result->Ok_0.0.well_formed()
                    &&& result->Ok_0.0.request == request
                    &&& result->Ok_0.0.limits == limits
                    &&& result->Ok_0.0.phase == ReadPhase::Revision
                    &&& Self::fetches(
                        Ok(result->Ok_0.1),
                        statement::text_only(read_sql::REVISION_SQL@).with_id(
                            request.filesystem_id.value,
                        ),
                    )
                },
            },
    {
        match validate_read_request(&request, limits) {
            Ok(()) => {},
            Err(error) => {
                return Err(ReadOutcome::MalformedRequest(error));
            },
        }
        let statement = revision_statement(request.filesystem_id);
        Ok(
            (
                ReadRun {
                    request,
                    limits,
                    revision: StateRevision { value: 1 },
                    results: Vec::new(),
                    inode: None,
                    candidates: Vec::new(),
                    resume: None,
                    records: Vec::new(),
                    refusal: None,
                    phase: ReadPhase::Revision,
                },
                ReadAction::Fetch(statement),
            ),
        )
    }

    fn go_on(&mut self) -> (result: ReadAction)
        requires
            old(self).answered(),
            old(self).refusal is None,
        ensures
            final(self).same_request(*old(self)),
            final(self).revision == old(self).revision,
            final(self).results == old(self).results,
            final(self).goes_on(Ok(result)),
    {
        let index: usize = self.results.len();
        if index == self.request.queries.len() {
            self.phase = ReadPhase::Finished;
            return ReadAction::Finish;
        }
        let fs = self.request.filesystem_id;
        assert(self.current() == self.request.queries@[index as int]@);
        let (phase, statement) = match &self.request.queries[index] {
            ReadQuery::InodeByQidPath(path) => (ReadPhase::ByPath, path_statement(fs, *path)),
            ReadQuery::InodeWithContentMetadata(id) => (
                ReadPhase::CompositeInode,
                point_statement(&RecordKey::Inode(fs, *id)),
            ),
            ReadQuery::OpenPinCount(id) => (ReadPhase::Pins, pin_count_statement(fs, *id)),
            ReadQuery::DirectoryPage { parent_inode_id, after, bounds } => (
                ReadPhase::Page,
                directory_page_statement(fs, *parent_inode_id, *after, *bounds),
            ),
            ReadQuery::Scan(scan) => (ReadPhase::Scan, scan_statement(fs, scan)),
            other => match other.point_key(fs) {
                Some(k) => (ReadPhase::Point, point_statement(&k)),
                None => (ReadPhase::Point, revision_statement(fs)),
            },
        };
        self.phase = phase;
        ReadAction::Fetch(statement)
    }

    fn answer(&mut self, answer: ReadResult) -> (result: ReadAction)
        requires
            old(self).answered(),
            old(self).results@.len() < old(self).request.queries@.len(),
            old(self).refusal is None,
            query::answers(old(self).current(), old(self).request.filesystem_id, answer@),
        ensures
            final(self).same_request(*old(self)),
            final(self).revision == old(self).revision,
            old(self).answers(*final(self), Ok(result), answer@),
    {
        self.results.push(answer);
        self.go_on()
    }

    fn refuse(&mut self, outcome: ReadOutcome) -> (result: ReadAction)
        requires
            old(self).answered(),
        ensures
            final(self).same_request(*old(self)),
            final(self).revision == old(self).revision,
            final(self).refuses(Ok(result), outcome),
    {
        self.refusal = Some(outcome);
        self.phase = ReadPhase::Finished;
        ReadAction::Finish
    }

    /// The read knows the revision of the head and goes on, if that is enough.
    pub open spec fn after_revision(
        self,
        after: Self,
        result: Result<ReadAction, PostgresStateError>,
        text: Option<&String>,
    ) -> bool {
        match authority_failure(text_view(text)) {
            Some(failure) => Self::fails(result, failure),
            None => {
                let current = authority_revision(text_view(text));
                &&& after.revision == current
                &&& match self.request.consistency {
                    ReadConsistency::AtLeast(required) => if current.value < required.value {
                        after.refuses(
                            result,
                            ReadOutcome::RevisionUnavailable { required, current },
                        )
                    } else {
                        after.results@.len() == 0 && after.goes_on(result)
                    },
                    ReadConsistency::LatestLinearizable => after.results@.len() == 0
                        && after.goes_on(result),
                }
            },
        }
    }

    /// Takes the revision of the snapshot. A read that asks for a later one is
    /// refused.
    pub fn revision(&mut self, text: Option<&String>) -> (result: Result<
        ReadAction,
        PostgresStateError,
    >)
        requires
            old(self).well_formed(),
            old(self).phase == ReadPhase::Revision,
        ensures
            final(self).same_request(*old(self)),
            old(self).after_revision(*final(self), result, text),
    {
        let current = decode_authority_revision(text)?;
        self.revision = current;
        match self.request.consistency {
            ReadConsistency::AtLeast(required) => {
                if current.value < required.value {
                    return Ok(self.refuse(ReadOutcome::RevisionUnavailable { required, current }));
                }
            },
            ReadConsistency::LatestLinearizable => {},
        }
        Ok(self.go_on())
    }

    /// The read answers with the record under a key.
    pub open spec fn after_point(
        self,
        after: Self,
        result: Result<ReadAction, PostgresStateError>,
        row: Option<&SqlStateRecord>,
    ) -> bool {
        let k = query::query_key(self.current(), self.request.filesystem_id)->0;
        match point_failure(k, row_view(row), self.limits) {
            Some(failure) => Self::fails(result, failure),
            None => self.answers(
                after,
                result,
                ResultView::Point { key: k, record: row_record(row_view(row)) },
            ),
        }
    }

    /// Takes the row of the record that is asked for.
    pub fn point(&mut self, row: Option<&SqlStateRecord>) -> (result: Result<
        ReadAction,
        PostgresStateError,
    >)
        requires
            old(self).well_formed(),
            old(self).phase == ReadPhase::Point,
        ensures
            final(self).same_request(*old(self)),
            final(self).revision == old(self).revision,
            old(self).after_point(*final(self), result, row),
    {
        let index: usize = self.results.len();
        assert(self.current() == self.request.queries@[index as int]@);
        let k = match self.request.queries[index].point_key(self.request.filesystem_id) {
            Some(k) => k,
            None => RecordKey::Filesystem(self.request.filesystem_id),
        };
        let record = read_point(&k, row, self.limits)?;
        Ok(self.answer(ReadResult::Point { key: k, record }))
    }

    /// The read answers with the inode of a path number.
    pub open spec fn after_path(
        self,
        after: Self,
        result: Result<ReadAction, PostgresStateError>,
        row: Option<&SqlStateRecord>,
    ) -> bool {
        let qid_path = self.current()->InodeByQidPath_0;
        match path_failure(
            self.request.filesystem_id,
            qid_path,
            row_view(row),
            self.limits,
        ) {
            Some(failure) => Self::fails(result, failure),
            None => self.answers(
                after,
                result,
                ResultView::InodeByQidPath {
                    qid_path,
                    inode: record_inode(row_record(row_view(row))),
                },
            ),
        }
    }

    /// Takes the row of the inode with the path number that is asked for.
    pub fn by_path(&mut self, row: Option<&SqlStateRecord>) -> (result: Result<
        ReadAction,
        PostgresStateError,
    >)
        requires
            old(self).well_formed(),
            old(self).phase == ReadPhase::ByPath,
        ensures
            final(self).same_request(*old(self)),
            final(self).revision == old(self).revision,
            old(self).after_path(*final(self), result, row),
    {
        let index: usize = self.results.len();
        assert(self.current() == self.request.queries@[index as int]@);
        let qid_path = match &self.request.queries[index] {
            ReadQuery::InodeByQidPath(path) => *path,
            _ => QidPath { value: 1 },
        };
        let inode = match row {
            None => None,
            Some(row) => {
                let (k, record) = decode_sql_record(row, self.limits)?;
                match record {
                    StateRecord::Inode(inode) => {
                        if k.filesystem_id().value != self.request.filesystem_id.value
                            || inode.qid_path.value != qid_path.value {
                            return Err(
                                corruption("QID-path row mismatch", FailureCause::Path { path: qid_path, actual: k }),
                            );
                        }
                        Some(inode)
                    },
                    _ => {
                        return Err(corruption("QID-path row mismatch", FailureCause::Path { path: qid_path, actual: k }));
                    },
                }
            },
        };
        Ok(self.answer(ReadResult::InodeByQidPath { qid_path, inode }))
    }

    /// The read answers with a count of pins.
    pub open spec fn after_pins(
        self,
        after: Self,
        result: Result<ReadAction, PostgresStateError>,
        count: Seq<char>,
    ) -> bool {
        if numeric::parses(count) {
            self.answers(
                after,
                result,
                ResultView::OpenPinCount {
                    inode_id: self.current()->OpenPinCount_0,
                    count: numeric::parsed(count),
                },
            )
        } else {
            Self::fails(
                result,
                scan::read_corruption(
                    "invalid open-pin count",
                    FailureCause::Numeric(
                        NumericCodecError { field: "open_pin_count", value: count },
                    ),
                ),
            )
        }
    }

    /// Takes the number of pins that is asked for.
    pub fn pins(&mut self, count: &String) -> (result: Result<ReadAction, PostgresStateError>)
        requires
            old(self).well_formed(),
            old(self).phase == ReadPhase::Pins,
        ensures
            final(self).same_request(*old(self)),
            final(self).revision == old(self).revision,
            old(self).after_pins(*final(self), result, count@),
    {
        let index: usize = self.results.len();
        assert(self.current() == self.request.queries@[index as int]@);
        let inode_id = match &self.request.queries[index] {
            ReadQuery::OpenPinCount(id) => *id,
            _ => InodeId { value: 0 },
        };
        let count: u64 = match decode_u64("open_pin_count", count.as_str()) {
            Ok(count) => count,
            Err(error) => {
                return Err(corruption("invalid open-pin count", FailureCause::Numeric(error)));
            },
        };
        Ok(self.answer(ReadResult::OpenPinCount { inode_id, count }))
    }

    /// The read goes on to the content metadata of an inode, or answers without.
    pub open spec fn after_composite_inode(
        self,
        after: Self,
        result: Result<ReadAction, PostgresStateError>,
        row: Option<&SqlStateRecord>,
    ) -> bool {
        let fs = self.request.filesystem_id;
        let inode_id = self.current()->InodeWithContentMetadata_0;
        let inode = record_inode(row_record(row_view(row)));
        match point_failure(
            RecordKey::Inode(fs, inode_id),
            row_view(row),
            self.limits,
        ) {
            Some(failure) => Self::fails(result, failure),
            None => match inode_file(inode) {
                Some(file_id) => {
                    &&& after.well_formed()
                    &&& after.phase == ReadPhase::CompositeMetadata
                    &&& after.results == self.results
                    &&& query::optional_inode(after.inode) == inode
                    &&& Self::fetches(
                        result,
                        read_sql::point(RecordKey::ContentMetadata(fs, file_id)),
                    )
                },
                None => self.answers(
                    after,
                    result,
                    ResultView::InodeWithContentMetadata {
                        inode_id,
                        inode,
                        metadata: None,
                    },
                ),
            },
        }
    }

    /// Takes the inode row of a composite query. An inode with content goes on
    /// to its metadata.
    pub fn composite_inode(&mut self, row: Option<&SqlStateRecord>) -> (result: Result<
        ReadAction,
        PostgresStateError,
    >)
        requires
            old(self).well_formed(),
            old(self).phase == ReadPhase::CompositeInode,
        ensures
            final(self).same_request(*old(self)),
            final(self).revision == old(self).revision,
            old(self).after_composite_inode(*final(self), result, row),
    {
        let index: usize = self.results.len();
        assert(self.current() == self.request.queries@[index as int]@);
        let inode_id = match &self.request.queries[index] {
            ReadQuery::InodeWithContentMetadata(id) => *id,
            _ => InodeId { value: 0 },
        };
        let k = RecordKey::Inode(self.request.filesystem_id, inode_id);
        let inode = match read_point(&k, row, self.limits)? {
            Some(StateRecord::Inode(inode)) => Some(inode),
            Some(_) => {
                return Err(corruption("composite inode row kind", FailureCause::Word("not inode")));
            },
            None => None,
        };
        match inode {
            Some(inode) => match inode.content_file_id() {
                Some(file_id) => {
                    let k = RecordKey::ContentMetadata(self.request.filesystem_id, file_id);
                    let statement = point_statement(&k);
                    self.inode = Some(inode);
                    self.phase = ReadPhase::CompositeMetadata;
                    Ok(ReadAction::Fetch(statement))
                },
                None => Ok(
                    self.answer(
                        ReadResult::InodeWithContentMetadata {
                            inode_id,
                            inode: Some(inode),
                            metadata: None,
                        },
                    ),
                ),
            },
            None => Ok(
                self.answer(
                    ReadResult::InodeWithContentMetadata { inode_id, inode: None, metadata: None },
                ),
            ),
        }
    }

    /// The read answers with an inode and its content metadata.
    pub open spec fn after_composite_metadata(
        self,
        after: Self,
        result: Result<ReadAction, PostgresStateError>,
        row: Option<&SqlStateRecord>,
    ) -> bool {
        let fs = self.request.filesystem_id;
        let inode = query::optional_inode(self.inode);
        match point_failure(
            RecordKey::ContentMetadata(fs, inode_file(inode)->0),
            row_view(row),
            self.limits,
        ) {
            Some(failure) => Self::fails(result, failure),
            None => self.answers(
                after,
                result,
                ResultView::InodeWithContentMetadata {
                    inode_id: self.current()->InodeWithContentMetadata_0,
                    inode,
                    metadata: match row_record(row_view(row)) {
                        Some(StateRecord::ContentMetadata(metadata)) => Some(metadata),
                        _ => None,
                    },
                },
            ),
        }
    }

    /// Takes the metadata row of a composite query.
    pub fn composite_metadata(&mut self, row: Option<&SqlStateRecord>) -> (result: Result<
        ReadAction,
        PostgresStateError,
    >)
        requires
            old(self).well_formed(),
            old(self).phase == ReadPhase::CompositeMetadata,
        ensures
            final(self).same_request(*old(self)),
            final(self).revision == old(self).revision,
            old(self).after_composite_metadata(*final(self), result, row),
    {
        let index: usize = self.results.len();
        assert(self.current() == self.request.queries@[index as int]@);
        let inode_id = match &self.request.queries[index] {
            ReadQuery::InodeWithContentMetadata(id) => *id,
            _ => InodeId { value: 0 },
        };
        let file_id = match &self.inode {
            Some(inode) => match inode.content_file_id() {
                Some(file_id) => file_id,
                None => FileId { value: 0 },
            },
            None => FileId { value: 0 },
        };
        let k = RecordKey::ContentMetadata(self.request.filesystem_id, file_id);
        let metadata = match read_point(&k, row, self.limits)? {
            Some(StateRecord::ContentMetadata(metadata)) => Some(metadata),
            Some(_) => {
                return Err(corruption("composite metadata row kind", FailureCause::Word("not content metadata")));
            },
            None => None,
        };
        let mut inode: Option<InodeRecord> = None;
        std::mem::swap(&mut inode, &mut self.inode);
        Ok(self.answer(ReadResult::InodeWithContentMetadata { inode_id, inode, metadata }))
    }

    /// The read answers with one directory page.
    pub open spec fn after_page(
        self,
        after: Self,
        result: Result<ReadAction, PostgresStateError>,
        rows: Seq<DirectoryPageRow>,
    ) -> bool {
        let parent = self.current()->DirectoryPage_parent_inode_id;
        let bounds = self.current()->DirectoryPage_bounds;
        match directory_page::page_failure(rows, bounds, self.limits) {
            Some(failure) => Self::fails(result, failure),
            None => if directory_page::too_small(rows, bounds) {
                after.refuses(
                    result,
                    ReadOutcome::ScanBoundTooSmall {
                        query_index: self.results@.len() as usize,
                        required_bytes: directory_page::row_bytes(rows[0]) as usize,
                    },
                )
            } else {
                &&& after.results@.len() == self.results@.len() + 1
                &&& after.results@.last()@ is DirectoryPage
                &&& directory_page::is_page(
                    parent,
                    rows,
                    bounds,
                    after.results@.last()@->DirectoryPage_0,
                )
                &&& self.answers(after, result, after.results@.last()@)
            },
        }
    }

    /// Takes the rows of the directory page that is asked for.
    pub fn page(&mut self, rows: &Vec<DirectoryPageRow>) -> (result: Result<
        ReadAction,
        PostgresStateError,
    >)
        requires
            old(self).well_formed(),
            old(self).phase == ReadPhase::Page,
        ensures
            final(self).same_request(*old(self)),
            final(self).revision == old(self).revision,
            old(self).after_page(*final(self), result, rows@),
    {
        let index: usize = self.results.len();
        assert(self.current() == self.request.queries@[index as int]@);
        let (parent_inode_id, bounds) = match &self.request.queries[index] {
            ReadQuery::DirectoryPage { parent_inode_id, bounds, .. } => (*parent_inode_id, *bounds),
            _ => (InodeId { value: 0 }, ScanBounds { max_items: 0, max_bytes: 0 }),
        };
        match assemble_directory_page(rows, parent_inode_id, bounds, self.limits)? {
            PageOutcome::TooSmall(required_bytes) => Ok(
                self.refuse(
                    ReadOutcome::ScanBoundTooSmall { query_index: index, required_bytes },
                ),
            ),
            PageOutcome::Page(page) => {
                proof {
                    directory_page::law_directory_pages_keep_their_bounds(
                        parent_inode_id,
                        rows@,
                        bounds,
                        page@,
                    );
                }
                Ok(self.answer(ReadResult::DirectoryPage(page)))
            },
        }
    }

    /// The page of a scan whose records are all read.
    pub open spec fn scanned(
        self,
        scan: RecordScan<Seq<u8>>,
        records: Seq<query::RecordView>,
        resume: Option<ScanResume<Seq<u8>>>,
    ) -> ResultView {
        ResultView::Scan(ScanPageView { family: query::scan_family(scan), records, resume })
    }

    /// The read goes on to the records that a scan selected.
    pub open spec fn after_scan(
        self,
        after: Self,
        result: Result<ReadAction, PostgresStateError>,
        rows: Seq<CandidateRow>,
    ) -> bool {
        let fs = self.request.filesystem_id;
        let scan = self.current()->Scan_0;
        match candidates_failure(fs, scan, rows, self.limits, 0) {
            Some(failure) => Self::fails(result, failure),
            None => match scan::selection(
                row_candidates(fs, scan, rows),
                query::scan_bounds(scan),
            ) {
                Err(failure) => Self::fails(result, failure),
                Ok(PlanView::TooSmall(required_bytes)) => after.refuses(
                    result,
                    ReadOutcome::ScanBoundTooSmall {
                        query_index: self.results@.len() as usize,
                        required_bytes,
                    },
                ),
                Ok(PlanView::Selected { candidates, resume }) => if candidates.len() == 0 {
                    self.answers(
                        after,
                        result,
                        self.scanned(scan, Seq::empty(), resume),
                    )
                } else {
                    &&& after.well_formed()
                    &&& after.phase == ReadPhase::Candidate
                    &&& after.results == self.results
                    &&& scan::candidate_views(after.candidates@) == candidates
                    &&& query::optional_resume(after.resume) == resume
                    &&& after.records@.len() == 0
                    &&& Self::fetches(result, read_sql::point(candidates[0].key))
                },
            },
        }
    }

    /// Takes the sized candidates of the scan that is asked for, and goes on to
    /// the records of those that the page holds.
    pub fn scan(&mut self, rows: &Vec<CandidateRow>) -> (result: Result<
        ReadAction,
        PostgresStateError,
    >)
        requires
            old(self).well_formed(),
            old(self).phase == ReadPhase::Scan,
        ensures
            final(self).same_request(*old(self)),
            final(self).revision == old(self).revision,
            old(self).after_scan(*final(self), result, rows@),
    {
        let index: usize = self.results.len();
        assert(self.current() == self.request.queries@[index as int]@);
        let scan = match &self.request.queries[index] {
            ReadQuery::Scan(scan) => scan,
            _ => {
                return Ok(ReadAction::Finish);
            },
        };
        let family: i16 = scan.family();
        let candidates = decode_candidates(self.request.filesystem_id, scan, rows, self.limits)?;
        let ghost all = scan::candidate_views(candidates@);
        let ghost bounds = query::scan_bounds(scan@);
        match plan_scan_candidates(scan, candidates)? {
            CandidatePlan::TooSmall(required_bytes) => Ok(
                self.refuse(
                    ReadOutcome::ScanBoundTooSmall { query_index: index, required_bytes },
                ),
            ),
            CandidatePlan::Selected { candidates, resume } => {
                proof {
                    scan::law_pages_keep_their_bounds(all, bounds);
                    let page = scan::candidate_views(candidates@);
                    assert(page.len() == candidates@.len());
                    assert forall|i: int| 0 <= i < page.len() implies key::family_tag(
                        (#[trigger] page[i]).key,
                    ) == family by {
                        assert(page[i] == all[i]);
                    }
                }
                if candidates.len() == 0 {
                    let page = ScanPage { family, records: Vec::new(), resume };
                    assert(page@.records =~= Seq::empty());
                    Ok(self.answer(ReadResult::Scan(page)))
                } else {
                    let statement = point_statement(&candidates[0].key);
                    assert(scan::candidate_views(candidates@)[0] == candidates@[0]@);
                    self.candidates = candidates;
                    self.resume = resume;
                    self.records = Vec::new();
                    self.phase = ReadPhase::Candidate;
                    Ok(ReadAction::Fetch(statement))
                }
            },
        }
    }

    /// The read goes on to the next selected record, or answers.
    pub open spec fn after_candidate(
        self,
        after: Self,
        result: Result<ReadAction, PostgresStateError>,
        row: Option<&SqlStateRecord>,
    ) -> bool {
        let count = self.records@.len();
        let candidate = self.candidates@[count as int]@;
        let records = query::record_views(self.records@);
        match directory_page::earlier(
            point_failure(candidate.key, row_view(row), self.limits),
            scan::announced_failure(candidate, row_record(row_view(row))),
        ) {
            Some(failure) => Self::fails(result, failure),
            None => {
                let next = records.push(
                    (candidate.key, row_codec::row_record(row_view(row)->0)),
                );
                if count + 1 == self.candidates@.len() {
                    self.answers(
                        after,
                        result,
                        self.scanned(
                            self.current()->Scan_0,
                            next,
                            query::optional_resume(self.resume),
                        ),
                    )
                } else {
                    &&& after.well_formed()
                    &&& after.phase == ReadPhase::Candidate
                    &&& after.results == self.results
                    &&& after.candidates == self.candidates
                    &&& after.resume == self.resume
                    &&& query::record_views(after.records@) == next
                    &&& Self::fetches(
                        result,
                        read_sql::point(self.candidates@[count as int + 1].key@),
                    )
                }
            },
        }
    }

    /// Takes the row of the record behind a candidate.
    pub fn candidate(&mut self, row: Option<&SqlStateRecord>) -> (result: Result<
        ReadAction,
        PostgresStateError,
    >)
        requires
            old(self).well_formed(),
            old(self).phase == ReadPhase::Candidate,
        ensures
            final(self).same_request(*old(self)),
            final(self).revision == old(self).revision,
            old(self).after_candidate(*final(self), result, row),
    {
        let count: usize = self.records.len();
        let index: usize = self.results.len();
        assert(self.current() == self.request.queries@[index as int]@);
        let record = read_point(&self.candidates[count].key, row, self.limits)?;
        let record = check_announced(&self.candidates[count], record)?;
        let ghost before = query::record_views(self.records@);
        let ghost added = (self.candidates@[count as int].key@, record@);
        let k = self.candidates[count].key.copied();
        self.records.push((k, record));
        assert(query::record_views(self.records@) =~= before.push(added));
        let total: usize = self.candidates.len();
        if count + 1 < total {
            return Ok(ReadAction::Fetch(point_statement(&self.candidates[count + 1].key)));
        }
        let family: i16 = match &self.request.queries[index] {
            ReadQuery::Scan(scan) => scan.family(),
            _ => 0,
        };
        let mut records: Vec<(RecordKey, StateRecord)> = Vec::new();
        std::mem::swap(&mut records, &mut self.records);
        let mut resume: Option<ScanResume> = None;
        std::mem::swap(&mut resume, &mut self.resume);
        let page = ScanPage { family, records, resume };
        assert(page@.records == before.push(added));
        Ok(self.answer(ReadResult::Scan(page)))
    }

    /// The answer of a read that is over: one answer per query from one
    /// snapshot, unless the read ended early.
    pub fn finish(self) -> (result: ReadOutcome)
        requires
            self.well_formed(),
            self.phase == ReadPhase::Finished,
        ensures
            match self.refusal {
                Some(outcome) => result == outcome,
                None => {
                    &&& result is Snapshot
                    &&& result->Snapshot_0.revision == self.revision
                    &&& result->Snapshot_0.results == self.results
                    &&& result->Snapshot_0.results@.len() == self.request.queries@.len()
                    &&& forall|i: int|
                        0 <= i < self.request.queries@.len() ==> query::answers(
                            self.request.query_seq()[i],
                            self.request.filesystem_id,
                            (#[trigger] result->Snapshot_0.results@[i])@,
                        )
                },
            },
    {
        match self.refusal {
            Some(outcome) => outcome,
            None => ReadOutcome::Snapshot(
                StateSnapshot { revision: self.revision, results: self.results },
            ),
        }
    }
}

/// The inode among optional records.
pub open spec fn record_inode(found: Option<StateRecord<Seq<u8>, Seq<char>>>) -> Option<
    InodeRecord<Seq<u8>, Seq<char>>,
> {
    match found {
        Some(StateRecord::Inode(inode)) => Some(inode),
        _ => None,
    }
}

/// The content file of an optional inode.
pub open spec fn inode_file(inode: Option<InodeRecord<Seq<u8>, Seq<char>>>) -> Option<FileId> {
    match inode {
        Some(inode) => record::content_file(inode),
        None => None,
    }
}

/// Why a row is not the inode with a path number.
pub open spec fn path_failure(
    filesystem_id: FilesystemId,
    qid_path: QidPath,
    row: Option<RowView>,
    limits: StateLimits,
) -> Option<StateFailure> {
    match row {
        None => None,
        Some(row) => match row_codec::row_failure(row, limits) {
            Some(error) => Some(
                scan::read_corruption("invalid public record row", FailureCause::Row(error)),
            ),
            None => match row_codec::row_record(row) {
                StateRecord::Inode(inode) => if row_codec::row_filesystem(row) == filesystem_id
                    && inode.qid_path == qid_path {
                    None
                } else {
                    Some(
                        scan::read_corruption(
                            "QID-path row mismatch",
                            FailureCause::Path { path: qid_path, actual: row_codec::row_key(row) },
                        ),
                    )
                },
                _ => Some(
                    scan::read_corruption(
                        "QID-path row mismatch",
                        FailureCause::Path { path: qid_path, actual: row_codec::row_key(row) },
                    ),
                ),
            },
        },
    }
}

} // verus!
