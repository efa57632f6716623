//! Pages of record scans: candidates, their budget and the records behind them.
//!
//! A scan first sizes its candidates, then selects the longest run of them
//! that fits the bounds of the page, and only then reads their records.
use vstd::prelude::*;

use crate::bytes;
use crate::bytes::{copy_bytes, id_vec};
use crate::estimate;
use crate::estimate::{estimate_key, estimate_record};
use crate::failure;
use crate::failure::{
    AdapterFailureKind, FailureCause, PostgresStateError, StateFailure, StateStoreOperation,
};
use crate::ids::{DirectoryCookie, FilesystemId};
use crate::key::RecordKey;
use crate::key_codec;
use crate::key_codec::SqlRecordKey;
use crate::limits::StateLimits;
use crate::numeric;
use crate::numeric::{decode_u64, NumericCodecError};
use crate::query;
use crate::query::{LockCursor, OpenPinCursor, RecordScan, ScanBounds, ScanResume, XattrCursor};
use crate::record::StateRecord;

verus! {

/// What a read fails with when persisted state is corrupt.
pub open spec fn read_corruption(
    context: &'static str,
    cause: FailureCause<Seq<u8>, Seq<char>>,
) -> StateFailure {
    failure::plain_failure(
        StateStoreOperation::Read,
        AdapterFailureKind::Corruption,
        context,
        cause,
    )
}

/// A read fails because persisted state is corrupt.
pub(crate) fn corruption(context: &'static str, cause: FailureCause) -> (result: PostgresStateError)
    ensures
        result@ == read_corruption(context, cause@),
{
    PostgresStateError::new(
        StateStoreOperation::Read,
        AdapterFailureKind::Corruption,
        context,
        cause,
    )
}

/// Columns of one sized candidate.
#[derive(Clone, Debug, PartialEq, Eq)]
pub struct CandidateRow {
    /// Column `retained_bytes`.
    pub retained_bytes: i64,
    /// First identity column; not read for directory entries.
    pub first: Vec<u8>,
    /// Second identity or name column, where the scan has one.
    pub second: Vec<u8>,
    /// Column `cookie_text`; read for directory entries only.
    pub cookie: String,
}

/// A sized candidate.
#[derive(Clone, Debug, PartialEq, Eq)]
pub struct ScanCandidate<B = Vec<u8>> {
    /// Key of the record.
    pub key: RecordKey<B>,
    /// Position after the record.
    pub cursor: ScanResume<B>,
    /// Bytes that the record retains.
    pub retained_bytes: usize,
}

impl View for ScanCandidate<Vec<u8>> {
    type V = ScanCandidate<Seq<u8>>;

    open spec fn view(&self) -> ScanCandidate<Seq<u8>> {
        ScanCandidate {
            key: self.key@,
            cursor: self.cursor@,
            retained_bytes: self.retained_bytes,
        }
    }
}

/// A candidate as contracts speak of it.
pub type Candidate = ScanCandidate<Seq<u8>>;

/// Candidates as contracts speak of them.
pub open spec fn candidate_views(candidates: Seq<ScanCandidate>) -> Seq<Candidate> {
    candidates.map_values(|candidate: ScanCandidate| candidate@)
}

/// The stored key that a candidate row of a scan spells.
pub open spec fn candidate_key(
    filesystem_id: FilesystemId,
    scan: RecordScan<Seq<u8>>,
    row: CandidateRow,
) -> SqlRecordKey<Seq<u8>> {
    SqlRecordKey {
        family_tag: query::scan_family(scan),
        filesystem_id,
        component_a: match scan {
            RecordScan::DirectoryEntries { parent_inode_id, .. } => bytes::id_bytes(
                parent_inode_id.value,
            ),
            _ => row.first@,
        },
        component_b: match scan {
            RecordScan::DirectoryEntries { .. } => row.second@,
            RecordScan::OpenPins { .. } => row.second@,
            RecordScan::Locks { .. } => row.second@,
            RecordScan::Xattrs { .. } => row.second@,
            _ => Seq::empty(),
        },
    }
}

/// The position after a record with a key; directory entries are ordered by
/// their cookie.
pub open spec fn key_position(k: RecordKey<Seq<u8>>, cookie: DirectoryCookie) -> ScanResume<
    Seq<u8>,
> {
    match k {
        RecordKey::Inode(_, id) => ScanResume::Inode(id),
        RecordKey::ContentMetadata(_, id) => ScanResume::ContentMetadata(id),
        RecordKey::DirectoryEntry(_, _, _) => ScanResume::DirectoryEntry(cookie),
        RecordKey::Open(_, id) => ScanResume::Open(id),
        RecordKey::OpenPin(_, inode_id, open_id) => ScanResume::OpenPin(
            OpenPinCursor { inode_id, open_id },
        ),
        RecordKey::Orphan(_, id) => ScanResume::Orphan(id),
        RecordKey::Lock(_, inode_id, lock_id) => ScanResume::Lock(LockCursor { inode_id, lock_id }),
        RecordKey::Xattr(_, inode_id, name) => ScanResume::Xattr(XattrCursor { inode_id, name }),
        RecordKey::XattrStaging(_, id) => ScanResume::XattrStaging(id),
        RecordKey::Mutation(_, id) => ScanResume::Mutation(id),
        RecordKey::WriterLease(_, scope) => ScanResume::WriterLease(scope),
        RecordKey::Filesystem(_) => ScanResume::DirectoryEntry(cookie),
    }
}

/// Why a row is no candidate of a scan.
pub open spec fn candidate_failure(
    filesystem_id: FilesystemId,
    scan: RecordScan<Seq<u8>>,
    row: CandidateRow,
    limits: StateLimits,
) -> Option<StateFailure> {
    if !(0 <= row.retained_bytes <= usize::MAX) {
        Some(
            read_corruption(
                "invalid SQL scan retained-byte estimate",
                FailureCause::Signed(row.retained_bytes),
            ),
        )
    } else if row.retained_bytes == 0 {
        Some(
            read_corruption(
                "invalid SQL scan retained-byte estimate",
                FailureCause::Word("zero"),
            ),
        )
    } else if scan is DirectoryEntries && !numeric::parses(row.cookie@) {
        Some(
            read_corruption(
                "invalid directory scan cookie",
                FailureCause::Numeric(
                    NumericCodecError { field: "directory_entries.cookie", value: row.cookie@ },
                ),
            ),
        )
    } else if scan is DirectoryEntries && numeric::parsed(row.cookie@) == 0 {
        Some(
            read_corruption(
                "invalid directory scan cookie",
                FailureCause::Word("zero"),
            ),
        )
    } else {
        match key_codec::sql_key_failure(candidate_key(filesystem_id, scan, row), limits) {
            Some(error) => Some(
                read_corruption("invalid SQL scan candidate key", FailureCause::Key(error)),
            ),
            None => None,
        }
    }
}

/// The candidate that a row spells.
pub open spec fn row_candidate(
    filesystem_id: FilesystemId,
    scan: RecordScan<Seq<u8>>,
    row: CandidateRow,
) -> Candidate {
    let k = key_codec::sql_key_value(candidate_key(filesystem_id, scan, row));
    ScanCandidate {
        key: k,
        cursor: key_position(k, DirectoryCookie { value: numeric::parsed(row.cookie@) }),
        retained_bytes: row.retained_bytes as usize,
    }
}

fn position(k: &RecordKey, cookie: DirectoryCookie) -> (result: ScanResume)
    ensures
        result@ == key_position(k@, cookie),
{
    match k {
        RecordKey::Inode(_, id) => ScanResume::Inode(*id),
        RecordKey::ContentMetadata(_, id) => ScanResume::ContentMetadata(*id),
        RecordKey::DirectoryEntry(_, _, _) => ScanResume::DirectoryEntry(cookie),
        RecordKey::Open(_, id) => ScanResume::Open(*id),
        RecordKey::OpenPin(_, inode_id, open_id) => ScanResume::OpenPin(
            OpenPinCursor { inode_id: *inode_id, open_id: *open_id },
        ),
        RecordKey::Orphan(_, id) => ScanResume::Orphan(*id),
        RecordKey::Lock(_, inode_id, lock_id) => ScanResume::Lock(
            LockCursor { inode_id: *inode_id, lock_id: *lock_id },
        ),
        RecordKey::Xattr(_, inode_id, name) => ScanResume::Xattr(
            XattrCursor { inode_id: *inode_id, name: name.copied() },
        ),
        RecordKey::XattrStaging(_, id) => ScanResume::XattrStaging(*id),
        RecordKey::Mutation(_, id) => ScanResume::Mutation(*id),
        RecordKey::WriterLease(_, scope) => ScanResume::WriterLease(*scope),
        RecordKey::Filesystem(_) => ScanResume::DirectoryEntry(cookie),
    }
}

/// Reads one candidate of a scan.
pub fn decode_scan_candidate(
    row: &CandidateRow,
    filesystem_id: FilesystemId,
    scan: &RecordScan,
    limits: StateLimits,
) -> (result: Result<ScanCandidate, PostgresStateError>)
    ensures
        match result {
            Ok(candidate) => candidate_failure(filesystem_id, scan@, *row, limits) is None
                && candidate@ == row_candidate(filesystem_id, scan@, *row),
            Err(error) => candidate_failure(filesystem_id, scan@, *row, limits) == Some(error@),
        },
{
    if row.retained_bytes < 0 || row.retained_bytes as u64 > usize::MAX as u64 {
        return Err(
            corruption(
                "invalid SQL scan retained-byte estimate",
                FailureCause::Signed(row.retained_bytes),
            ),
        );
    }
    let retained_bytes: usize = row.retained_bytes as usize;
    if retained_bytes == 0 {
        return Err(
            corruption(
                "invalid SQL scan retained-byte estimate",
                FailureCause::Word("zero"),
            ),
        );
    }
    let mut cookie: u64 = 0;
    let component_a = match scan {
        RecordScan::DirectoryEntries { parent_inode_id, .. } => {
            cookie =
            match decode_u64("directory_entries.cookie", row.cookie.as_str()) {
                Ok(cookie) => cookie,
                Err(error) => {
                    return Err(
                        corruption("invalid directory scan cookie", FailureCause::Numeric(error)),
                    );
                },
            };
            if cookie == 0 {
                return Err(
                    corruption(
                        "invalid directory scan cookie",
                        FailureCause::Word("zero"),
                    ),
                );
            }
            id_vec(parent_inode_id.value)
        },
        _ => copy_bytes(&row.first),
    };
    let component_b = match scan {
        RecordScan::DirectoryEntries { .. }
        | RecordScan::OpenPins { .. }
        | RecordScan::Locks { .. }
        | RecordScan::Xattrs { .. } => copy_bytes(&row.second),
        _ => Vec::new(),
    };
    let stored = SqlRecordKey {
        family_tag: scan.family(),
        filesystem_id,
        component_a,
        component_b,
    };
    assert(stored@ == candidate_key(filesystem_id, scan@, *row));
    match stored.decode(limits) {
        Ok(k) => {
            let cursor = position(&k, DirectoryCookie { value: cookie });
            Ok(ScanCandidate { key: k, cursor, retained_bytes })
        },
        Err(error) => Err(corruption("invalid SQL scan candidate key", FailureCause::Key(error))),
    }
}

/// Bytes that the first candidates retain together.
pub open spec fn total(candidates: Seq<Candidate>, count: int) -> nat
    decreases count,
{
    if count <= 0 {
        0
    } else {
        total(candidates, count - 1) + candidates[count - 1].retained_bytes as nat
    }
}

/// A page can hold that many of the first candidates.
pub open spec fn fits(candidates: Seq<Candidate>, bounds: ScanBounds, count: int) -> bool {
    count <= bounds.max_items && total(candidates, count) <= bounds.max_bytes
}

/// How many candidates a page holds: the longest run from the first one that
/// fits.
pub open spec fn page_length(candidates: Seq<Candidate>, bounds: ScanBounds, from: int) -> int
    decreases candidates.len() - from,
{
    if 0 <= from < candidates.len() && fits(candidates, bounds, from + 1) {
        page_length(candidates, bounds, from + 1)
    } else {
        from
    }
}

/// The first candidates stand in strict scan order.
pub open spec fn ordered(candidates: Seq<Candidate>, count: int) -> bool {
    forall|i: int|
        0 < i < count ==> query::resume_lt(
            (#[trigger] candidates[i - 1]).cursor,
            candidates[i].cursor,
        )
}

/// The first candidate, from an index on, that does not come after its
/// predecessor.
pub open spec fn first_disorder(candidates: Seq<Candidate>, from: int) -> int
    decreases candidates.len() - from,
{
    if 0 < from < candidates.len() && query::resume_lt(
        candidates[from - 1].cursor,
        candidates[from].cursor,
    ) {
        first_disorder(candidates, from + 1)
    } else {
        from
    }
}

/// The positions of a candidate and its predecessor, which are out of order.
pub open spec fn disorder(candidates: Seq<Candidate>, index: int) -> FailureCause<
    Seq<u8>,
    Seq<char>,
> {
    FailureCause::Order {
        previous: candidates[index - 1].cursor,
        next: candidates[index].cursor,
    }
}

proof fn lemma_first_disorder(candidates: Seq<Candidate>, from: int, index: int)
    requires
        0 < from <= index < candidates.len(),
        ordered(candidates, index),
        !query::resume_lt(candidates[index - 1].cursor, candidates[index].cursor),
    ensures
        first_disorder(candidates, from) == index,
    decreases index - from,
{
    if from < index {
        assert(query::resume_lt(candidates[from - 1].cursor, candidates[from].cursor));
        lemma_first_disorder(candidates, from + 1, index);
    }
}

/// Selection of the candidates of a page.
#[derive(Clone, Debug, PartialEq, Eq)]
pub enum CandidatePlan {
    /// These candidates, and where to go on.
    Selected {
        /// Candidates of the page.
        candidates: Vec<ScanCandidate>,
        /// Position after the last of them, where there is more.
        resume: Option<ScanResume>,
    },
    /// The first candidate alone needs that many bytes.
    TooSmall(usize),
}

/// Selection of the candidates of a page, as contracts speak of it.
pub enum PlanView {
    /// These candidates, and where to go on.
    Selected {
        /// Candidates of the page.
        candidates: Seq<Candidate>,
        /// Position after the last of them, where there is more.
        resume: Option<ScanResume<Seq<u8>>>,
    },
    /// The first candidate alone needs that many bytes.
    TooSmall(usize),
}

impl View for CandidatePlan {
    type V = PlanView;

    open spec fn view(&self) -> PlanView {
        match self {
            CandidatePlan::Selected { candidates, resume } => PlanView::Selected {
                candidates: candidate_views(candidates@),
                resume: query::optional_resume(*resume),
            },
            CandidatePlan::TooSmall(required) => PlanView::TooSmall(*required),
        }
    }
}

/// How many candidates the selection looks at: the page and one more.
pub open spec fn examined(candidates: Seq<Candidate>, bounds: ScanBounds) -> int {
    let n = page_length(candidates, bounds, 0);
    if n < candidates.len() {
        n + 1
    } else {
        n
    }
}

/// The selection for a page: the longest run that fits, to be resumed after
/// its last candidate where more follow.
pub open spec fn selection(candidates: Seq<Candidate>, bounds: ScanBounds) -> Result<
    PlanView,
    StateFailure,
> {
    let n = page_length(candidates, bounds, 0);
    if candidates.len() > bounds.max_items + 1 {
        Err(
            read_corruption(
                "scan preflight exceeded item lookahead bound",
                FailureCause::Count(candidates.len() as u64),
            ),
        )
    } else if !ordered(candidates, examined(candidates, bounds)) {
        Err(
            read_corruption(
                "scan preflight cursors are not strictly ordered",
                disorder(candidates, first_disorder(candidates, 1)),
            ),
        )
    } else if n < candidates.len() && n < bounds.max_items && total(candidates, n + 1)
        > usize::MAX {
        Err(
            read_corruption(
                "scan aggregate retained-byte estimate overflowed",
                FailureCause::Word(""),
            ),
        )
    } else if n == 0 && candidates.len() > 0 && bounds.max_items > 0 {
        Ok(PlanView::TooSmall(candidates[0].retained_bytes))
    } else {
        Ok(
            PlanView::Selected {
                candidates: candidates.take(n),
                resume: if 0 < n < candidates.len() {
                    Some(candidates[n - 1].cursor)
                } else {
                    None
                },
            },
        )
    }
}

proof fn lemma_page_length(candidates: Seq<Candidate>, bounds: ScanBounds, from: int)
    requires
        0 <= from <= candidates.len(),
        from == 0 || fits(candidates, bounds, from),
    ensures
        from <= page_length(candidates, bounds, from) <= candidates.len(),
        page_length(candidates, bounds, from) == 0 || fits(
            candidates,
            bounds,
            page_length(candidates, bounds, from),
        ),
        page_length(candidates, bounds, from) < candidates.len() ==> !fits(
            candidates,
            bounds,
            page_length(candidates, bounds, from) + 1,
        ),
    decreases candidates.len() - from,
{
    if from < candidates.len() && fits(candidates, bounds, from + 1) {
        lemma_page_length(candidates, bounds, from + 1);
    }
}

/// Every page keeps its bounds, and a page that stops before the last
/// candidate could not have held the next one.
pub proof fn law_pages_keep_their_bounds(candidates: Seq<Candidate>, bounds: ScanBounds)
    requires
        selection(candidates, bounds) is Ok,
    ensures
        match selection(candidates, bounds)->Ok_0 {
            PlanView::Selected { candidates: page, resume } => {
                &&& page.len() <= bounds.max_items
                &&& total(candidates, page.len() as int) <= bounds.max_bytes
                &&& page == candidates.take(page.len() as int)
                &&& page.len() < candidates.len() ==> !fits(
                    candidates,
                    bounds,
                    page.len() as int + 1,
                )
                &&& resume is Some ==> page.len() > 0 && resume->0 == page.last().cursor
                &&& page.len() > 0 ==> (resume is None <==> page.len() == candidates.len())
            },
            PlanView::TooSmall(required) => {
                &&& candidates.len() > 0
                &&& required == candidates[0].retained_bytes
                &&& required > bounds.max_bytes
            },
        },
{
    lemma_page_length(candidates, bounds, 0);
    reveal_with_fuel(total, 2);
    let n = page_length(candidates, bounds, 0);
    assert(candidates.take(n).len() == n);
    if 0 < n {
        assert(candidates.take(n).last() == candidates[n - 1]);
    }
}

/// Where a scan went on after a page, nothing of the page comes again: every
/// candidate of the page stands at or before its resume position.
pub proof fn law_resumed_scans_repeat_nothing(
    candidates: Seq<Candidate>,
    bounds: ScanBounds,
    index: int,
)
    requires
        selection(candidates, bounds) is Ok,
        selection(candidates, bounds)->Ok_0 is Selected,
        selection(candidates, bounds)->Ok_0->resume is Some,
        0 <= index < selection(candidates, bounds)->Ok_0->candidates.len(),
    ensures
        ({
            let position = selection(candidates, bounds)->Ok_0->resume->0;
            let cursor = selection(candidates, bounds)->Ok_0->candidates[index].cursor;
            cursor == position || query::resume_lt(cursor, position)
        }),
{
    lemma_page_length(candidates, bounds, 0);
    let n = page_length(candidates, bounds, 0);
    lemma_ordered_run(candidates, examined(candidates, bounds), index, n - 1);
}

proof fn lemma_ordered_run(candidates: Seq<Candidate>, count: int, low: int, high: int)
    requires
        ordered(candidates, count),
        0 <= low <= high < count <= candidates.len(),
    ensures
        low == high || query::resume_lt(candidates[low].cursor, candidates[high].cursor),
    decreases high - low,
{
    if low < high {
        lemma_ordered_run(candidates, count, low, high - 1);
        assert(query::resume_lt(candidates[high - 1].cursor, candidates[high].cursor));
        if low < high - 1 {
            lemma_position_transitive(
                candidates[low].cursor,
                candidates[high - 1].cursor,
                candidates[high].cursor,
            );
        }
    }
}

proof fn lemma_position_transitive(
    first: ScanResume<Seq<u8>>,
    second: ScanResume<Seq<u8>>,
    third: ScanResume<Seq<u8>>,
)
    requires
        query::resume_lt(first, second),
        query::resume_lt(second, third),
    ensures
        query::resume_lt(first, third),
{
    let a = query::resume_name(first);
    let b = query::resume_name(second);
    let c = query::resume_name(third);
    if bytes::lex_lt(a, b) && bytes::lex_lt(b, c) {
        bytes::lemma_lex_transitive(a, b, c);
    }
}

/// Selects the candidates of a page.
pub fn plan_scan_candidates(scan: &RecordScan, candidates: Vec<ScanCandidate>) -> (result: Result<
    CandidatePlan,
    PostgresStateError,
>)
    ensures
        match result {
            Ok(plan) => selection(candidate_views(candidates@), query::scan_bounds(scan@)) == Ok::<
                PlanView,
                StateFailure,
            >(plan@),
            Err(error) => selection(candidate_views(candidates@), query::scan_bounds(scan@))
                == Err::<PlanView, StateFailure>(error@),
        },
{
    let bounds = scan.bounds();
    let maximum: usize = bounds.max_items as usize;
    let count: usize = candidates.len();
    let ghost views = candidate_views(candidates@);
    assert(views.len() == count);
    if count > 0 && count - 1 > maximum {
        return Err(
            corruption(
                "scan preflight exceeded item lookahead bound",
                FailureCause::Count(count as u64),
            ),
        );
    }
    let mut retained: usize = 0;
    let mut taken: usize = 0;
    proof {
        lemma_page_length(views, bounds, 0);
    }
    let mut stopped = false;
    while taken < count && !stopped
        invariant
            taken <= count,
            count == candidates@.len(),
            count <= bounds.max_items + 1,
            views == candidate_views(candidates@),
            views.len() == count,
            bounds == query::scan_bounds(scan@),
            maximum == bounds.max_items,
            retained == total(views, taken as int),
            taken == 0 || fits(views, bounds, taken as int),
            ordered(views, taken as int),
            page_length(views, bounds, 0) == page_length(views, bounds, taken as int),
            page_length(views, bounds, 0) <= count,
            stopped ==> {
                &&& 0 <= taken < count
                &&& page_length(views, bounds, 0) == taken
                &&& ordered(views, taken + 1)
                &&& taken == maximum || (taken > 0 && total(views, taken + 1) <= usize::MAX)
            },
        decreases count - taken, (if stopped { 0int } else { 1 }),
    {
        proof {
            lemma_page_length(views, bounds, taken as int);
            reveal_with_fuel(total, 2);
        }
        assert(views[taken as int] == candidates@[taken as int]@);
        if taken > 0 {
            assert(views[taken - 1] == candidates@[taken - 1]@);
            if !candidates[taken - 1].cursor.precedes(&candidates[taken].cursor) {
                assert(!query::resume_lt(views[taken - 1].cursor, views[taken as int].cursor));
                assert(examined(views, bounds) > taken);
                proof {
                    lemma_first_disorder(views, 1, taken as int);
                }
                return Err(
                    corruption(
                        "scan preflight cursors are not strictly ordered",
                        FailureCause::Order {
                            previous: candidates[taken - 1].cursor.copied(),
                            next: candidates[taken].cursor.copied(),
                        },
                    ),
                );
            }
        }
        assert(ordered(views, taken + 1));
        if taken == maximum {
            stopped = true;
        } else {
            match retained.checked_add(candidates[taken].retained_bytes) {
                None => {
                    assert(page_length(views, bounds, 0) == taken);
                    return Err(
                        corruption(
                            "scan aggregate retained-byte estimate overflowed",
                            FailureCause::Word(""),
                        ),
                    );
                },
                Some(next) => {
                    if next > bounds.max_bytes {
                        if taken == 0 {
                            return Ok(CandidatePlan::TooSmall(candidates[taken].retained_bytes));
                        }
                        stopped = true;
                    } else {
                        retained = next;
                        taken = taken + 1;
                    }
                },
            }
        }
    }
    let mut selected = candidates;
    let mut resume: Option<ScanResume> = None;
    if stopped && taken > 0 {
        resume = Some(selected[taken - 1].cursor.copied());
        assert(views[taken - 1] == selected@[taken - 1]@);
    }
    selected.truncate(taken);
    assert(candidate_views(selected@) =~= views.take(taken as int));
    Ok(CandidatePlan::Selected { candidates: selected, resume })
}

/// The position after a record, if scans find records of its family.
pub open spec fn record_position(
    k: RecordKey<Seq<u8>>,
    record: StateRecord<Seq<u8>, Seq<char>>,
) -> Option<ScanResume<Seq<u8>>> {
    match (k, record) {
        (RecordKey::Inode(_, id), StateRecord::Inode(_)) => Some(ScanResume::Inode(id)),
        (RecordKey::ContentMetadata(_, id), StateRecord::ContentMetadata(_)) => Some(
            ScanResume::ContentMetadata(id),
        ),
        (RecordKey::DirectoryEntry(_, _, _), StateRecord::DirectoryEntry(entry)) => Some(
            ScanResume::DirectoryEntry(entry.cookie),
        ),
        (RecordKey::Open(_, id), StateRecord::Open(_)) => Some(ScanResume::Open(id)),
        (RecordKey::OpenPin(_, inode_id, open_id), StateRecord::OpenPin(_)) => Some(
            ScanResume::OpenPin(OpenPinCursor { inode_id, open_id }),
        ),
        (RecordKey::Orphan(_, id), StateRecord::Orphan(_)) => Some(ScanResume::Orphan(id)),
        (RecordKey::Lock(_, inode_id, lock_id), StateRecord::Lock(_)) => Some(
            ScanResume::Lock(LockCursor { inode_id, lock_id }),
        ),
        (RecordKey::Xattr(_, inode_id, name), StateRecord::Xattr(_)) => Some(
            ScanResume::Xattr(XattrCursor { inode_id, name }),
        ),
        (RecordKey::XattrStaging(_, id), StateRecord::XattrStaging(_)) => Some(
            ScanResume::XattrStaging(id),
        ),
        (RecordKey::Mutation(_, id), StateRecord::Mutation(_)) => Some(ScanResume::Mutation(id)),
        (RecordKey::WriterLease(_, scope), StateRecord::WriterLease(_)) => Some(
            ScanResume::WriterLease(scope),
        ),
        _ => None,
    }
}

/// The position after a record, if scans find records of its family.
pub fn scan_resume(k: &RecordKey, record: &StateRecord) -> (result: Option<ScanResume>)
    ensures
        query::optional_resume(result) == record_position(k@, record@),
{
    match (k, record) {
        (RecordKey::Inode(_, id), StateRecord::Inode(_)) => Some(ScanResume::Inode(*id)),
        (RecordKey::ContentMetadata(_, id), StateRecord::ContentMetadata(_)) => Some(
            ScanResume::ContentMetadata(*id),
        ),
        (RecordKey::DirectoryEntry(_, _, _), StateRecord::DirectoryEntry(entry)) => Some(
            ScanResume::DirectoryEntry(entry.cookie),
        ),
        (RecordKey::Open(_, id), StateRecord::Open(_)) => Some(ScanResume::Open(*id)),
        (RecordKey::OpenPin(_, inode_id, open_id), StateRecord::OpenPin(_)) => Some(
            ScanResume::OpenPin(OpenPinCursor { inode_id: *inode_id, open_id: *open_id }),
        ),
        (RecordKey::Orphan(_, id), StateRecord::Orphan(_)) => Some(ScanResume::Orphan(*id)),
        (RecordKey::Lock(_, inode_id, lock_id), StateRecord::Lock(_)) => Some(
            ScanResume::Lock(LockCursor { inode_id: *inode_id, lock_id: *lock_id }),
        ),
        (RecordKey::Xattr(_, inode_id, name), StateRecord::Xattr(_)) => Some(
            ScanResume::Xattr(XattrCursor { inode_id: *inode_id, name: name.copied() }),
        ),
        (RecordKey::XattrStaging(_, id), StateRecord::XattrStaging(_)) => Some(
            ScanResume::XattrStaging(*id),
        ),
        (RecordKey::Mutation(_, id), StateRecord::Mutation(_)) => Some(ScanResume::Mutation(*id)),
        (RecordKey::WriterLease(_, scope), StateRecord::WriterLease(_)) => Some(
            ScanResume::WriterLease(*scope),
        ),
        _ => None,
    }
}

/// Bytes that a record retains in a page.
pub open spec fn retained_record(record: StateRecord<Seq<u8>, Seq<char>>) -> nat {
    match record {
        StateRecord::ContentMetadata(r) => 96 + r.policy_bytes.len() + estimate::optional_len(
            r.wrapped_key_bytes,
        ),
        _ => estimate::record_bytes(record),
    }
}

/// Bytes that a record retains in a page.
pub fn retained_record_bytes(record: &StateRecord) -> (result: Option<usize>)
    ensures
        result == estimate::fitting(retained_record(record@)),
{
    match record {
        StateRecord::ContentMetadata(r) => {
            let wrapped: usize = match &r.wrapped_key_bytes {
                Some(bytes) => bytes.len(),
                None => 0,
            };
            match r.policy_bytes.len().checked_add(wrapped) {
                Some(variable) => variable.checked_add(96),
                None => None,
            }
        },
        _ => estimate_record(record),
    }
}

/// Bytes that a key retains in a page.
pub fn retained_key_bytes(k: &RecordKey) -> (result: Option<usize>)
    ensures
        result == estimate::fitting(estimate::key_bytes(k@)),
{
    estimate_key(k)
}

/// Bytes that a record and its key retain in a page.
pub open spec fn retained_item(
    k: RecordKey<Seq<u8>>,
    record: StateRecord<Seq<u8>, Seq<char>>,
) -> nat {
    estimate::key_bytes(k) + retained_record(record)
}

/// Bytes that a record and its key retain in a page.
pub fn retained_item_bytes(k: &RecordKey, record: &StateRecord) -> (result: Option<usize>)
    ensures
        result == estimate::fitting(retained_item(k@, record@)),
{
    match (retained_key_bytes(k), retained_record_bytes(record)) {
        (Some(left), Some(right)) => left.checked_add(right),
        _ => None,
    }
}

/// Why a record is not the one that its candidate announced.
pub open spec fn announced_failure(
    candidate: Candidate,
    record: Option<StateRecord<Seq<u8>, Seq<char>>>,
) -> Option<StateFailure> {
    match record {
        None => Some(
            read_corruption(
                "scan candidate disappeared inside one read snapshot",
                FailureCause::Record(candidate.key),
            ),
        ),
        Some(record) => match estimate::fitting(retained_item(candidate.key, record)) {
            None => Some(
                read_corruption(
                    "scan retained-byte estimate overflowed",
                    FailureCause::Record(candidate.key),
                ),
            ),
            Some(decoded) => if decoded != candidate.retained_bytes {
                Some(
                    read_corruption(
                        "SQL scan retained-byte preflight disagrees with decoded record",
                        FailureCause::Estimate {
                            key: candidate.key,
                            stored: candidate.retained_bytes,
                            decoded,
                        },
                    ),
                )
            } else if record_position(candidate.key, record) != Some(candidate.cursor) {
                Some(
                    read_corruption(
                        "scan candidate cursor disagrees with decoded record",
                        FailureCause::Record(candidate.key),
                    ),
                )
            } else {
                None
            },
        },
    }
}

/// Checks the record behind a candidate against what the candidate announced.
pub fn check_announced(candidate: &ScanCandidate, record: Option<StateRecord>) -> (result: Result<
    StateRecord,
    PostgresStateError,
>)
    ensures
        match result {
            Ok(found) => {
                &&& announced_failure(candidate@, query::optional_record(record)) is None
                &&& query::optional_record(record) == Some(found@)
            },
            Err(error) => announced_failure(candidate@, query::optional_record(record)) == Some(
                error@,
            ),
        },
{
    let record = match record {
        Some(record) => record,
        None => {
            return Err(
                corruption(
                    "scan candidate disappeared inside one read snapshot",
                    FailureCause::Record(candidate.key.copied()),
                ),
            );
        },
    };
    let decoded: usize = match retained_item_bytes(&candidate.key, &record) {
        Some(decoded) => decoded,
        None => {
            return Err(
                corruption(
                    "scan retained-byte estimate overflowed",
                    FailureCause::Record(candidate.key.copied()),
                ),
            );
        },
    };
    if decoded != candidate.retained_bytes {
        return Err(
            corruption(
                "SQL scan retained-byte preflight disagrees with decoded record",
                FailureCause::Estimate {
                    key: candidate.key.copied(),
                    stored: candidate.retained_bytes,
                    decoded,
                },
            ),
        );
    }
    let agrees = match scan_resume(&candidate.key, &record) {
        Some(cursor) => cursor.same(&candidate.cursor),
        None => false,
    };
    if !agrees {
        return Err(
            corruption(
                "scan candidate cursor disagrees with decoded record",
                FailureCause::Record(candidate.key.copied()),
            ),
        );
    }
    Ok(record)
}

} // verus!
