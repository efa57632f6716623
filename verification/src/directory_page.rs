//! Pages of a directory: rows, their budget and the position to go on.
use vstd::prelude::*;

use crate::bytes;
use crate::bytes::{copy_bytes, id_from_bytes};
use crate::failure::{FailureCause, PostgresStateError, StateFailure};
use crate::ids::{DirectoryCookie, InodeId, InvalidValue, QidPath, RecordRevision};
use crate::limits::StateLimits;
use crate::numeric;
use crate::numeric::{decode_u64, NumericCodecError};
use crate::query::{DirectoryPage, DirectoryPageEntry, DirectoryPageView, ScanBounds};
use crate::record::{DirectoryEntryRecord, InodeKind};
use crate::row_codec;
use crate::scan;
use crate::scan::corruption;
use crate::values;
use crate::values::EntryName;

verus! {

/// Columns of one row of a directory page.
#[derive(Clone, Debug, PartialEq, Eq)]
pub struct DirectoryPageRow {
    /// Column `name`.
    pub name: Vec<u8>,
    /// Column `cookie_text`.
    pub cookie: String,
    /// Column `child_inode_id`.
    pub child_inode_id: Vec<u8>,
    /// Column `entry_record_revision`.
    pub entry_revision: String,
    /// Column `kind`.
    pub kind: i16,
    /// Column `qid_path`.
    pub qid_path: String,
    /// Column `child_record_revision`.
    pub child_revision: String,
    /// Column `retained_bytes`.
    pub retained_bytes: i64,
}

/// The failure of a number column.
pub open spec fn number_failure(
    context: &'static str,
    field: &'static str,
    text: Seq<char>,
) -> Option<StateFailure> {
    if !numeric::parses(text) {
        Some(
            scan::read_corruption(
                context,
                FailureCause::Numeric(NumericCodecError { field, value: text }),
            ),
        )
    } else if numeric::parsed(text) == 0 {
        Some(scan::read_corruption(context, FailureCause::Value(InvalidValue::Zero)))
    } else {
        None
    }
}

fn nonzero(context: &'static str, field: &'static str, text: &String) -> (result: Result<
    u64,
    PostgresStateError,
>)
    ensures
        match result {
            Ok(value) => number_failure(context, field, text@) is None && value == numeric::parsed(
                text@,
            ) && value != 0,
            Err(error) => number_failure(context, field, text@) == Some(error@),
        },
{
    match decode_u64(field, text.as_str()) {
        Ok(value) => if value == 0 {
            Err(corruption(context, FailureCause::Value(InvalidValue::Zero)))
        } else {
            Ok(value)
        },
        Err(error) => Err(corruption(context, FailureCause::Numeric(error))),
    }
}

/// The failure of a cookie column.
pub open spec fn cookie_failure(text: Seq<char>) -> Option<StateFailure> {
    if !numeric::parses(text) {
        Some(
            scan::read_corruption(
                "invalid directory-page cookie",
                FailureCause::Numeric(
                    NumericCodecError { field: "directory-page cookie", value: text },
                ),
            ),
        )
    } else if numeric::parsed(text) == 0 {
        Some(scan::read_corruption("invalid directory-page cookie", FailureCause::Word("zero")))
    } else {
        None
    }
}

fn decode_cookie(text: &String) -> (result: Result<DirectoryCookie, PostgresStateError>)
    ensures
        match result {
            Ok(cookie) => cookie_failure(text@) is None && cookie.value == numeric::parsed(text@),
            Err(error) => cookie_failure(text@) == Some(error@),
        },
{
    match decode_u64("directory-page cookie", text.as_str()) {
        Ok(value) => if value == 0 {
            Err(corruption("invalid directory-page cookie", FailureCause::Word("zero")))
        } else {
            Ok(DirectoryCookie { value })
        },
        Err(error) => Err(
            corruption("invalid directory-page cookie", FailureCause::Numeric(error)),
        ),
    }
}

/// Bytes that a row retains in a page.
pub open spec fn row_bytes(row: DirectoryPageRow) -> nat {
    192 + 2 * row.name@.len()
}

/// The failure of an identity column.
pub open spec fn inode_id_failure(bytes: Seq<u8>) -> Option<StateFailure> {
    if bytes.len() == 16 {
        None
    } else {
        Some(
            scan::read_corruption(
                "invalid directory-page inode identity width",
                FailureCause::Count(bytes.len() as u64),
            ),
        )
    }
}

/// Reads an identity column.
pub fn decode_inode_id(bytes: &Vec<u8>) -> (result: Result<InodeId, PostgresStateError>)
    ensures
        match result {
            Ok(id) => inode_id_failure(bytes@) is None && id.value == bytes::id_value(bytes@),
            Err(error) => inode_id_failure(bytes@) == Some(error@),
        },
{
    if bytes.len() == 16 {
        Ok(InodeId { value: id_from_bytes(bytes) })
    } else {
        Err(
            corruption(
                "invalid directory-page inode identity width",
                FailureCause::Count(bytes.len() as u64),
            ),
        )
    }
}

/// The failure of a kind column.
pub open spec fn inode_kind_failure(tag: i16) -> Option<StateFailure> {
    if 1 <= tag <= 7 {
        None
    } else {
        Some(scan::read_corruption("invalid directory-page inode kind", FailureCause::Signed(tag as i64)))
    }
}

/// Reads a kind column.
pub fn decode_inode_kind(tag: i16) -> (result: Result<InodeKind, PostgresStateError>)
    ensures
        match result {
            Ok(kind) => inode_kind_failure(tag) is None && row_codec::kind_tag(kind) == tag,
            Err(error) => inode_kind_failure(tag) == Some(error@),
        },
{
    match tag {
        1 => Ok(InodeKind::RegularFile),
        2 => Ok(InodeKind::Directory),
        3 => Ok(InodeKind::Symlink),
        4 => Ok(InodeKind::CharacterDevice),
        5 => Ok(InodeKind::BlockDevice),
        6 => Ok(InodeKind::Fifo),
        7 => Ok(InodeKind::Socket),
        _ => Err(corruption("invalid directory-page inode kind", FailureCause::Signed(tag as i64))),
    }
}

/// The earlier of two failures.
pub open spec fn earlier(first: Option<StateFailure>, second: Option<StateFailure>) -> Option<
    StateFailure,
> {
    match first {
        Some(failure) => Some(failure),
        None => second,
    }
}

/// Why a row is no entry of a directory page.
pub open spec fn row_failure(row: DirectoryPageRow, limits: StateLimits) -> Option<StateFailure> {
    let name = match values::entry_name_failure(row.name@, limits) {
        Some(error) => Some(
            scan::read_corruption("invalid directory-page name", FailureCause::Bounded(error)),
        ),
        None => None,
    };
    let size = if row_bytes(row) > usize::MAX {
        Some(
            scan::read_corruption(
                "directory-page retained-byte estimate overflowed",
                FailureCause::Word(""),
            ),
        )
    } else if row.retained_bytes != row_bytes(row) {
        Some(
            scan::read_corruption(
                "directory-page SQL retained-byte estimate disagrees with decoded entry",
                FailureCause::Signed(row.retained_bytes),
            ),
        )
    } else {
        None
    };
    earlier(
        name,
        earlier(
            cookie_failure(row.cookie@),
            earlier(
                inode_id_failure(row.child_inode_id@),
                earlier(
                    number_failure(
                        "invalid directory-page entry revision",
                        "directory-page entry revision",
                        row.entry_revision@,
                    ),
                    earlier(
                        inode_kind_failure(row.kind),
                        earlier(
                            number_failure(
                                "invalid directory-page QID path",
                                "directory-page QID path",
                                row.qid_path@,
                            ),
                            earlier(
                                number_failure(
                                    "invalid directory-page child revision",
                                    "directory-page child revision",
                                    row.child_revision@,
                                ),
                                size,
                            ),
                        ),
                    ),
                ),
            ),
        ),
    )
}

/// An entry is the one that a row of a directory spells.
pub open spec fn is_row_entry(
    parent_inode_id: InodeId,
    row: DirectoryPageRow,
    entry: DirectoryPageEntry<Seq<u8>>,
) -> bool {
    &&& entry.entry == DirectoryEntryRecord {
        parent_inode_id,
        name: EntryName { bytes: row.name@ },
        cookie: DirectoryCookie { value: numeric::parsed(row.cookie@) },
        child_inode_id: InodeId { value: bytes::id_value(row.child_inode_id@) },
        revision: RecordRevision { value: numeric::parsed(row.entry_revision@) },
    }
    &&& row_codec::kind_tag(entry.kind) == row.kind
    &&& entry.qid_path == QidPath { value: numeric::parsed(row.qid_path@) }
    &&& entry.child_revision == RecordRevision { value: numeric::parsed(row.child_revision@) }
}

/// Reads one row of a directory page.
pub fn decode_row(row: &DirectoryPageRow, parent_inode_id: InodeId, limits: StateLimits) -> (result:
    Result<(DirectoryPageEntry, usize), PostgresStateError>)
    ensures
        match result {
            Ok(pair) => {
                &&& row_failure(*row, limits) is None
                &&& is_row_entry(parent_inode_id, *row, pair.0@)
                &&& pair.1 == row_bytes(*row)
            },
            Err(error) => row_failure(*row, limits) == Some(error@),
        },
{
    let name = match EntryName::new(copy_bytes(&row.name), limits) {
        Ok(name) => name,
        Err(error) => {
            return Err(corruption("invalid directory-page name", FailureCause::Bounded(error)));
        },
    };
    let cookie = decode_cookie(&row.cookie)?;
    let child_inode_id = decode_inode_id(&row.child_inode_id)?;
    let entry_revision: u64 = nonzero(
        "invalid directory-page entry revision",
        "directory-page entry revision",
        &row.entry_revision,
    )?;
    let kind = decode_inode_kind(row.kind)?;
    let qid_path: u64 = nonzero(
        "invalid directory-page QID path",
        "directory-page QID path",
        &row.qid_path,
    )?;
    let child_revision: u64 = nonzero(
        "invalid directory-page child revision",
        "directory-page child revision",
        &row.child_revision,
    )?;
    let length: usize = row.name.len();
    let doubled: Option<usize> = length.checked_add(length);
    let size: Option<usize> = match doubled {
        Some(doubled) => doubled.checked_add(192),
        None => None,
    };
    let item_bytes: usize = match size {
        Some(item_bytes) => item_bytes,
        None => {
            return Err(
                corruption(
                    "directory-page retained-byte estimate overflowed",
                    FailureCause::Word(""),
                ),
            );
        },
    };
    if row.retained_bytes < 0 || row.retained_bytes as u64 != item_bytes as u64 {
        return Err(
            corruption(
                "directory-page SQL retained-byte estimate disagrees with decoded entry",
                FailureCause::Signed(row.retained_bytes),
            ),
        );
    }
    let entry = DirectoryEntryRecord {
        parent_inode_id,
        name,
        cookie,
        child_inode_id,
        revision: RecordRevision { value: entry_revision },
    };
    Ok(
        (
            DirectoryPageEntry {
                entry,
                kind,
                qid_path: QidPath { value: qid_path },
                child_revision: RecordRevision { value: child_revision },
            },
            item_bytes,
        ),
    )
}

/// Bytes that the first rows retain together.
pub open spec fn total(rows: Seq<DirectoryPageRow>, count: int) -> nat
    decreases count,
{
    if count <= 0 {
        0
    } else {
        total(rows, count - 1) + row_bytes(rows[count - 1])
    }
}

/// A page can hold that many of the first rows.
pub open spec fn fits(rows: Seq<DirectoryPageRow>, bounds: ScanBounds, count: int) -> bool {
    count <= bounds.max_items && total(rows, count) <= bounds.max_bytes
}

/// How many rows a page holds: the longest run from the first one that fits.
pub open spec fn page_length(rows: Seq<DirectoryPageRow>, bounds: ScanBounds, from: int) -> int
    decreases rows.len() - from,
{
    if 0 <= from < rows.len() && fits(rows, bounds, from + 1) {
        page_length(rows, bounds, from + 1)
    } else {
        from
    }
}

/// How many rows are read: those of the page, and the next one unless the page
/// holds all the items that it may.
pub open spec fn examined(rows: Seq<DirectoryPageRow>, bounds: ScanBounds) -> int {
    let n = page_length(rows, bounds, 0);
    if n < rows.len() && n < bounds.max_items {
        n + 1
    } else {
        n
    }
}

/// The failure of the first corrupt row from an index on.
pub open spec fn first_failure(
    rows: Seq<DirectoryPageRow>,
    limits: StateLimits,
    from: int,
    count: int,
) -> Option<StateFailure>
    decreases count - from,
{
    if from >= count {
        None
    } else {
        earlier(row_failure(rows[from], limits), first_failure(rows, limits, from + 1, count))
    }
}

/// What becomes of the rows of a directory page.
pub enum PageOutcome {
    /// A page.
    Page(DirectoryPage),
    /// The first row alone needs that many bytes.
    TooSmall(usize),
}

/// Why rows make no directory page.
pub open spec fn page_failure(
    rows: Seq<DirectoryPageRow>,
    bounds: ScanBounds,
    limits: StateLimits,
) -> Option<StateFailure> {
    let n = page_length(rows, bounds, 0);
    earlier(
        first_failure(rows, limits, 0, examined(rows, bounds)),
        if n < examined(rows, bounds) && total(rows, n + 1) > usize::MAX {
            Some(
                scan::read_corruption("directory-page byte total overflowed", FailureCause::Word("")),
            )
        } else {
            None
        },
    )
}

/// The first row alone exceeds the bounds of the page.
pub open spec fn too_small(rows: Seq<DirectoryPageRow>, bounds: ScanBounds) -> bool {
    rows.len() > 0 && bounds.max_items > 0 && row_bytes(rows[0]) > bounds.max_bytes
}

/// A page is made of the longest run of rows that fits, to be resumed after
/// its last entry where more follow.
pub open spec fn is_page(
    parent_inode_id: InodeId,
    rows: Seq<DirectoryPageRow>,
    bounds: ScanBounds,
    page: DirectoryPageView,
) -> bool {
    let n = page_length(rows, bounds, 0);
    &&& page.entries.len() == n
    &&& forall|i: int|
        0 <= i < n ==> is_row_entry(parent_inode_id, rows[i], #[trigger] page.entries[i])
    &&& page.resume == (if 0 < n < rows.len() {
        Some(page.entries[n - 1].entry.cookie)
    } else {
        None
    })
}

proof fn lemma_page_length(rows: Seq<DirectoryPageRow>, bounds: ScanBounds, from: int)
    requires
        0 <= from <= rows.len(),
        from == 0 || fits(rows, bounds, from),
    ensures
        from <= page_length(rows, bounds, from) <= rows.len(),
        page_length(rows, bounds, from) == 0 || fits(
            rows,
            bounds,
            page_length(rows, bounds, from),
        ),
        page_length(rows, bounds, from) < rows.len() ==> !fits(
            rows,
            bounds,
            page_length(rows, bounds, from) + 1,
        ),
    decreases rows.len() - from,
{
    if from < rows.len() && fits(rows, bounds, from + 1) {
        lemma_page_length(rows, bounds, from + 1);
    }
}

proof fn lemma_first_failure(
    rows: Seq<DirectoryPageRow>,
    limits: StateLimits,
    from: int,
    index: int,
    count: int,
)
    requires
        0 <= from <= index <= count,
        forall|i: int| from <= i < index ==> row_failure(#[trigger] rows[i], limits) is None,
    ensures
        first_failure(rows, limits, from, count) == first_failure(rows, limits, index, count),
    decreases index - from,
{
    if from < index {
        assert(row_failure(rows[from], limits) is None);
        lemma_first_failure(rows, limits, from + 1, index, count);
    }
}

/// Every directory page keeps its bounds, and a page that stops before the
/// last row could not have held the next one.
pub proof fn law_directory_pages_keep_their_bounds(
    parent_inode_id: InodeId,
    rows: Seq<DirectoryPageRow>,
    bounds: ScanBounds,
    page: DirectoryPageView,
)
    requires
        is_page(parent_inode_id, rows, bounds, page),
    ensures
        page.entries.len() <= bounds.max_items,
        total(rows, page.entries.len() as int) <= bounds.max_bytes,
        page.entries.len() < rows.len() ==> !fits(rows, bounds, page.entries.len() as int + 1),
        page.entries.len() > 0 ==> (page.resume is None <==> page.entries.len() == rows.len()),
{
    lemma_page_length(rows, bounds, 0);
}

/// Makes a page of a directory from its rows.
pub fn assemble_directory_page(
    rows: &Vec<DirectoryPageRow>,
    parent_inode_id: InodeId,
    bounds: ScanBounds,
    limits: StateLimits,
) -> (result: Result<PageOutcome, PostgresStateError>)
    ensures
        match result {
            Err(error) => page_failure(rows@, bounds, limits) == Some(error@),
            Ok(PageOutcome::TooSmall(required)) => {
                &&& page_failure(rows@, bounds, limits) is None
                &&& too_small(rows@, bounds)
                &&& required == row_bytes(rows@[0])
            },
            Ok(PageOutcome::Page(page)) => {
                &&& page_failure(rows@, bounds, limits) is None
                &&& !too_small(rows@, bounds)
                &&& is_page(parent_inode_id, rows@, bounds, page@)
            },
        },
{
    let maximum: usize = bounds.max_items as usize;
    let count: usize = rows.len();
    let mut entries: Vec<DirectoryPageEntry> = Vec::new();
    let mut retained: usize = 0;
    let mut taken: usize = 0;
    let mut stopped = false;
    proof {
        lemma_page_length(rows@, bounds, 0);
    }
    while taken < count && !stopped
        invariant
            taken <= count,
            count == rows@.len(),
            maximum == bounds.max_items,
            entries@.len() == taken,
            forall|i: int|
                0 <= i < taken ==> is_row_entry(
                    parent_inode_id,
                    rows@[i],
                    (#[trigger] entries@[i])@,
                ),
            forall|i: int| 0 <= i < taken ==> row_failure(#[trigger] rows@[i], limits) is None,
            retained == total(rows@, taken as int),
            taken == 0 || fits(rows@, bounds, taken as int),
            page_length(rows@, bounds, 0) == page_length(rows@, bounds, taken as int),
            page_length(rows@, bounds, 0) <= count,
            taken > 0 ==> !too_small(rows@, bounds),
            stopped ==> {
                &&& taken < count
                &&& page_length(rows@, bounds, 0) == taken
                &&& taken == maximum || {
                    &&& taken > 0
                    &&& taken < maximum
                    &&& row_failure(rows@[taken as int], limits) is None
                    &&& total(rows@, taken + 1) <= usize::MAX
                }
            },
        decreases count - taken, (if stopped { 0int } else { 1 }),
    {
        proof {
            lemma_page_length(rows@, bounds, taken as int);
            reveal_with_fuel(total, 2);
        }
        if taken == maximum {
            stopped = true;
        } else {
            proof {
                assert(examined(rows@, bounds) > taken);
                lemma_first_failure(rows@, limits, 0, taken as int, examined(rows@, bounds));
            }
            let (entry, item_bytes) = decode_row(&rows[taken], parent_inode_id, limits)?;
            match retained.checked_add(item_bytes) {
                None => {
                    proof {
                        assert(page_length(rows@, bounds, 0) == taken);
                        assert(examined(rows@, bounds) == taken + 1);
                        lemma_first_failure(rows@, limits, 0, taken + 1, taken + 1);
                    }
                    return Err(
                        corruption("directory-page byte total overflowed", FailureCause::Word("")),
                    );
                },
                Some(next) => {
                    if next > bounds.max_bytes {
                        if taken == 0 {
                            proof {
                                lemma_first_failure(rows@, limits, 0, 1, 1);
                            }
                            return Ok(PageOutcome::TooSmall(item_bytes));
                        }
                        stopped = true;
                    } else {
                        retained = next;
                        let ghost before = entries@;
                        entries.push(entry);
                        assert(entries@ =~= before.push(entry));
                        taken = taken + 1;
                        assert(total(rows@, 1) <= total(rows@, taken as int)) by {
                            lemma_total_monotonic(rows@, 1, taken as int);
                        }
                    }
                },
            }
        }
    }
    proof {
        lemma_page_length(rows@, bounds, taken as int);
        let seen = examined(rows@, bounds);
        lemma_first_failure(rows@, limits, 0, seen, seen);
    }
    let mut resume: Option<DirectoryCookie> = None;
    if stopped && taken > 0 {
        resume = Some(entries[taken - 1].entry.cookie);
    }
    let page = DirectoryPage { entries, resume };
    assert forall|i: int| 0 <= i < taken implies is_row_entry(
        parent_inode_id,
        rows@[i],
        #[trigger] page@.entries[i],
    ) by {
        assert(page@.entries[i] == page.entries@[i]@);
    }
    Ok(PageOutcome::Page(page))
}

proof fn lemma_total_monotonic(rows: Seq<DirectoryPageRow>, low: int, high: int)
    requires
        low <= high,
    ensures
        total(rows, low) <= total(rows, high),
    decreases high - low,
{
    if low < high {
        lemma_total_monotonic(rows, low, high - 1);
    }
}

} // verus!
