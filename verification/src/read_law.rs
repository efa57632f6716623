//! What a read asks for and gives back.
use vstd::prelude::*;

use crate::bytes;
use crate::directory_page;
use crate::directory_page::DirectoryPageRow;
use crate::failure::PostgresStateError;
use crate::ids::{FileId, FilesystemId, InodeId, QidPath};
use crate::key::RecordKey;
use crate::limits::StateLimits;
use crate::log_law;
use crate::numeric;
use crate::page_law;
use crate::query;
use crate::query::{
    DirectoryPageView, ReadConsistency, ReadOutcome, ReadQuery, RecordScan, ResultView, ScanBounds,
    ScanPageView,
};
use crate::read;
use crate::read::{ReadAction, ReadPhase, ReadRun};
use crate::read_sql;
use crate::record::{ContentMetadataRecord, InodeData, InodeRecord, StateRecord};
use crate::row_codec;
use crate::row_law;
use crate::rows::SqlStateRecord;
use crate::scan;
use crate::scan::{CandidateRow, PlanView};
use crate::statement::ValueView;

verus! {

/// An identity as a value.
pub open spec fn id(value: u128) -> ValueView {
    ValueView::Bytes(Some(bytes::id_bytes(value)))
}

/// What a query is asked with: the filesystem, then what the query names.
pub open spec fn asked(query: ReadQuery<Seq<u8>>, filesystem_id: FilesystemId) -> Seq<ValueView> {
    let fs = id(filesystem_id.value);
    match query {
        ReadQuery::Filesystem => seq![fs],
        ReadQuery::Inode(inode_id) => seq![fs, id(inode_id.value)],
        ReadQuery::InodeByQidPath(path) => seq![fs, log_law::number(path.value as int)],
        ReadQuery::InodeWithContentMetadata(inode_id) => seq![fs, id(inode_id.value)],
        ReadQuery::ContentMetadata(file_id) => seq![fs, id(file_id.value)],
        ReadQuery::DirectoryEntry { parent_inode_id, name } => seq![
            fs,
            id(parent_inode_id.value),
            ValueView::Bytes(Some(name.bytes)),
        ],
        ReadQuery::DirectoryPage { parent_inode_id, after, bounds } => seq![
            fs,
            id(parent_inode_id.value),
            log_law::number(after.value as int),
            ValueView::Int8(Some((bounds.max_items + 1) as i64)),
            log_law::number(bounds.max_bytes as int),
        ],
        ReadQuery::Open(open_id) => seq![fs, id(open_id.value)],
        ReadQuery::OpenPin { inode_id, open_id } => seq![fs, id(inode_id.value), id(open_id.value)],
        ReadQuery::OpenPinCount(inode_id) => seq![fs, id(inode_id.value)],
        ReadQuery::Orphan(inode_id) => seq![fs, id(inode_id.value)],
        ReadQuery::Lock { inode_id, lock_id } => seq![fs, id(inode_id.value), id(lock_id.value)],
        ReadQuery::Xattr { inode_id, name } => seq![
            fs,
            id(inode_id.value),
            ValueView::Bytes(Some(name.bytes)),
        ],
        ReadQuery::XattrStaging(staging_id) => seq![fs, id(staging_id.value)],
        ReadQuery::Mutation(mutation_id) => seq![fs, id(mutation_id.value)],
        ReadQuery::WriterLease(scope) => seq![fs, id(scope.value)],
        ReadQuery::Scan(scan) => seq![fs] + page_law::behind(scan) + seq![
            ValueView::Int8(Some((page_law::carried_bounds(scan).max_items + 1) as i64)),
            log_law::number(page_law::carried_bounds(scan).max_bytes as int),
        ],
    }
}

/// A read that goes on asks for the first query that has no answer yet, with
/// what that query names; one whose queries all have answers is over.
pub proof fn law_reads_answer_their_queries_in_order(
    run: ReadRun,
    result: Result<ReadAction, PostgresStateError>,
)
    requires
        run.goes_on(result),
    ensures
        ({
            let answered = run.results@.len();
            let queries = run.request.query_seq();
            &&& answered == queries.len() ==> run.phase == ReadPhase::Finished && (result matches
                Ok(ReadAction::Finish))
            &&& answered < queries.len() ==> {
                &&& result matches Ok(ReadAction::Fetch(statement))
                &&& statement@.values == asked(
                    queries[answered as int],
                    run.request.filesystem_id,
                )
            }
        }),
{
    let answered = run.results@.len();
    let queries = run.request.query_seq();
    let fs = run.request.filesystem_id;
    if answered < queries.len() {
        let query = queries[answered as int];
        match query {
            ReadQuery::Scan(scan) => {
                page_law::law_scans_are_asked_for_by_position(fs, scan);
            },
            _ => {},
        }
        match result {
            Ok(ReadAction::Fetch(statement)) => {
                assert(statement@.values =~= asked(query, fs));
            },
            _ => {},
        }
    }
}

/// A stored record is read back by its own key, whole and unchanged; a row that
/// holds a record of another key is refused, and where there is no row there is
/// no record.
pub proof fn law_stored_records_are_read_by_key(
    filesystem_id: FilesystemId,
    key: RecordKey<Seq<u8>>,
    asked_key: RecordKey<Seq<u8>>,
    record: StateRecord<Seq<u8>, Seq<char>>,
    limits: StateLimits,
)
    requires
        page_law::stands_under(filesystem_id, key, record),
        row_law::record_valid(record, limits),
    ensures
        ({
            let row = row_codec::row_of(filesystem_id, record);
            &&& asked_key == key ==> read::point_failure(asked_key, Some(row), limits) is None
            &&& asked_key != key ==> read::point_failure(asked_key, Some(row), limits) is Some
            &&& read::row_record(Some(row)) == Some(record)
            &&& read::point_failure(asked_key, None, limits) is None
            &&& read::row_record(None) is None
        }),
{
    row_law::law_encode_then_decode(filesystem_id, record, limits);
}

/// A stored inode is read by its path number, and by no other.
pub proof fn law_stored_inodes_are_read_by_path_number(
    filesystem_id: FilesystemId,
    inode: InodeRecord<Seq<u8>, Seq<char>>,
    path: QidPath,
    limits: StateLimits,
)
    requires
        row_law::record_valid(StateRecord::Inode(inode), limits),
    ensures
        ({
            let row = row_codec::row_of(filesystem_id, StateRecord::Inode(inode));
            &&& read::path_failure(filesystem_id, path, Some(row), limits) is None <==> path.value
                == inode.qid_path.value
            &&& row_codec::row_record(row) == StateRecord::Inode(inode)
            &&& read::path_failure(filesystem_id, path, None, limits) is None
        }),
{
    row_law::law_encode_then_decode(filesystem_id, StateRecord::Inode(inode), limits);
    bytes::lemma_id_round_trip(filesystem_id.value);
}

/// The snapshot of an authority is at the revision of its head, or at the first
/// one where it has none; a head at zero is refused.
pub proof fn law_snapshots_are_at_the_head(revision: u64)
    ensures
        read::authority_failure(Some(numeric::decimal(revision as nat))) is None <==> revision > 0,
        read::authority_revision(Some(numeric::decimal(revision as nat))).value == revision,
        read::authority_failure(None) is None,
        read::authority_revision(None).value == 1,
{
    numeric::law_decimal_round_trip(revision);
}

/// A page is within the limits of a receiver.
pub open spec fn page_fits(bounds: ScanBounds, limits: StateLimits) -> bool {
    bounds.max_items <= limits.values.max_scan_items && bounds.max_bytes
        <= limits.values.max_scan_bytes
}

/// A query is within the limits of a receiver: the names in it and the page that
/// it asks for.
pub open spec fn query_fits(query: ReadQuery<Seq<u8>>, limits: StateLimits) -> bool {
    match query {
        ReadQuery::DirectoryEntry { name, .. } => name.bytes.len()
            <= limits.values.max_entry_name_bytes,
        ReadQuery::Xattr { name, .. } => name.bytes.len() <= limits.values.max_xattr_name_bytes,
        ReadQuery::DirectoryPage { bounds, .. } => page_fits(bounds, limits),
        ReadQuery::Scan(scan) => page_fits(page_law::carried_bounds(scan), limits) && (scan matches
            RecordScan::Xattrs { after: Some(cursor), .. } ==> cursor.name.bytes.len()
            <= limits.values.max_xattr_name_bytes),
        _ => true,
    }
}

proof fn lemma_queries_fit(
    queries: Seq<ReadQuery<Seq<u8>>>,
    filesystem_id: FilesystemId,
    limits: StateLimits,
    from: int,
)
    requires
        0 <= from <= queries.len(),
    ensures
        read::queries_failure(queries, filesystem_id, limits, from) is None <==> forall|i: int|
            from <= i < queries.len() ==> query_fits(#[trigger] queries[i], limits),
    decreases queries.len() - from,
{
    if from < queries.len() {
        lemma_queries_fit(queries, filesystem_id, limits, from + 1);
        assert(read::query_failure(queries[from], filesystem_id, limits) is None <==> query_fits(
            queries[from],
            limits,
        ));
        if forall|i: int| from <= i < queries.len() ==> query_fits(#[trigger] queries[i], limits) {
            assert(query_fits(queries[from], limits));
        }
        if query_fits(queries[from], limits) && (forall|i: int|
            from + 1 <= i < queries.len() ==> query_fits(#[trigger] queries[i], limits)) {
            assert forall|i: int| from <= i < queries.len() implies query_fits(
                #[trigger] queries[i],
                limits,
            ) by {}
        }
    }
}

/// A read is accepted exactly where it has no more queries than the receiver
/// takes and every one of them is within the receiver's limits.
pub proof fn law_accepted_reads_are_within_limits(
    request: crate::query::ReadBatch,
    limits: StateLimits,
)
    ensures
        read::batch_failure(request, limits) is None <==> {
            &&& request.queries@.len() <= limits.values.max_read_queries
            &&& forall|i: int|
                0 <= i < request.query_seq().len() ==> query_fits(
                    #[trigger] request.query_seq()[i],
                    limits,
                )
        },
{
    lemma_queries_fit(request.query_seq(), request.filesystem_id, limits, 0);
}

/// What a step of a read makes the caller do, or why it fails.
pub type Stepped = Result<ReadAction, PostgresStateError>;

/// One more query is answered, and the answers before it stay.
pub open spec fn appends(before: ReadRun, after: ReadRun, answer: ResultView) -> bool {
    &&& after.results@.len() == before.results@.len() + 1
    &&& after.results@[before.results@.len() as int]@ == answer
    &&& forall|i: int|
        0 <= i < before.results@.len() ==> #[trigger] after.results@[i] == before.results@[i]
}

/// A read that demands a revision which the head has not reached is answered
/// with both; any other goes on, at the revision of the head.
pub proof fn law_reads_wait_for_no_revision(
    before: ReadRun,
    after: ReadRun,
    result: Stepped,
    text: Option<&String>,
    revision: u64,
)
    requires
        revision > 0,
        match text {
            Some(text) => text@ == numeric::decimal(revision as nat),
            None => revision == 1,
        },
        before.after_revision(after, result, text),
    ensures
        after.revision.value == revision,
        match before.request.consistency {
            ReadConsistency::AtLeast(required) => {
                &&& revision < required.value ==> {
                    &&& result matches Ok(ReadAction::Finish)
                    &&& after.refusal matches Some(outcome) && outcome
                        == (ReadOutcome::RevisionUnavailable { required, current: after.revision })
                }
                &&& revision >= required.value ==> after.refusal is None && after.goes_on(result)
            },
            ReadConsistency::LatestLinearizable => after.refusal is None && after.goes_on(result),
        },
{
    law_snapshots_are_at_the_head(revision);
}

/// A query for a key is answered with the record that is stored under it, or
/// with none where none is.
pub proof fn law_point_queries_answer_the_stored_record(
    before: ReadRun,
    after: ReadRun,
    result: Stepped,
    row: Option<&SqlStateRecord>,
    key: RecordKey<Seq<u8>>,
    record: StateRecord<Seq<u8>, Seq<char>>,
)
    requires
        query::query_key(before.current(), before.request.filesystem_id) == Some(key),
        page_law::stands_under(before.request.filesystem_id, key, record),
        row_law::record_valid(record, before.limits),
        row is Some ==> row->0@ == row_codec::row_of(before.request.filesystem_id, record),
        before.after_point(after, result, row),
    ensures
        row is Some ==> appends(before, after, ResultView::Point { key, record: Some(record) }),
        row is None ==> appends(before, after, ResultView::Point { key, record: None }),
{
    law_stored_records_are_read_by_key(
        before.request.filesystem_id,
        key,
        key,
        record,
        before.limits,
    );
}

/// A query for a path number is answered with the inode that has it, or with
/// none where none has.
pub proof fn law_path_queries_answer_the_stored_inode(
    before: ReadRun,
    after: ReadRun,
    result: Stepped,
    row: Option<&SqlStateRecord>,
    inode: InodeRecord<Seq<u8>, Seq<char>>,
)
    requires
        before.current() == ReadQuery::<Seq<u8>>::InodeByQidPath(inode.qid_path),
        row_law::record_valid(StateRecord::Inode(inode), before.limits),
        row is Some ==> row->0@ == row_codec::row_of(
            before.request.filesystem_id,
            StateRecord::Inode(inode),
        ),
        before.after_path(after, result, row),
    ensures
        row is Some ==> appends(
            before,
            after,
            ResultView::InodeByQidPath { qid_path: inode.qid_path, inode: Some(inode) },
        ),
        row is None ==> appends(
            before,
            after,
            ResultView::InodeByQidPath { qid_path: inode.qid_path, inode: None },
        ),
{
    law_stored_inodes_are_read_by_path_number(
        before.request.filesystem_id,
        inode,
        inode.qid_path,
        before.limits,
    );
}

/// A query for the pins of an inode is answered with that inode and the number
/// that was counted.
pub proof fn law_pin_queries_answer_the_count(
    before: ReadRun,
    after: ReadRun,
    result: Stepped,
    inode_id: InodeId,
    count: u64,
)
    requires
        before.current() == ReadQuery::<Seq<u8>>::OpenPinCount(inode_id),
        before.after_pins(after, result, numeric::decimal(count as nat)),
    ensures
        appends(before, after, ResultView::OpenPinCount { inode_id, count }),
{
    numeric::law_decimal_round_trip(count);
}

/// A query for an inode with its content metadata goes on to the metadata of
/// the content file where the inode is a regular file, keeps the inode, and is
/// answered without metadata where it is none or is not there.
#[verifier::spinoff_prover]
pub proof fn law_composite_queries_follow_the_content_file(
    before: ReadRun,
    after: ReadRun,
    result: Stepped,
    row: Option<&SqlStateRecord>,
    inode: InodeRecord<Seq<u8>, Seq<char>>,
)
    requires
        before.current() == ReadQuery::<Seq<u8>>::InodeWithContentMetadata(inode.inode_id),
        row_law::record_valid(StateRecord::Inode(inode), before.limits),
        row is Some ==> row->0@ == row_codec::row_of(
            before.request.filesystem_id,
            StateRecord::Inode(inode),
        ),
        before.after_composite_inode(after, result, row),
    ensures
        row is None ==> appends(
            before,
            after,
            ResultView::InodeWithContentMetadata {
                inode_id: inode.inode_id,
                inode: None,
                metadata: None,
            },
        ),
        row is Some ==> follows_content(before, after, result, inode),
{
    let fs = before.request.filesystem_id;
    let key = RecordKey::<Seq<u8>>::Inode(fs, inode.inode_id);
    law_stored_records_are_read_by_key(fs, key, key, StateRecord::Inode(inode), before.limits);
    if row is Some {
        lemma_follows_content(before, after, result, row, inode);
    }
}

/// A composite query that found an inode: it asks for the metadata of the
/// content file of a regular file, and is answered for any other inode.
pub open spec fn follows_content(
    before: ReadRun,
    after: ReadRun,
    result: Stepped,
    inode: InodeRecord<Seq<u8>, Seq<char>>,
) -> bool {
    match inode.data {
        InodeData::RegularFile { content_file_id, .. } => {
            &&& after.phase == ReadPhase::CompositeMetadata
            &&& after.results == before.results
            &&& after.inode is Some && after.inode->0@ == inode
            &&& result matches Ok(ReadAction::Fetch(statement)) && statement@.values == seq![
                id(before.request.filesystem_id.value),
                id(content_file_id.value),
            ]
        },
        _ => appends(
            before,
            after,
            ResultView::InodeWithContentMetadata {
                inode_id: inode.inode_id,
                inode: Some(inode),
                metadata: None,
            },
        ),
    }
}

#[verifier::spinoff_prover]
proof fn lemma_follows_content(
    before: ReadRun,
    after: ReadRun,
    result: Stepped,
    row: Option<&SqlStateRecord>,
    inode: InodeRecord<Seq<u8>, Seq<char>>,
)
    requires
        before.current() == ReadQuery::<Seq<u8>>::InodeWithContentMetadata(inode.inode_id),
        read::point_failure(
            RecordKey::Inode(before.request.filesystem_id, inode.inode_id),
            read::row_view(row),
            before.limits,
        ) is None,
        read::row_record(read::row_view(row)) == Some(
            StateRecord::<Seq<u8>, Seq<char>>::Inode(inode),
        ),
        before.after_composite_inode(after, result, row),
    ensures
        follows_content(before, after, result, inode),
{
    match inode.data {
        InodeData::RegularFile { content_file_id, .. } => {
            lemma_metadata_is_asked_for(before.request.filesystem_id, content_file_id);
        },
        _ => {},
    }
}

proof fn lemma_metadata_is_asked_for(filesystem_id: FilesystemId, file_id: FileId)
    ensures
        read_sql::point(RecordKey::ContentMetadata(filesystem_id, file_id)).values == seq![
            id(filesystem_id.value),
            id(file_id.value),
        ],
{
    assert(read_sql::point(RecordKey::ContentMetadata(filesystem_id, file_id)).values =~= seq![
        id(filesystem_id.value),
        id(file_id.value),
    ]);
}

/// A composite query is answered with the inode that was kept and with the
/// metadata that is stored for its content file, or without where none is.
pub proof fn law_composite_queries_answer_both(
    before: ReadRun,
    after: ReadRun,
    result: Stepped,
    row: Option<&SqlStateRecord>,
    metadata: ContentMetadataRecord<Seq<u8>>,
)
    requires
        before.current() is InodeWithContentMetadata,
        before.inode is Some,
        before.inode->0@.data matches InodeData::RegularFile { content_file_id, .. }
            && content_file_id == metadata.content_file_id,
        row_law::record_valid(StateRecord::ContentMetadata(metadata), before.limits),
        row is Some ==> row->0@ == row_codec::row_of(
            before.request.filesystem_id,
            StateRecord::ContentMetadata(metadata),
        ),
        before.after_composite_metadata(after, result, row),
    ensures
        appends(
            before,
            after,
            ResultView::InodeWithContentMetadata {
                inode_id: before.current()->InodeWithContentMetadata_0,
                inode: Some(before.inode->0@),
                metadata: if row is Some {
                    Some(metadata)
                } else {
                    None
                },
            },
        ),
{
    let fs = before.request.filesystem_id;
    let key = RecordKey::<Seq<u8>>::ContentMetadata(fs, metadata.content_file_id);
    law_stored_records_are_read_by_key(
        fs,
        key,
        key,
        StateRecord::ContentMetadata(metadata),
        before.limits,
    );
}

/// A directory page whose first entry alone is over the bound ends the read,
/// with the number of the query and the bytes that the entry takes; any other
/// page is the answer to its query.
pub proof fn law_page_queries_answer_a_page(
    before: ReadRun,
    after: ReadRun,
    result: Stepped,
    rows: Seq<DirectoryPageRow>,
    parent: InodeId,
    bounds: ScanBounds,
)
    requires
        before.current() matches ReadQuery::DirectoryPage {
            parent_inode_id,
            bounds: asked_bounds,
            ..
        } && parent_inode_id == parent && asked_bounds == bounds,
        before.results.len() < before.request.queries.len(),
        before.after_page(after, result, rows),
        result is Ok,
    ensures
        ({
            let over = rows.len() > 0 && bounds.max_items > 0 && directory_page::row_bytes(rows[0])
                > bounds.max_bytes;
            &&& over ==> {
                &&& result matches Ok(ReadAction::Finish)
                &&& after.refusal matches Some(
                    ReadOutcome::ScanBoundTooSmall { query_index, required_bytes },
                ) && query_index == before.results.len() && required_bytes
                    == directory_page::row_bytes(rows[0]) as usize
            }
            &&& !over ==> exists|page: DirectoryPageView| #[trigger]
                directory_page::is_page(parent, rows, bounds, page) && appends(
                    before,
                    after,
                    ResultView::DirectoryPage(page),
                )
        }),
{
    if !(rows.len() > 0 && bounds.max_items > 0 && directory_page::row_bytes(rows[0])
        > bounds.max_bytes) {
        let page = after.results@.last()@->DirectoryPage_0;
        assert(directory_page::is_page(parent, rows, bounds, page));
        assert(appends(before, after, ResultView::DirectoryPage(page)));
    }
}

proof fn lemma_candidates(
    filesystem_id: FilesystemId,
    scan: RecordScan<Seq<u8>>,
    rows: Seq<CandidateRow>,
    limits: StateLimits,
    from: int,
)
    requires
        0 <= from <= rows.len(),
    ensures
        read::candidates_failure(filesystem_id, scan, rows, limits, from) is None <==> forall|
            i: int,
        |
            from <= i < rows.len() ==> scan::candidate_failure(
                filesystem_id,
                scan,
                #[trigger] rows[i],
                limits,
            ) is None,
    decreases rows.len() - from,
{
    if from < rows.len() {
        lemma_candidates(filesystem_id, scan, rows, limits, from + 1);
        if scan::candidate_failure(filesystem_id, scan, rows[from], limits) is None && (forall|
            i: int,
        |
            from + 1 <= i < rows.len() ==> scan::candidate_failure(
                filesystem_id,
                scan,
                #[trigger] rows[i],
                limits,
            ) is None) {
            assert forall|i: int| from <= i < rows.len() implies scan::candidate_failure(
                filesystem_id,
                scan,
                #[trigger] rows[i],
                limits,
            ) is None by {}
        }
    }
}

/// The candidates of a scan are taken exactly where each of them can be, each
/// as itself and in the order in which they were found.
pub proof fn law_candidates_are_taken_in_order(
    filesystem_id: FilesystemId,
    scan: RecordScan<Seq<u8>>,
    rows: Seq<CandidateRow>,
    limits: StateLimits,
)
    ensures
        read::candidates_failure(filesystem_id, scan, rows, limits, 0) is None <==> forall|i: int|
            0 <= i < rows.len() ==> scan::candidate_failure(
                filesystem_id,
                scan,
                #[trigger] rows[i],
                limits,
            ) is None,
        read::row_candidates(filesystem_id, scan, rows).len() == rows.len(),
        forall|i: int|
            0 <= i < rows.len() ==> #[trigger] read::row_candidates(filesystem_id, scan, rows)[i]
                == scan::row_candidate(filesystem_id, scan, rows[i]),
{
    lemma_candidates(filesystem_id, scan, rows, limits, 0);
}

/// A scan that selects nothing is answered with an empty page; one that selects
/// something reads the first of the selected records next; and one whose first
/// candidate alone is over the bound ends the read with the number of its
/// query.
pub proof fn law_scans_read_what_they_select(
    before: ReadRun,
    after: ReadRun,
    result: Stepped,
    rows: Seq<CandidateRow>,
    asked_scan: RecordScan<Seq<u8>>,
)
    requires
        before.current() == ReadQuery::Scan(asked_scan),
        before.results.len() < before.request.queries.len(),
        before.after_scan(after, result, rows),
        result is Ok,
    ensures
        ({
            let fs = before.request.filesystem_id;
            let found = read::row_candidates(fs, asked_scan, rows);
            match scan::selection(found, page_law::carried_bounds(asked_scan)) {
                Ok(PlanView::Selected { candidates, resume }) => if candidates.len() == 0 {
                    exists|page: ScanPageView| #[trigger]
                        appends(before, after, ResultView::Scan(page)) && page.records.len() == 0
                            && page.resume == resume
                } else {
                    &&& after.phase == ReadPhase::Candidate
                    &&& after.records@.len() == 0
                    &&& after.results == before.results
                    &&& scan::candidate_views(after.candidates@) == candidates
                    &&& result matches Ok(ReadAction::Fetch(statement)) && statement@
                        == read_sql::point(candidates[0].key)
                },
                Ok(PlanView::TooSmall(bytes)) => after.refusal matches Some(
                    ReadOutcome::ScanBoundTooSmall { query_index, required_bytes },
                ) && query_index == before.results.len() && required_bytes == bytes,
                Err(_) => false,
            }
        }),
{
    let fs = before.request.filesystem_id;
    let found = read::row_candidates(fs, asked_scan, rows);
    match scan::selection(found, page_law::carried_bounds(asked_scan)) {
        Ok(PlanView::Selected { candidates, resume }) => {
            if candidates.len() == 0 {
                let page = after.results@.last()@->Scan_0;
                assert(appends(before, after, ResultView::Scan(page)));
            }
        },
        _ => {},
    }
}

/// The selected records are read one after the other; behind the last one, the
/// page of all of them in order answers the scan, under its own family and to
/// be resumed where the selection ended.
pub proof fn law_scans_answer_what_they_read(
    before: ReadRun,
    after: ReadRun,
    result: Stepped,
    row: Option<&SqlStateRecord>,
    asked_scan: RecordScan<Seq<u8>>,
)
    requires
        before.current() == ReadQuery::Scan(asked_scan),
        before.records.len() < before.candidates.len(),
        before.after_candidate(after, result, row),
        result is Ok,
    ensures
        row is Some,
        ({
            let read = before.records@.len() as int;
            let key = before.candidates@[read].key@;
            let item = (key, row_codec::row_record(row->0@));
            if read + 1 < before.candidates@.len() {
                &&& after.phase == ReadPhase::Candidate
                &&& query::record_views(after.records@) == query::record_views(
                    before.records@,
                ).push(item)
                &&& result matches Ok(ReadAction::Fetch(statement)) && statement@
                    == read_sql::point(before.candidates@[read + 1].key@)
            } else {
                appends(
                    before,
                    after,
                    ResultView::Scan(
                        ScanPageView {
                            family: query::scan_family(asked_scan),
                            records: query::record_views(before.records@).push(item),
                            resume: query::optional_resume(before.resume),
                        },
                    ),
                )
            }
        }),
{
}

} // verus!
