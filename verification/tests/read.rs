use w9pt_fs_state_postgres::failure::AdapterFailureKind;
use w9pt_fs_state_postgres::ids::{
    DirectoryCookie, FilesystemId, InodeGeneration, InodeId, LockId, MutationId, OpenId, QidPath,
    RecordRevision, StateRevision, UnixTimestamp, WriterScopeId, XattrStagingId,
};
use w9pt_fs_state_postgres::key::RecordKey;
use w9pt_fs_state_postgres::limits::{
    StateLimitError, StateLimitKind, StateLimitValues, StateLimits,
};
use w9pt_fs_state_postgres::query::{
    point_query, ReadBatch, ReadConsistency, ReadOutcome, ReadQuery, ReadResult, RecordScan,
    ScanBounds, ScanResume, XattrCursor,
};
use w9pt_fs_state_postgres::read::{validate_read_request, ReadAction, ReadRun};
use w9pt_fs_state_postgres::read_sql::{
    DIRECTORY_ENTRY_SCAN_SQL, DIRECTORY_PAGE_SQL, INODE_BY_QID_PATH_SQL, INODE_SCAN_SQL,
    LOCK_SCAN_SQL, MUTATION_SCAN_SQL, OPEN_PIN_SCAN_SQL, OPEN_SCAN_SQL, ORPHAN_SCAN_SQL,
    WRITER_LEASE_SCAN_SQL, XATTR_SCAN_SQL, XATTR_STAGING_SCAN_SQL,
};
use w9pt_fs_state_postgres::record::{
    DirectoryEntryRecord, InodeData, InodeRecord, InodeTimes, OpenPinRecord, StateRecord,
    XattrRecord,
};
use w9pt_fs_state_postgres::rows::SqlStateRecord;
use w9pt_fs_state_postgres::scan::{
    decode_scan_candidate, plan_scan_candidates, retained_item_bytes, scan_resume, CandidatePlan,
    CandidateRow, ScanCandidate,
};
use w9pt_fs_state_postgres::values::{EntryName, GroupId, PrincipalId, XattrName, XattrValue};

fn times() -> InodeTimes {
    let time = UnixTimestamp::new(0, 0).unwrap();
    InodeTimes { accessed: time, modified: time, changed: time, created: time }
}

fn fifo(inode_id: InodeId, owner: &[u8], group: &[u8]) -> StateRecord {
    let limits = StateLimits::default();
    StateRecord::Inode(
        InodeRecord::checked(InodeRecord {
            inode_id,
            qid_path: QidPath::new(1).unwrap(),
            revision: RecordRevision::new(1).unwrap(),
            mode: 0o644,
            owner: PrincipalId::new(owner.to_vec(), limits).unwrap(),
            group: GroupId::new(group.to_vec(), limits).unwrap(),
            times: times(),
            logical_size: 0,
            link_count: 1,
            inode_generation: InodeGeneration::new(1).unwrap(),
            content_context_id: None,
            data: InodeData::Fifo,
        })
        .unwrap(),
    )
}

fn batch(queries: Vec<ReadQuery>) -> ReadBatch {
    ReadBatch {
        filesystem_id: FilesystemId::from_u128(1),
        consistency: ReadConsistency::LatestLinearizable,
        queries,
    }
}

#[test]
fn receiver_revalidates_batch_scan_and_cursor_limits() {
    let strict = StateLimits::new(StateLimitValues {
        max_read_queries: 1,
        max_scan_items: 1,
        max_scan_bytes: 128,
        max_xattr_name_bytes: 1,
        ..StateLimitValues::default()
    });
    let loose = StateLimits::new(StateLimitValues {
        max_read_queries: 2,
        max_scan_items: 2,
        max_scan_bytes: 256,
        max_xattr_name_bytes: 2,
        ..StateLimitValues::default()
    });
    let queries = batch(vec![ReadQuery::Filesystem, ReadQuery::Filesystem]);
    assert!(validate_read_request(&queries, loose).is_ok());
    assert!(matches!(
        validate_read_request(&queries, strict),
        Err(StateLimitError { kind: StateLimitKind::ReadQueries, .. })
    ));
    let scan = batch(vec![ReadQuery::Scan(RecordScan::Inodes {
        after: None,
        bounds: ScanBounds { max_items: 2, max_bytes: 1 },
    })]);
    assert!(matches!(
        validate_read_request(&scan, strict),
        Err(StateLimitError { kind: StateLimitKind::ScanItems, .. })
    ));
    let cursor = XattrCursor {
        inode_id: InodeId::from_u128(2),
        name: XattrName::new(b"xx".to_vec(), loose).unwrap(),
    };
    let resumed = batch(vec![ReadQuery::Scan(RecordScan::Xattrs {
        after: Some(cursor),
        bounds: ScanBounds { max_items: 1, max_bytes: 1 },
    })]);
    assert!(matches!(
        validate_read_request(&resumed, strict),
        Err(StateLimitError { kind: StateLimitKind::XattrName, .. })
    ));
}

#[test]
fn retained_sizes_match_the_contract_formulas() {
    let limits = StateLimits::default();
    let filesystem_id = FilesystemId::from_u128(1);
    let inode_id = InodeId::from_u128(2);
    let inode = fifo(inode_id, b"owner", b"group");
    assert_eq!(
        retained_item_bytes(&RecordKey::Inode(filesystem_id, inode_id), &inode),
        Some(64 + 256 + 5 + 5)
    );
    let name = XattrName::new(b"name".to_vec(), limits).unwrap();
    let xattr = StateRecord::Xattr(XattrRecord {
        inode_id,
        name: name.clone(),
        value: XattrValue::new(b"value".to_vec(), limits).unwrap(),
        revision: RecordRevision::new(1).unwrap(),
    });
    assert_eq!(
        retained_item_bytes(&RecordKey::Xattr(filesystem_id, inode_id, name), &xattr),
        Some((64 + 4) + (96 + 4 + 5))
    );
}

#[test]
fn content_metadata_candidates_have_no_stored_key() {
    let scan = RecordScan::ContentMetadata {
        after: None,
        bounds: ScanBounds { max_items: 1, max_bytes: 1_000 },
    };
    let row = CandidateRow {
        retained_bytes: 100,
        first: vec![1; 16],
        second: Vec::new(),
        cookie: String::new(),
    };
    let filesystem_id = FilesystemId::from_u128(1);
    let error = decode_scan_candidate(&row, filesystem_id, &scan, StateLimits::default())
        .unwrap_err();
    assert_eq!(error.kind(), AdapterFailureKind::Corruption);
    assert_eq!(
        error.detail.text(),
        "invalid SQL scan candidate key: unknown record family tag 12"
    );
    let inodes = RecordScan::Inodes {
        after: None,
        bounds: ScanBounds { max_items: 1, max_bytes: 1_000 },
    };
    assert!(decode_scan_candidate(&row, filesystem_id, &inodes, StateLimits::default()).is_ok());
}

#[test]
fn scan_candidate_budgeting_returns_resume_or_exact_too_small_size() {
    let limits = StateLimits::default();
    let filesystem_id = FilesystemId::from_u128(1);
    let mut pairs = Vec::new();
    for value in [2, 3] {
        let inode_id = InodeId::from_u128(value);
        let key = RecordKey::Inode(filesystem_id, inode_id);
        pairs.push((key, fifo(inode_id, b"o", b"g")));
    }
    let candidates = pairs
        .iter()
        .map(|(key, record)| ScanCandidate {
            key: key.clone(),
            cursor: scan_resume(key, record).unwrap(),
            retained_bytes: retained_item_bytes(key, record).unwrap(),
        })
        .collect();
    let scan = RecordScan::Inodes {
        after: None,
        bounds: ScanBounds { max_items: 1, max_bytes: limits.max_scan_bytes() },
    };
    let CandidatePlan::Selected { candidates, resume } =
        plan_scan_candidates(&scan, candidates).unwrap()
    else {
        panic!("expected selected candidates");
    };
    assert_eq!(candidates.len(), 1);
    assert_eq!(resume, Some(ScanResume::Inode(InodeId::from_u128(2))));

    let first_size = retained_item_bytes(&pairs[0].0, &pairs[0].1).unwrap();
    let candidates = vec![ScanCandidate {
        key: pairs[0].0.clone(),
        cursor: scan_resume(&pairs[0].0, &pairs[0].1).unwrap(),
        retained_bytes: first_size,
    }];
    let too_small = RecordScan::Inodes {
        after: None,
        bounds: ScanBounds { max_items: 1, max_bytes: first_size - 1 },
    };
    assert_eq!(
        plan_scan_candidates(&too_small, candidates).unwrap(),
        CandidatePlan::TooSmall(first_size)
    );

    let first = ScanCandidate {
        key: pairs[0].0.clone(),
        cursor: scan_resume(&pairs[0].0, &pairs[0].1).unwrap(),
        retained_bytes: first_size,
    };
    let second = ScanCandidate {
        key: pairs[1].0.clone(),
        cursor: scan_resume(&pairs[1].0, &pairs[1].1).unwrap(),
        retained_bytes: limits.max_scan_bytes(),
    };
    let byte_limited = RecordScan::Inodes {
        after: None,
        bounds: ScanBounds { max_items: 2, max_bytes: first_size },
    };
    assert_eq!(
        plan_scan_candidates(&byte_limited, vec![first, second]).unwrap(),
        CandidatePlan::Selected {
            candidates: vec![ScanCandidate {
                key: pairs[0].0.clone(),
                cursor: scan_resume(&pairs[0].0, &pairs[0].1).unwrap(),
                retained_bytes: first_size,
            }],
            resume: Some(ScanResume::Inode(InodeId::from_u128(2))),
        }
    );
}

#[test]
fn scan_cursor_mapping_uses_exact_finalized_identities() {
    let limits = StateLimits::default();
    let filesystem_id = FilesystemId::from_u128(1);
    let parent = InodeId::from_u128(2);
    let name = EntryName::new(b"entry".to_vec(), limits).unwrap();
    let entry = DirectoryEntryRecord {
        parent_inode_id: parent,
        name: name.clone(),
        cookie: DirectoryCookie::new(9),
        child_inode_id: InodeId::from_u128(3),
        revision: RecordRevision::new(1).unwrap(),
    };
    assert_eq!(
        scan_resume(
            &RecordKey::DirectoryEntry(filesystem_id, parent, name),
            &StateRecord::DirectoryEntry(entry)
        ),
        Some(ScanResume::DirectoryEntry(DirectoryCookie::new(9)))
    );
}

#[test]
fn every_record_key_maps_back_to_its_exact_point_query() {
    let limits = StateLimits::default();
    let filesystem_id = FilesystemId::from_u128(1);
    let inode_id = InodeId::from_u128(2);
    let open_id = OpenId::from_u128(3);
    let keys = vec![
        RecordKey::Filesystem(filesystem_id),
        RecordKey::Inode(filesystem_id, inode_id),
        RecordKey::DirectoryEntry(
            filesystem_id,
            inode_id,
            EntryName::new(b"entry".to_vec(), limits).unwrap(),
        ),
        RecordKey::Open(filesystem_id, open_id),
        RecordKey::OpenPin(filesystem_id, inode_id, open_id),
        RecordKey::Orphan(filesystem_id, inode_id),
        RecordKey::Lock(filesystem_id, inode_id, LockId::from_u128(4)),
        RecordKey::Xattr(
            filesystem_id,
            inode_id,
            XattrName::new(b"name".to_vec(), limits).unwrap(),
        ),
        RecordKey::XattrStaging(filesystem_id, XattrStagingId::from_u128(5)),
        RecordKey::Mutation(filesystem_id, MutationId::from_u128(6)),
        RecordKey::WriterLease(filesystem_id, WriterScopeId::from_u128(7)),
    ];
    for key in keys {
        assert_eq!(point_query(&key).point_key(filesystem_id), Some(key));
    }
}

#[test]
fn every_scan_query_is_static_keyset_sql_without_offset() {
    for sql in [
        INODE_SCAN_SQL,
        DIRECTORY_ENTRY_SCAN_SQL,
        DIRECTORY_PAGE_SQL,
        OPEN_SCAN_SQL,
        OPEN_PIN_SCAN_SQL,
        ORPHAN_SCAN_SQL,
        LOCK_SCAN_SQL,
        XATTR_SCAN_SQL,
        XATTR_STAGING_SCAN_SQL,
        MUTATION_SCAN_SQL,
        WRITER_LEASE_SCAN_SQL,
    ] {
        assert!(sql.contains("ORDER BY"));
        assert!(sql.contains("LIMIT"));
        assert!(sql.contains("AS MATERIALIZED"));
        assert!(sql.contains("retained_bytes"));
        assert!(sql.contains("prior_bytes"));
        assert!(!sql.contains("OFFSET"));
        assert!(sql.contains("\"public\".\"w9pt_fs_state_"));
    }
    assert!(INODE_BY_QID_PATH_SQL.contains("\"qid_path\" = $2::numeric"));
    assert!(INODE_BY_QID_PATH_SQL.contains("\"filesystem_id\" = $1"));
}

#[test]
fn scan_preflight_never_projects_large_variable_payloads() {
    assert!(INODE_SCAN_SQL.contains("octet_length(\"content_manifest_key\")"));
    assert!(INODE_SCAN_SQL.contains("octet_length(\"symlink_target\")"));
    assert!(!INODE_SCAN_SQL.contains("SELECT \"filesystem_id\", \"inode_id\""));

    assert!(XATTR_SCAN_SQL.contains("octet_length(\"value\")"));
    assert!(!XATTR_SCAN_SQL.contains("SELECT \"inode_id\", \"name\", \"value\""));

    assert!(XATTR_STAGING_SCAN_SQL.contains("octet_length(\"staged_bytes\")"));
    assert!(!XATTR_STAGING_SCAN_SQL.contains("SELECT \"staging_id\", \"staged_bytes\""));

    assert!(MUTATION_SCAN_SQL.contains("octet_length(\"result_bytes\")"));
    assert!(!MUTATION_SCAN_SQL.contains("SELECT \"mutation_id\", \"result_bytes\""));
}

#[test]
fn one_snapshot_answers_every_query_in_order() {
    let inode_id = InodeId::from_u128(2);
    let request = batch(vec![
        ReadQuery::Filesystem,
        ReadQuery::Inode(inode_id),
        ReadQuery::OpenPinCount(inode_id),
    ]);
    let Ok((mut run, ReadAction::Fetch(_))) = ReadRun::start(request, StateLimits::default()) else {
        panic!("expected a first statement");
    };
    assert!(matches!(run.revision(Some(&"7".to_owned())), Ok(ReadAction::Fetch(_))));
    assert!(matches!(run.point(None), Ok(ReadAction::Fetch(_))));
    let record = fifo(inode_id, b"o", b"g");
    let row = SqlStateRecord::encode(
        &RecordKey::Inode(FilesystemId::from_u128(1), inode_id),
        &record,
    )
    .unwrap();
    assert!(matches!(run.point(Some(&row)), Ok(ReadAction::Fetch(_))));
    assert!(matches!(run.pins(&"3".to_owned()), Ok(ReadAction::Finish)));
    let ReadOutcome::Snapshot(snapshot) = run.finish() else {
        panic!("expected a snapshot");
    };
    assert_eq!(snapshot.revision, StateRevision::new(7).unwrap());
    assert_eq!(
        snapshot.results,
        vec![
            ReadResult::Point {
                key: RecordKey::Filesystem(FilesystemId::from_u128(1)),
                record: None,
            },
            ReadResult::Point {
                key: RecordKey::Inode(FilesystemId::from_u128(1), inode_id),
                record: Some(record),
            },
            ReadResult::OpenPinCount { inode_id, count: 3 },
        ]
    );
}

#[test]
fn foreign_rows_are_corruption() {
    let inode_id = InodeId::from_u128(2);
    let request = batch(vec![ReadQuery::Inode(InodeId::from_u128(9))]);
    let Ok((mut run, _)) = ReadRun::start(request, StateLimits::default()) else {
        panic!("expected a run");
    };
    run.revision(None).unwrap();
    let row = SqlStateRecord::encode(
        &RecordKey::Inode(FilesystemId::from_u128(1), inode_id),
        &fifo(inode_id, b"o", b"g"),
    )
    .unwrap();
    let error = run.point(Some(&row)).unwrap_err();
    assert_eq!(error.kind(), AdapterFailureKind::Corruption);
}

#[test]
fn resumed_scans_go_on_after_their_cursor() {
    let open_pin = StateRecord::OpenPin(OpenPinRecord {
        inode_id: InodeId::from_u128(2),
        open_id: OpenId::from_u128(3),
        revision: RecordRevision::new(1).unwrap(),
    });
    let key =
        RecordKey::OpenPin(FilesystemId::from_u128(1), InodeId::from_u128(2), OpenId::from_u128(3));
    let Some(ScanResume::OpenPin(cursor)) = scan_resume(&key, &open_pin) else {
        panic!("expected a pin cursor");
    };
    assert_eq!(cursor.inode_id, InodeId::from_u128(2));
    assert_eq!(cursor.open_id, OpenId::from_u128(3));
    assert_eq!(scan_resume(&key, &fifo(InodeId::from_u128(2), b"o", b"g")), None);
}
