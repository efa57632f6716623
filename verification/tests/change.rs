use w9pt_fs_state_postgres::change::{
    assemble_events, decode_header, decode_key_row, plan_headers, validate_receiver, ChangeCursor,
    ChangeHeader, ChangeKeyRow, ChangeOrigin, ChangePoll, HeaderPlan, KeyColumns,
    AUTHORITY_HEAD_SQL, CHANGE_HEADERS_SQL, CHANGE_KEYS_SQL,
};
use w9pt_fs_state_postgres::ids::{FilesystemId, InodeId, MutationId, StateRevision};
use w9pt_fs_state_postgres::key::RecordKey;
use w9pt_fs_state_postgres::limits::{StateLimitValues, StateLimits};

fn revision(value: u64) -> StateRevision {
    StateRevision::new(value).unwrap()
}

fn request(after: u64, max_events: u32, max_keys: u32) -> ChangePoll {
    ChangePoll {
        filesystem_id: FilesystemId::from_u128(1),
        after: ChangeCursor { revision: revision(after) },
        max_events,
        max_keys,
    }
}

fn header(value: u64, key_count: u32) -> ChangeHeader {
    ChangeHeader {
        revision: revision(value),
        origin: ChangeOrigin::Mutation(MutationId::from_u128(u128::from(value))),
        key_count,
    }
}

fn inode_row(value: u64, ordinal: u32, inode: u128) -> ChangeKeyRow {
    ChangeKeyRow {
        revision: revision(value),
        ordinal,
        key: RecordKey::Inode(FilesystemId::from_u128(1), InodeId::from_u128(inode)),
    }
}

#[test]
fn receiver_revalidates_a_request_built_with_looser_limits() {
    let poll = request(1, 2, 3);
    let values = StateLimitValues {
        max_changes: 1,
        max_change_history_commits: 1,
        max_change_keys: 2,
        ..StateLimitValues::default()
    };
    let limits = StateLimits::new(values);
    assert!(validate_receiver(poll, limits).is_err());
    assert!(validate_receiver(poll, StateLimits::default()).is_ok());
}

#[test]
fn header_planning_obeys_whole_event_and_aggregate_key_bounds() {
    let poll = request(1, 3, 3);
    assert_eq!(
        plan_headers(&poll, revision(4), vec![header(2, 2), header(3, 2)]),
        Ok(HeaderPlan::Selected(vec![header(2, 2)]))
    );
    let too_small = request(1, 3, 1);
    assert_eq!(
        plan_headers(&too_small, revision(2), vec![header(2, 2)]),
        Ok(HeaderPlan::PollBoundTooSmall { revision: revision(2), required_keys: 2 })
    );
}

#[test]
fn header_planning_detects_missing_or_unordered_history() {
    let poll = request(1, 3, 3);
    assert!(plan_headers(&poll, revision(3), vec![header(3, 1)]).is_err());
    assert!(plan_headers(&poll, revision(2), Vec::new()).is_err());
    assert!(plan_headers(&poll, revision(3), vec![header(2, 1)]).is_err());
}

#[test]
fn exact_event_limit_leaves_resume_at_the_last_returned_revision() {
    let poll = request(1, 2, 4);
    assert_eq!(
        plan_headers(&poll, revision(4), vec![header(2, 1), header(3, 1)]),
        Ok(HeaderPlan::Selected(vec![header(2, 1), header(3, 1)]))
    );
}

#[test]
fn empty_poll_at_the_current_revision_selects_nothing() {
    let poll = request(4, 2, 4);
    assert_eq!(
        plan_headers(&poll, revision(4), Vec::new()),
        Ok(HeaderPlan::Selected(Vec::new()))
    );
}

#[test]
fn origins_and_full_unsigned_revisions_decode_exactly() {
    let mutation = decode_header("18446744073709551615", 1, &vec![1; 16], 1).unwrap();
    assert_eq!(mutation.revision.get(), u64::MAX);
    assert!(matches!(mutation.origin, ChangeOrigin::Mutation(_)));
    let lease = decode_header("2", 2, &vec![2; 16], 1).unwrap();
    assert!(matches!(lease.origin, ChangeOrigin::Lease(_)));
    assert!(decode_header("0", 1, &vec![1; 16], 1).is_err());
    assert!(decode_header("2", 3, &vec![1; 16], 1).is_err());
    assert!(decode_header("2", 1, &vec![1; 15], 1).is_err());
    assert!(decode_header("2", 1, &vec![1; 16], 0).is_err());
}

#[test]
fn event_assembly_requires_exact_revision_and_ordinal_rows() {
    let filesystem_id = FilesystemId::from_u128(1);
    let headers = vec![header(2, 2), header(3, 1)];
    let rows = vec![inode_row(2, 0, 10), inode_row(2, 1, 11), inode_row(3, 0, 12)];
    let assembled = assemble_events(filesystem_id, &headers, &rows);
    assert_eq!(assembled.failure, None);
    let events = assembled.events;
    assert_eq!(events.len(), 2);
    assert_eq!(events[0].keys.len(), 2);
    assert_eq!(events[1].revision, revision(3));

    assert!(assemble_events(filesystem_id, &vec![header(2, 1)], &vec![inode_row(2, 1, 10)])
        .failure
        .is_some());
    assert!(assemble_events(
        filesystem_id,
        &vec![header(2, 1)],
        &vec![inode_row(2, 0, 10), inode_row(2, 1, 11)],
    )
    .failure
    .is_some());

    let cut = assemble_events(filesystem_id, &headers, &vec![inode_row(2, 0, 10), inode_row(2, 1, 11)]);
    assert_eq!(cut.events.len(), 1);
    assert_eq!(cut.failure.unwrap().text(), "change revision 3 has fewer than 1 keys");
}

#[test]
fn key_rows_use_the_shared_semantic_key_codec() {
    let filesystem_id = FilesystemId::from_u128(1);
    let row = decode_key_row(
        filesystem_id,
        &KeyColumns {
            revision: "2".to_owned(),
            ordinal: 0,
            family_tag: 2,
            component_a: Some(InodeId::from_u128(9).as_bytes().to_vec()),
            component_b: None,
        },
        StateLimits::default(),
    )
    .unwrap();
    assert_eq!(row.key, RecordKey::Inode(filesystem_id, InodeId::from_u128(9)));
    assert!(decode_key_row(
        filesystem_id,
        &KeyColumns {
            revision: "2".to_owned(),
            ordinal: -1,
            family_tag: 2,
            component_a: Some(vec![0; 16]),
            component_b: None,
        },
        StateLimits::default(),
    )
    .is_err());
}

#[test]
fn query_text_is_fully_qualified_and_keyset_ordered() {
    for query in [AUTHORITY_HEAD_SQL, CHANGE_HEADERS_SQL, CHANGE_KEYS_SQL] {
        assert!(query.contains("\"public\".\"w9pt_fs_state_"));
        assert!(!query.to_ascii_uppercase().contains("OFFSET"));
        assert!(!query.contains("has_more"));
    }
    assert!(CHANGE_HEADERS_SQL.contains("ORDER BY \"commit_event\".\"revision\""));
    assert!(CHANGE_HEADERS_SQL.contains("LIMIT $4"));
    assert!(CHANGE_KEYS_SQL
        .contains("ORDER BY \"commit_key\".\"revision\", \"commit_key\".\"ordinal\""));
    assert!(CHANGE_KEYS_SQL.contains("LIMIT $4"));
}
