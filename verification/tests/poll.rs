use w9pt_fs_state_postgres::change::{
    ChangeCursor, ChangeOrigin, ChangePoll, ChangePollOutcome, KeyColumns, AUTHORITY_HEAD_SQL,
    CHANGE_HEADERS_SQL, CHANGE_KEYS_SQL,
};
use w9pt_fs_state_postgres::failure::{AdapterFailureKind, FailureCause, StateStoreOperation};
use w9pt_fs_state_postgres::ids::{FilesystemId, InodeId, LeaseOperationId, StateRevision};
use w9pt_fs_state_postgres::key::RecordKey;
use w9pt_fs_state_postgres::limits::{StateLimitValues, StateLimits};
use w9pt_fs_state_postgres::poll::{
    HeadColumns, HeaderColumns, PollAction, PollPhase, PollRun,
};
use w9pt_fs_state_postgres::statement::{PostgresQuery, SqlValue};

fn revision(value: u64) -> StateRevision {
    StateRevision::new(value).unwrap()
}

fn request(after: u64, max_events: u32, max_keys: u32) -> ChangePoll {
    ChangePoll {
        filesystem_id: FilesystemId::from_u128(1),
        after: ChangeCursor { revision: revision(after) },
        max_events,
        max_keys,
    }
}

fn head(current: &str, oldest: &str) -> HeadColumns {
    HeadColumns { current: current.to_owned(), oldest: oldest.to_owned() }
}

fn header(value: &str, key_count: i32) -> HeaderColumns {
    HeaderColumns {
        revision: value.to_owned(),
        origin_kind: 2,
        origin_id: vec![3; 16],
        key_count,
    }
}

fn key(value: &str, ordinal: i32, inode: u8) -> KeyColumns {
    let mut component = vec![0; 15];
    component.push(inode);
    KeyColumns {
        revision: value.to_owned(),
        ordinal,
        family_tag: 2,
        component_a: Some(component),
        component_b: None,
    }
}

fn started(poll: ChangePoll) -> PollRun {
    let (run, action) = PollRun::start(poll, StateLimits::default()).unwrap();
    let statement = fetched(action);
    assert_eq!(statement.sql, AUTHORITY_HEAD_SQL);
    assert_eq!(statement.values, vec![filesystem()]);
    run
}

fn filesystem() -> SqlValue {
    let mut bytes = vec![0; 15];
    bytes.push(1);
    SqlValue::Bytes(Some(bytes))
}

fn number(value: &str) -> SqlValue {
    SqlValue::Text(Some(value.to_owned()))
}

fn fetched(action: PollAction) -> PostgresQuery {
    match action {
        PollAction::Fetch(statement) => statement,
        _ => panic!("a statement was expected"),
    }
}

#[test]
fn poll_returns_whole_changes_and_the_position_after_them() {
    let mut run = started(request(1, 5, 3));
    let statement = fetched(run.head(Some(&head("4", "1"))).unwrap());
    assert_eq!(statement.sql, CHANGE_HEADERS_SQL);
    assert_eq!(
        statement.values,
        vec![filesystem(), number("1"), number("4"), SqlValue::Int8(Some(5))]
    );
    let rows = vec![header("2", 2), header("3", 1), header("4", 2)];
    let statement = fetched(run.headers(&rows).unwrap());
    assert_eq!(statement.sql, CHANGE_KEYS_SQL);
    assert_eq!(
        statement.values,
        vec![filesystem(), number("1"), number("3"), SqlValue::Int8(Some(4))]
    );
    let keys = vec![key("2", 0, 7), key("2", 1, 8), key("3", 0, 9)];
    assert!(matches!(run.keys(&keys), Ok(PollAction::JudgeEvents)));
    assert_eq!(run.phase, PollPhase::Events);
    assert!(matches!(run.events_judged(None), Ok(PollAction::Judge)));
    assert_eq!(run.phase, PollPhase::Verdict);
    assert!(matches!(run.judged(None), Ok(PollAction::Finish)));
    let ChangePollOutcome::Changes(batch) = run.finish() else {
        panic!("changes were expected");
    };
    assert_eq!(batch.next.revision, revision(3));
    assert_eq!(batch.current, revision(4));
    assert_eq!(batch.events.len(), 2);
    assert_eq!(batch.events[0].revision, revision(2));
    assert_eq!(
        batch.events[0].origin,
        ChangeOrigin::Lease(LeaseOperationId::from_u128(
            0x0303_0303_0303_0303_0303_0303_0303_0303
        ))
    );
    assert_eq!(
        batch.events[0].keys,
        vec![
            RecordKey::Inode(FilesystemId::from_u128(1), InodeId::from_u128(7)),
            RecordKey::Inode(FilesystemId::from_u128(1), InodeId::from_u128(8)),
        ]
    );
    assert_eq!(batch.events[1].revision, revision(3));
}

#[test]
fn poll_at_the_current_revision_returns_nothing_new() {
    let mut run = started(request(4, 5, 3));
    run.head(Some(&head("4", "2"))).unwrap();
    assert!(matches!(run.headers(&Vec::new()), Ok(PollAction::Judge)));
    run.judged(None).unwrap();
    let ChangePollOutcome::Changes(batch) = run.finish() else {
        panic!("changes were expected");
    };
    assert!(batch.events.is_empty());
    assert_eq!(batch.next.revision, revision(4));
}

#[test]
fn positions_outside_the_retained_history_are_answered_from_the_head() {
    let mut run = started(request(2, 5, 3));
    assert!(matches!(run.head(None), Ok(PollAction::Finish)));
    assert_eq!(
        run.finish(),
        ChangePollOutcome::RevisionUnavailable { requested: revision(2), current: revision(1) }
    );

    let mut run = started(request(2, 5, 3));
    assert!(matches!(run.head(Some(&head("9", "3"))), Ok(PollAction::Finish)));
    assert_eq!(
        run.finish(),
        ChangePollOutcome::RevisionCompacted {
            oldest_available: revision(3),
            current_revision: revision(9),
        }
    );
}

#[test]
fn change_larger_than_the_poll_is_named() {
    let mut run = started(request(1, 5, 1));
    run.head(Some(&head("2", "1"))).unwrap();
    assert!(matches!(run.headers(&vec![header("2", 2)]), Ok(PollAction::Finish)));
    assert_eq!(
        run.finish(),
        ChangePollOutcome::PollBoundTooSmall { revision: revision(2), required_keys: 2 }
    );
}

#[test]
fn poll_beyond_the_receiver_limits_is_malformed() {
    let values = StateLimitValues { max_changes: 1, ..StateLimitValues::default() };
    assert!(matches!(
        PollRun::start(request(1, 2, 1), StateLimits::new(values)),
        Err(ChangePollOutcome::MalformedRequest(_))
    ));
}

#[test]
fn corrupt_rows_fail_the_poll() {
    let mut run = started(request(1, 5, 3));
    let error = run.head(Some(&head("2", "3"))).unwrap_err();
    assert_eq!(error.operation(), StateStoreOperation::PollChanges);
    assert_eq!(error.kind(), AdapterFailureKind::Corruption);
    assert_eq!(
        error.detail.context,
        "oldest retained change revision exceeds current authority revision"
    );

    let mut run = started(request(1, 5, 3));
    let error = run.head(Some(&head("0", "0"))).unwrap_err();
    assert_eq!(error.detail.text(), "invalid current_revision: value must be nonzero");

    let mut run = started(request(1, 5, 3));
    let error = run.head(Some(&head("1", "01"))).unwrap_err();
    assert_eq!(
        error.detail.text(),
        "invalid persisted revision: oldest_retained_revision value \"01\" is not canonical unsigned decimal"
    );

    let mut run = started(request(1, 5, 3));
    run.head(Some(&head("3", "1"))).unwrap();
    let error = run.headers(&vec![header("3", 1)]).unwrap_err();
    assert_eq!(
        error.text(),
        "PostgreSQL Corruption failure during PollChanges: noncontiguous change history after revision 1: found 3"
    );

    let mut run = started(request(1, 5, 3));
    run.head(Some(&head("3", "1"))).unwrap();
    let error = run.headers(&vec![header("2", 1)]).unwrap_err();
    assert_eq!(
        error.detail.text(),
        "change history ends at revision 2 before current revision 3"
    );

    let mut run = started(request(1, 5, 3));
    run.head(Some(&head("2", "1"))).unwrap();
    run.headers(&vec![header("2", 2)]).unwrap();
    run.keys(&vec![key("2", 0, 7)]).unwrap();
    assert!(run.events.is_empty());
    let error = run.events_judged(None).unwrap_err();
    assert_eq!(error.detail.text(), "change revision 2 has fewer than 2 keys");

    let mut run = started(request(1, 5, 3));
    run.head(Some(&head("2", "1"))).unwrap();
    run.headers(&vec![header("2", 2)]).unwrap();
    run.keys(&vec![key("2", 0, 7), key("2", 3, 8)]).unwrap();
    let error = run.events_judged(None).unwrap_err();
    assert_eq!(error.detail.text(), "unexpected change key at revision 2 ordinal 3");
}

#[test]
fn refused_changes_are_corruption() {
    let mut run = started(request(4, 5, 3));
    run.head(Some(&head("4", "2"))).unwrap();
    run.headers(&Vec::new()).unwrap();
    let error = run.judged(Some("stale".to_owned())).unwrap_err();
    assert_eq!(error.kind(), AdapterFailureKind::Corruption);
    assert_eq!(error.detail.cause, FailureCause::Refusal("stale".to_owned()));
    assert_eq!(error.detail.text(), "invalid decoded change batch: stale");
}

#[test]
fn refused_changes_come_before_later_keys() {
    for (refusal, text) in [
        (Some("empty".to_owned()), "invalid decoded change event: empty"),
        (None, "change revision 3 has fewer than 2 keys"),
    ] {
        let mut run = started(request(1, 5, 3));
        run.head(Some(&head("3", "1"))).unwrap();
        run.headers(&vec![header("2", 1), header("3", 2)]).unwrap();
        let keys = vec![key("2", 0, 7), key("3", 0, 8)];
        assert!(matches!(run.keys(&keys), Ok(PollAction::JudgeEvents)));
        assert_eq!(run.events.len(), 1);
        let error = run.events_judged(refusal).unwrap_err();
        assert_eq!(error.kind(), AdapterFailureKind::Corruption);
        assert_eq!(error.detail.text(), text);
    }

    let mut run = started(request(1, 5, 3));
    run.head(Some(&head("2", "1"))).unwrap();
    run.headers(&vec![header("2", 1)]).unwrap();
    run.keys(&vec![key("2", 0, 7), key("2", 1, 8)]).unwrap();
    assert_eq!(run.events.len(), 1);
    assert_eq!(
        run.events_judged(None).unwrap_err().detail.text(),
        "change-key query returned rows beyond selected headers"
    );
}
