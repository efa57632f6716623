use sea_orm::{DbErr, RuntimeErr};
use w9pt_fs_state_postgres::change_plan::ChangeVerdict;
use w9pt_fs_state_postgres::commit::{
    admit_request, is_request_valid, CommitAction, CommitAttempt, CommitFailureTiming,
    FenceValidation,
};
use w9pt_fs_state_postgres::failure::AdapterFailureKind;
use w9pt_fs_state_postgres::estimate::estimate_transaction_bytes;
use w9pt_fs_state_postgres::ids::{
    ClientIncarnationId, DirectoryCookie, FencingToken, FilesystemId, InodeId, LeaseId, LockId,
    MutationId, MutationRetention, OpenId, QidPath, RecordRevision, RequestFingerprint,
    StateRevision, WriterIncarnationId, WriterScopeId, LockGeneration,
};
use w9pt_fs_state_postgres::invariants::{RelationFacts, RootFacts, Stage};
use w9pt_fs_state_postgres::key::RecordKey;
use w9pt_fs_state_postgres::limits::StateLimits;
use w9pt_fs_state_postgres::lock_check::LockSearch;
use w9pt_fs_state_postgres::precondition::{classify_ledger_record, lock_keys, MutationReplay};
use w9pt_fs_state_postgres::rows::SqlStateRecord;
use w9pt_fs_state_postgres::publish::changed_keys;
use w9pt_fs_state_postgres::record::{
    FilesystemRecord, LockKind, LockOwner, LockRange, LockRecord, MutationResult,
    RecordValidationError, StateRecord,
};
use w9pt_fs_state_postgres::request::{
    mutation_key, CommitConflictKind, CommitOutcome, CommitRequest, MalformedCommit,
    MutationContext, MutationMismatch, Precondition, StateChange, WriterFence,
};
use w9pt_fs_state_postgres::retry::{retry_action, RetryAction};
use w9pt_fs_state_postgres::sqlstate::SqlOperationPhase;

fn request(changes: Vec<StateChange>) -> CommitRequest {
    CommitRequest {
        filesystem_id: FilesystemId::from_u128(1),
        mutation: MutationContext {
            mutation_id: MutationId::from_u128(2),
            fingerprint: RequestFingerprint::new([9; 32]),
            client_incarnation: ClientIncarnationId::from_u128(3),
            retention: MutationRetention::new(4),
        },
        fence: WriterFence {
            scope: WriterScopeId::from_u128(5),
            holder: WriterIncarnationId::from_u128(6),
            lease_id: LeaseId::from_u128(7),
            fencing_token: FencingToken::new(8).unwrap(),
        },
        preconditions: vec![],
        changes,
        terminal_result: MutationResult { kind: 1, format: 1, bytes: b"ok".to_vec() },
    }
}

#[test]
fn lock_order_and_change_event_keys_are_canonical_and_include_ledger() {
    let request = request(vec![
        StateChange::BumpInodeGeneration(InodeId::from_u128(9)),
        StateChange::BumpFilesystemPolicyGeneration,
    ]);
    assert!(is_request_valid(&request));
    let keys = lock_keys(&request);
    assert!(keys.windows(2).all(|pair| pair[0].precedes(&pair[1])));
    let event = changed_keys(&request).unwrap();
    assert!(event.windows(2).all(|pair| pair[0].precedes(&pair[1])));
    assert!(event.contains(&mutation_key(&request)));
}

#[test]
fn retry_policy_distinguishes_commit_ambiguity() {
    let error = DbErr::Query(RuntimeErr::Internal("lost response".to_owned()));
    assert_eq!(
        retry_action(SqlOperationPhase::Commit, &error),
        Some(RetryAction::AmbiguousCommit)
    );
    assert_eq!(retry_action(SqlOperationPhase::ExecuteStatement, &error), None);
}

#[test]
fn transaction_estimate_uses_the_finalized_fixed_costs() {
    let request = request(vec![StateChange::BumpFilesystemPolicyGeneration]);
    assert_eq!(estimate_transaction_bytes(&request), Some(256 + 2 + 128));
}

fn header() -> StateRecord {
    StateRecord::Filesystem(FilesystemRecord {
        filesystem_id: FilesystemId::from_u128(1),
        revision: StateRevision::new(7).unwrap(),
        record_revision: RecordRevision::new(7).unwrap(),
        root_inode_id: InodeId::from_u128(2),
        next_qid_path: QidPath::new(3).unwrap(),
        next_directory_cookie: DirectoryCookie::new(4),
        policy_generation: 5,
    })
}

fn no_verdict() -> ChangeVerdict {
    ChangeVerdict { publication: None, rewrap: None }
}

fn check_relations(attempt: &mut CommitAttempt) -> CommitAction {
    assert_eq!(attempt.check.stage, Stage::Root);
    attempt
        .related(&RelationFacts::Root(RootFacts {
            root_inode_id: Some(InodeId::from_u128(2).to_vec()),
            root_kind: Some(Some(2)),
            has_entries: false,
        }))
        .unwrap()
}

fn reading(attempt: &mut CommitAttempt, mut action: CommitAction) -> CommitAction {
    while let CommitAction::LockAndFetch(key) = action {
        let record = match key {
            RecordKey::Filesystem(_) => Some(header()),
            _ => None,
        };
        action = attempt.fetched(record).unwrap();
    }
    action
}

fn attempt(
    request: CommitRequest,
    injection: Option<CommitFailureTiming>,
) -> (CommitAttempt, CommitAction) {
    assert!(admit_request(&request, None).is_none());
    let (mut attempt, action) = CommitAttempt::new(request, StateLimits::default(), injection);
    assert!(matches!(action, CommitAction::Fetch(_)));
    assert!(matches!(
        attempt.ledger(None, MutationReplay::Absent),
        Ok(CommitAction::LockHead)
    ));
    assert!(matches!(attempt.head(&"7".to_owned()), Ok(CommitAction::CheckFence)));
    let action = attempt.fence(FenceValidation::Current).unwrap();
    let action = reading(&mut attempt, action);
    (attempt, action)
}

fn run_to_relations(attempt: &mut CommitAttempt, mut action: CommitAction) -> CommitAction {
    loop {
        action = match action {
            CommitAction::Judge(_) => attempt.judged(no_verdict()).unwrap(),
            CommitAction::Execute(_) => attempt.written(1).unwrap(),
            other => return other,
        };
    }
}

#[test]
fn commit_writes_checks_records_and_publishes() {
    let request = request(vec![StateChange::BumpFilesystemPolicyGeneration]);
    let (mut attempt, action) = attempt(request, None);
    let action = run_to_relations(&mut attempt, action);
    assert!(matches!(action, CommitAction::CheckRelations), "{action:?}");
    let CommitAction::Execute(ledger) = check_relations(&mut attempt) else {
        panic!("expected the ledger record");
    };
    assert!(ledger.sql.contains("\"public\".\"w9pt_fs_state_mutation_results\""));
    let mut action = attempt.recorded(1).unwrap();
    let mut published = 0;
    while let CommitAction::Execute(_) = action {
        published += 1;
        action = attempt.published();
    }
    assert!(published >= 4);
    assert!(matches!(action, CommitAction::Commit), "{action:?}");
    assert!(matches!(attempt.committed(), CommitAction::Finish));
    let Some(CommitOutcome::Committed(committed)) = attempt.outcome else {
        panic!("expected a commit");
    };
    assert_eq!(committed.revision, StateRevision::new(8).unwrap());
}

#[test]
fn replayed_mutations_are_answered_from_the_ledger() {
    let request = request(vec![StateChange::BumpFilesystemPolicyGeneration]);
    let stored = StateRecord::Mutation(w9pt_fs_state_postgres::publish::terminal_record(
        &request,
        StateRevision::new(6).unwrap(),
    ));
    let (mut attempt, _) = CommitAttempt::new(request, StateLimits::default(), None);
    attempt.ledger(Some(&stored), MutationReplay::Exact).unwrap();
    attempt.rolled_back().unwrap();
    let Some(CommitOutcome::AlreadyCommitted(committed)) = attempt.outcome else {
        panic!("expected the retained result");
    };
    assert_eq!(committed.revision, StateRevision::new(6).unwrap());
}

#[test]
fn stale_and_expired_fences_roll_back() {
    for (fence, expected) in [
        (FenceValidation::Stale, CommitOutcome::StaleFence),
        (FenceValidation::Expired, CommitOutcome::ExpiredLease),
    ] {
        let request = request(vec![StateChange::BumpFilesystemPolicyGeneration]);
        let (mut attempt, _) = CommitAttempt::new(request, StateLimits::default(), None);
        attempt.ledger(None, MutationReplay::Absent).unwrap();
        attempt.head(&"7".to_owned()).unwrap();
        assert!(matches!(attempt.fence(fence), Ok(CommitAction::Rollback)));
        attempt.rolled_back().unwrap();
        assert_eq!(attempt.outcome, Some(expected));
    }
}

#[test]
fn counted_pins_are_kept_and_must_be_as_expected() {
    let expecting = |expected: u64| {
        let mut request = request(vec![StateChange::BumpFilesystemPolicyGeneration]);
        request.preconditions = vec![
            Precondition::OpenPinCount { inode_id: InodeId::from_u128(4), expected: 2 },
            Precondition::OpenPinCount { inode_id: InodeId::from_u128(5), expected },
        ];
        attempt(request, None)
    };
    let (mut held, action) = expecting(0);
    assert!(matches!(action, CommitAction::CountPins(_)), "{action:?}");
    assert!(matches!(held.pins(&"2".to_owned()), Ok(CommitAction::CountPins(_))));
    assert!(matches!(held.pins(&"0".to_owned()), Ok(CommitAction::Execute(_))));
    assert_eq!(held.counted, vec![(0, 2), (1, 0)]);

    let (mut refused, _) = expecting(1);
    refused.pins(&"2".to_owned()).unwrap();
    assert!(matches!(refused.pins(&"0".to_owned()), Ok(CommitAction::Rollback)));
    let Some(CommitOutcome::Conflict(conflict)) = refused.outcome else {
        panic!("expected a conflict");
    };
    assert_eq!(conflict.precondition_index, 1);
    assert_eq!(conflict.kind, CommitConflictKind::OpenPinCount);

    let (mut corrupt, _) = expecting(1);
    assert_eq!(
        corrupt.pins(&"02".to_owned()).unwrap_err().detail.text(),
        "open_pin_count value \"02\" is not canonical unsigned decimal"
    );
}

#[test]
fn failed_preconditions_name_their_index() {
    let mut request = request(vec![StateChange::BumpFilesystemPolicyGeneration]);
    request.preconditions = vec![
        Precondition::RecordRevision {
            key: RecordKey::Filesystem(FilesystemId::from_u128(1)),
            expected: RecordRevision::new(7).unwrap(),
        },
        Precondition::RecordRevision {
            key: RecordKey::Inode(FilesystemId::from_u128(1), InodeId::from_u128(9)),
            expected: RecordRevision::new(7).unwrap(),
        },
    ];
    let (mut attempt, action) = attempt(request, None);
    assert!(matches!(action, CommitAction::Rollback), "{action:?}");
    attempt.rolled_back().unwrap();
    let Some(CommitOutcome::Conflict(conflict)) = attempt.outcome else {
        panic!("expected a conflict");
    };
    assert_eq!(conflict.precondition_index, 1);
    assert!(matches!(conflict.kind, CommitConflictKind::RecordMissing(_)));
}

#[test]
fn injected_failures_stop_before_publication() {
    let request = request(vec![StateChange::BumpFilesystemPolicyGeneration]);
    let (mut attempt, action) = attempt(request, Some(CommitFailureTiming::BeforePublication));
    let action = run_to_relations(&mut attempt, action);
    assert!(matches!(action, CommitAction::CheckRelations));
    assert!(matches!(check_relations(&mut attempt), CommitAction::Rollback));
    assert!(attempt.rolled_back().is_err());
}

#[test]
fn an_answer_may_be_withheld_after_publication() {
    let request = request(vec![StateChange::BumpFilesystemPolicyGeneration]);
    let mutation = request.mutation;
    let (mut attempt, action) = attempt(request, Some(CommitFailureTiming::AfterPublication));
    run_to_relations(&mut attempt, action);
    check_relations(&mut attempt);
    let mut action = attempt.recorded(1).unwrap();
    while let CommitAction::Execute(_) = action {
        action = attempt.published();
    }
    attempt.committed();
    assert_eq!(attempt.outcome, Some(CommitOutcome::Ambiguous(mutation)));
}

#[test]
fn broken_relations_roll_back() {
    let request = request(vec![StateChange::BumpFilesystemPolicyGeneration]);
    let (mut attempt, action) = attempt(request, None);
    run_to_relations(&mut attempt, action);
    let action = attempt
        .related(&RelationFacts::Root(RootFacts {
            root_inode_id: Some(InodeId::from_u128(2).to_vec()),
            root_kind: Some(Some(1)),
            has_entries: false,
        }))
        .unwrap();
    assert!(matches!(action, CommitAction::Rollback), "{action:?}");
    attempt.rolled_back().unwrap();
    assert_eq!(
        attempt.outcome,
        Some(CommitOutcome::MalformedRequest(MalformedCommit::InvalidRecord(
            RecordValidationError::InvalidRelatedRecord {
                relation: "filesystem root is not a directory"
            }
        )))
    );
}

#[test]
fn writes_that_miss_their_record_conflict() {
    let request = request(vec![StateChange::BumpFilesystemPolicyGeneration]);
    let (mut attempt, action) = attempt(request, None);
    let CommitAction::Execute(write) = action else { panic!("expected a write") };
    assert!(write.sql.contains("\"policy_generation\" = $2::numeric"));
    assert!(matches!(attempt.written(0), Ok(CommitAction::Rollback)));
    let Some(CommitOutcome::Conflict(conflict)) = attempt.outcome else {
        panic!("expected a conflict");
    };
    assert_eq!(
        conflict.kind,
        CommitConflictKind::RecordMissing(RecordKey::Filesystem(FilesystemId::from_u128(1)))
    );
}

#[test]
fn a_ledger_record_is_inserted_exactly_once() {
    for (rows, kind) in [(0, AdapterFailureKind::Internal), (2, AdapterFailureKind::Corruption)] {
        let request = request(vec![StateChange::BumpFilesystemPolicyGeneration]);
        let (mut attempt, action) = attempt(request, None);
        run_to_relations(&mut attempt, action);
        check_relations(&mut attempt);
        assert_eq!(attempt.recorded(rows).unwrap_err().kind(), kind);
    }
}

#[test]
fn duplicate_targets_are_refused_before_any_attempt() {
    let request = request(vec![
        StateChange::BumpFilesystemPolicyGeneration,
        StateChange::BumpFilesystemPolicyGeneration,
    ]);
    assert!(matches!(
        admit_request(&request, None),
        Some(CommitOutcome::MalformedRequest(MalformedCommit::DuplicateChangeTarget(_)))
    ));
    let malformed = MalformedCommit::DuplicateChangeTarget(mutation_key(&request));
    assert_eq!(
        admit_request(&request, Some(malformed.clone())),
        Some(CommitOutcome::MalformedRequest(malformed))
    );
}

fn lock(lock_id: u128, start: u64, end: u64, open_id: u128) -> StateChange {
    let inode_id = InodeId::from_u128(2);
    StateChange::Insert {
        key: RecordKey::Lock(FilesystemId::from_u128(1), inode_id, LockId::from_u128(lock_id)),
        record: StateRecord::Lock(LockRecord {
            lock_id: LockId::from_u128(lock_id),
            inode_id,
            range: LockRange::finite(start, end).unwrap(),
            kind: LockKind::Exclusive,
            owner: LockOwner {
                client_incarnation: ClientIncarnationId::from_u128(3),
                open_id: OpenId::from_u128(open_id),
            },
            generation: LockGeneration::new(1).unwrap(),
            revision: RecordRevision::new(1).unwrap(),
        }),
    }
}

#[test]
fn lowest_excluding_lock_wins() {
    let filesystem_id = FilesystemId::from_u128(1);
    let request = request(vec![lock(7, 0, 10, 1), lock(5, 5, 15, 2)]);
    assert!(is_request_valid(&request));
    let mut search = LockSearch::start(&request);
    while search.statement(filesystem_id).is_some() {
        search.answer(None).unwrap();
    }
    let Some(CommitConflictKind::LockConflict { existing }) = search.conflict() else {
        panic!("expected a lock conflict");
    };
    assert_eq!(existing, LockId::from_u128(5));

    let mut search = LockSearch::start(&request);
    search.statement(filesystem_id).unwrap();
    search.answer(Some(LockId::from_u128(4).to_vec())).unwrap();
    while search.statement(filesystem_id).is_some() {
        search.answer(None).unwrap();
    }
    assert_eq!(
        search.conflict(),
        Some(CommitConflictKind::LockConflict { existing: LockId::from_u128(4) })
    );
}

#[test]
fn freed_locks_are_passed_over() {
    let filesystem_id = FilesystemId::from_u128(1);
    let freed = LockId::from_u128(3);
    let request = request(vec![
        StateChange::Delete(RecordKey::Lock(filesystem_id, InodeId::from_u128(2), freed)),
        lock(7, 0, 10, 1),
        lock(9, 20, 30, 2),
    ]);
    let mut search = LockSearch::start(&request);
    assert_eq!(search.found, None);
    search.answer(Some(freed.to_vec())).unwrap();
    assert_eq!((search.index, search.after), (0, Some(freed)));
    search.answer(Some(LockId::from_u128(8).to_vec())).unwrap();
    search.answer(Some(LockId::from_u128(6).to_vec())).unwrap();
    assert!(search.statement(filesystem_id).is_none());
    assert_eq!(
        search.conflict(),
        Some(CommitConflictKind::LockConflict { existing: LockId::from_u128(6) })
    );

    let mut search = LockSearch::start(&request);
    let error = search.answer(Some(vec![1; 15])).unwrap_err();
    assert_eq!(error.detail.text(), "lock_id has 15 bytes, expected 16");
}

#[test]
fn oversized_columns_are_told_before_a_commit() {
    let mut change = lock(7, 0, 10, 1);
    if let StateChange::Insert { record: StateRecord::Lock(lock), .. } = &mut change {
        lock.range = LockRange { start: 3, end: w9pt_fs_state_postgres::record::LockRangeEnd::Exclusive(3) };
    }
    assert!(!is_request_valid(&request(vec![change])));
}

#[test]
fn committed_mutation_is_replayed_from_its_ledger_row() {
    let request = request(vec![StateChange::BumpFilesystemPolicyGeneration]);
    let revision = StateRevision::new(8).unwrap();
    let record = StateRecord::Mutation(w9pt_fs_state_postgres::publish::terminal_record(
        &request, revision,
    ));
    let key = mutation_key(&request);
    let row = SqlStateRecord::encode(&key, &record).unwrap();
    let (read_key, stored) = row.decode(StateLimits::default()).unwrap();
    assert_eq!(read_key, key);
    let Ok(CommitOutcome::AlreadyCommitted(committed)) =
        classify_ledger_record(&stored, MutationReplay::Exact)
    else {
        panic!("a replay was expected");
    };
    assert_eq!(committed.revision, revision);
    assert_eq!(committed.result, request.terminal_result);
    assert_eq!(
        classify_ledger_record(
            &stored,
            MutationReplay::Mismatch(MutationMismatch { code: 3 })
        )
        .unwrap(),
        CommitOutcome::MutationMismatch(MutationMismatch { code: 3 })
    );
    assert!(classify_ledger_record(&stored, MutationReplay::Absent).is_err());
}
