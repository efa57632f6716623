use w9pt_fs_state_postgres::ids::{
    FencingToken, FilesystemId, LeaseDeadline, LeaseId, LeaseOperationId, RecordRevision,
    RequestFingerprint, StateRevision, WriterIncarnationId, WriterScopeId,
};
use w9pt_fs_state_postgres::lease::{
    replay_stored_operation, retained_outcome, AcquireLeaseOutcome, AcquireWriterLease,
    LeaseOperationOutcome, LeaseRejection, LeaseRequest, ReleaseLeaseOutcome, ReleaseWriterLease,
    RenewLeaseOutcome, RenewWriterLease, StoredLeaseOperation, StoredOperationRow,
    WriterLeaseGrant, ACQUIRE_BUSY_TAG, RENEW_KIND, SUCCESS_TAG,
};
use w9pt_fs_state_postgres::lease_attempt::{
    acquire_outcome, try_again, LeaseAction, LeaseAttempt, RetryReason,
};
use w9pt_fs_state_postgres::lease_staging::{
    decode_fence, lease_history_full, next_revision, require_one_row, retain_operation,
    update_active_fence, write_active_fence, FenceRow, CLEAR_FENCE_SQL, COUNT_OPERATIONS_SQL, LOAD_FENCE_SQL,
    LOAD_OPERATION_SQL, LOG_LEASE_KEY_SQL, LOG_LEASE_SQL, RENEW_FENCE_SQL, RETAIN_OPERATION_SQL,
    WRITE_FENCE_SQL,
};
use w9pt_fs_state_postgres::failure::StateStoreOperation;
use w9pt_fs_state_postgres::limits::StateLimits;
use w9pt_fs_state_postgres::publish::{
    retained_change_cursor, ADVANCE_HEAD_SQL, DROP_COMMITS_SQL, DROP_KEYS_SQL, ENSURE_HEAD_SQL,
    LOCK_HEAD_SQL,
};
use w9pt_fs_state_postgres::record::WriterLeaseRecord;
use w9pt_fs_state_postgres::request::WriterFence;
use w9pt_fs_state_postgres::retry::{RetryBounds, RetryState};
use w9pt_fs_state_postgres::statement::SqlValue;
use w9pt_fs_state_postgres::sqlstate::{
    classify_sqlstate, DefinitiveAbort, SqlFailureClass, SqlOperationPhase,
};

fn acquire_request() -> AcquireWriterLease {
    AcquireWriterLease {
        filesystem_id: FilesystemId::from_u128(1),
        operation_id: LeaseOperationId::from_u128(2),
        scope: WriterScopeId::from_u128(3),
        holder: WriterIncarnationId::from_u128(4),
        lease_id: LeaseId::from_u128(5),
        duration: 10,
        fingerprint: RequestFingerprint::new([11; 32]),
    }
}

fn sample_grant() -> WriterLeaseGrant {
    WriterLeaseGrant {
        fence: WriterFence {
            scope: WriterScopeId::from_u128(3),
            holder: WriterIncarnationId::from_u128(4),
            lease_id: LeaseId::from_u128(5),
            fencing_token: FencingToken::new(6).unwrap(),
        },
        deadline: LeaseDeadline::new(10),
    }
}

fn renew_request(grant: WriterLeaseGrant) -> RenewWriterLease {
    RenewWriterLease {
        filesystem_id: FilesystemId::from_u128(1),
        operation_id: LeaseOperationId::from_u128(7),
        fence: grant.fence,
        duration: 10,
        fingerprint: RequestFingerprint::new([12; 32]),
    }
}

fn release_request(grant: WriterLeaseGrant) -> ReleaseWriterLease {
    ReleaseWriterLease {
        filesystem_id: FilesystemId::from_u128(1),
        operation_id: LeaseOperationId::from_u128(8),
        fence: grant.fence,
        fingerprint: RequestFingerprint::new([13; 32]),
    }
}

fn stored(
    request: LeaseRequest,
    outcome_tag: i16,
    grant: Option<WriterLeaseGrant>,
) -> StoredLeaseOperation {
    StoredLeaseOperation {
        kind: request.kind(),
        fingerprint: request.fingerprint().to_vec(),
        outcome_tag,
        grant,
    }
}

#[test]
fn exact_success_and_busy_replays_preserve_retained_grants() {
    let request = LeaseRequest::Acquire(acquire_request());
    let grant = sample_grant();
    assert!(matches!(
        replay_stored_operation(request, &stored(request, SUCCESS_TAG, Some(grant))).unwrap(),
        LeaseOperationOutcome::Acquire(AcquireLeaseOutcome::AlreadyApplied(replayed))
            if replayed == grant
    ));
    assert!(matches!(
        replay_stored_operation(request, &stored(request, ACQUIRE_BUSY_TAG, Some(grant))).unwrap(),
        LeaseOperationOutcome::Acquire(AcquireLeaseOutcome::Rejected(
            LeaseRejection::Busy(replayed)
        )) if replayed == grant
    ));
}

#[test]
fn one_operation_id_namespace_rejects_kind_or_fingerprint_reuse() {
    let request = LeaseRequest::Acquire(acquire_request());
    let mut wrong_kind = stored(request, SUCCESS_TAG, Some(sample_grant()));
    wrong_kind.kind = RENEW_KIND;
    assert!(matches!(
        replay_stored_operation(request, &wrong_kind).unwrap(),
        LeaseOperationOutcome::Acquire(AcquireLeaseOutcome::Rejected(
            LeaseRejection::OperationMismatch
        ))
    ));
    let mut wrong_fingerprint = stored(request, SUCCESS_TAG, Some(sample_grant()));
    wrong_fingerprint.fingerprint[0] ^= 0xff;
    assert!(matches!(
        replay_stored_operation(request, &wrong_fingerprint).unwrap(),
        LeaseOperationOutcome::Acquire(AcquireLeaseOutcome::Rejected(
            LeaseRejection::OperationMismatch
        ))
    ));
}

#[test]
fn retained_tags_round_trip_every_persistable_rejection() {
    let request = LeaseRequest::Acquire(acquire_request());
    for rejection in [
        LeaseRejection::InvalidWriterScope,
        LeaseRejection::InvalidDuration,
        LeaseRejection::FencingTokenExhausted,
    ] {
        let outcome = LeaseOperationOutcome::Acquire(AcquireLeaseOutcome::Rejected(rejection));
        let retained = retained_outcome(request, outcome).unwrap();
        assert!(matches!(
            replay_stored_operation(request, &stored(request, retained.tag, retained.grant))
                .unwrap(),
            LeaseOperationOutcome::Acquire(AcquireLeaseOutcome::Rejected(actual))
                if actual == rejection
        ));
    }
}

#[test]
fn nonretained_limit_and_identity_outcomes_have_no_sql_tag() {
    let request = LeaseRequest::Acquire(acquire_request());
    for rejection in [LeaseRejection::OperationMismatch, LeaseRejection::OperationHistoryFull] {
        let outcome = LeaseOperationOutcome::Acquire(AcquireLeaseOutcome::Rejected(rejection));
        assert!(retained_outcome(request, outcome).is_err());
    }
}

#[test]
fn renew_and_release_tags_replay_exact_semantic_outcomes() {
    let grant = sample_grant();
    let renew = LeaseRequest::Renew(renew_request(grant));
    for rejection in [
        LeaseRejection::StaleFence,
        LeaseRejection::Expired,
        LeaseRejection::InvalidWriterScope,
        LeaseRejection::InvalidDuration,
    ] {
        let outcome = LeaseOperationOutcome::Renew(RenewLeaseOutcome::Rejected(rejection));
        let retained = retained_outcome(renew, outcome).unwrap();
        assert!(matches!(
            replay_stored_operation(renew, &stored(renew, retained.tag, retained.grant)).unwrap(),
            LeaseOperationOutcome::Renew(RenewLeaseOutcome::Rejected(actual))
                if actual == rejection
        ));
    }

    let release = LeaseRequest::Release(release_request(grant));
    for rejection in [
        LeaseRejection::StaleFence,
        LeaseRejection::Expired,
        LeaseRejection::InvalidWriterScope,
    ] {
        let outcome = LeaseOperationOutcome::Release(ReleaseLeaseOutcome::Rejected(rejection));
        let retained = retained_outcome(release, outcome).unwrap();
        assert!(matches!(
            replay_stored_operation(release, &stored(release, retained.tag, retained.grant))
                .unwrap(),
            LeaseOperationOutcome::Release(ReleaseLeaseOutcome::Rejected(actual))
                if actual == rejection
        ));
    }
    let success = LeaseOperationOutcome::Release(ReleaseLeaseOutcome::Released);
    let retained = retained_outcome(release, success).unwrap();
    assert!(matches!(
        replay_stored_operation(release, &stored(release, retained.tag, retained.grant)).unwrap(),
        LeaseOperationOutcome::Release(ReleaseLeaseOutcome::AlreadyApplied)
    ));
}

#[test]
fn retained_change_cursor_keeps_only_the_configured_whole_events() {
    assert_eq!(retained_change_cursor(StateRevision::new(2).unwrap(), 1), 1);
    assert_eq!(retained_change_cursor(StateRevision::new(3).unwrap(), 1), 2);
    assert_eq!(retained_change_cursor(StateRevision::new(11).unwrap(), 4), 7);
}

#[test]
fn retry_classifier_is_exact_and_commit_errors_are_conservative() {
    assert_eq!(
        classify_sqlstate(SqlOperationPhase::ExecuteStatement, "40001", None),
        SqlFailureClass::RetryIdentical(DefinitiveAbort::SerializationFailure)
    );
    assert_eq!(
        classify_sqlstate(SqlOperationPhase::ExecuteStatement, "40P01", None),
        SqlFailureClass::RetryIdentical(DefinitiveAbort::DeadlockDetected)
    );
    assert_eq!(
        classify_sqlstate(SqlOperationPhase::Commit, "99999", None),
        SqlFailureClass::AmbiguousCommit
    );
}

#[test]
fn all_state_sql_is_fully_qualified() {
    let source = [
        LOAD_OPERATION_SQL,
        COUNT_OPERATIONS_SQL,
        LOAD_FENCE_SQL,
        WRITE_FENCE_SQL,
        RENEW_FENCE_SQL,
        CLEAR_FENCE_SQL,
        RETAIN_OPERATION_SQL,
        LOG_LEASE_SQL,
        LOG_LEASE_KEY_SQL,
        ENSURE_HEAD_SQL,
        LOCK_HEAD_SQL,
        ADVANCE_HEAD_SQL,
        DROP_KEYS_SQL,
        DROP_COMMITS_SQL,
    ]
    .join("\n");
    for table in [
        "authority_heads",
        "writer_fences",
        "writer_lease_operations",
        "change_commits",
        "change_keys",
    ] {
        assert!(source.contains(&format!("\"public\".\"w9pt_fs_state_{table}\"")));
    }
}

#[test]
fn first_acquisition_grants_retains_and_publishes() {
    let request = acquire_request();
    let (mut attempt, action) =
        LeaseAttempt::new(LeaseRequest::Acquire(request), StateLimits::default());
    assert!(matches!(action, LeaseAction::LoadOperation(_)));
    assert!(matches!(attempt.stored(None), Ok(LeaseAction::CountHistory(_))));
    assert!(matches!(attempt.history(0), Ok(LeaseAction::LockHead { .. })));
    assert!(matches!(attempt.head(&"4".to_owned()), Ok(LeaseAction::LoadFence(_))));
    assert!(matches!(attempt.fence(None), Ok(LeaseAction::Decide)));
    let Ok(LeaseAction::Grant(revision)) = attempt.decided(Ok(())) else {
        panic!("expected a grant");
    };
    assert_eq!(revision.get(), 5);
    let record = WriterLeaseRecord {
        filesystem_id: request.filesystem_id,
        scope: request.scope,
        holder: request.holder,
        lease_id: request.lease_id,
        deadline: LeaseDeadline::new(20),
        fencing_token: FencingToken::new(1).unwrap(),
        revision,
    };
    let mut action = attempt.granted(Ok(record)).unwrap();
    let mut executed = 0;
    while let LeaseAction::Execute(_) = action {
        executed += 1;
        action = attempt.executed(1).unwrap();
    }
    assert!(executed >= 5);
    assert!(matches!(action, LeaseAction::Commit), "{action:?}");
    let outcome = acquire_outcome(attempt.committed()).unwrap();
    let AcquireLeaseOutcome::Granted(grant) = outcome else {
        panic!("expected a grant");
    };
    assert_eq!(grant.fence.fencing_token, FencingToken::new(1).unwrap());
    assert_eq!(grant.deadline, LeaseDeadline::new(20));
}

#[test]
fn full_history_is_answered_without_a_trace() {
    let limits = StateLimits::default();
    let (mut attempt, _) = LeaseAttempt::new(LeaseRequest::Acquire(acquire_request()), limits);
    attempt.stored(None).unwrap();
    let full = i64::from(limits.max_lease_operation_history());
    assert!(matches!(attempt.history(full), Ok(LeaseAction::Commit)));
    assert_eq!(
        acquire_outcome(attempt.committed()).unwrap(),
        AcquireLeaseOutcome::Rejected(LeaseRejection::OperationHistoryFull)
    );
}

#[test]
fn rejections_are_retained() {
    let (mut attempt, _) =
        LeaseAttempt::new(LeaseRequest::Acquire(acquire_request()), StateLimits::default());
    attempt.stored(None).unwrap();
    attempt.history(0).unwrap();
    attempt.head(&"4".to_owned()).unwrap();
    attempt.fence(None).unwrap();
    let Ok(LeaseAction::Execute(retain)) =
        attempt.decided(Err(LeaseRejection::InvalidDuration))
    else {
        panic!("expected the retained operation");
    };
    assert_eq!(retain.sql, RETAIN_OPERATION_SQL);
    assert!(matches!(attempt.executed(1), Ok(LeaseAction::Commit)));
    assert_eq!(
        acquire_outcome(attempt.committed()).unwrap(),
        AcquireLeaseOutcome::Rejected(LeaseRejection::InvalidDuration)
    );
}

#[test]
fn lease_history_is_bounded() {
    let limits = StateLimits::default();
    let maximum = i64::from(limits.max_lease_operation_history());
    assert!(!lease_history_full(maximum - 1, limits));
    assert!(lease_history_full(maximum, limits));
}

#[test]
fn revisions_step_and_rows_count() {
    let (state, record) =
        next_revision(StateRevision::new(7).unwrap(), StateStoreOperation::AcquireLease).unwrap();
    assert_eq!(state.get(), 8);
    assert_eq!(record.get(), 8);
    assert!(
        next_revision(StateRevision::new(u64::MAX).unwrap(), StateStoreOperation::AcquireLease)
            .is_err()
    );
    assert!(require_one_row(1, StateStoreOperation::RenewLease, "renewing").is_ok());
    assert_eq!(
        require_one_row(0, StateStoreOperation::RenewLease, "renewing").unwrap_err().text(),
        "PostgreSQL Corruption failure during RenewLease: renewing affected 0 rows, expected one"
    );
}

#[test]
fn retries_stop_at_their_bounds() {
    let bounds = RetryBounds { definitive: 1, recovery: 2 };
    let mut retries = RetryState::new();
    assert!(!try_again(&mut retries, None, bounds));
    assert!(try_again(&mut retries, Some(RetryReason::DefinitiveAbort), bounds));
    assert!(!try_again(&mut retries, Some(RetryReason::DefinitiveAbort), bounds));
    assert!(try_again(&mut retries, Some(RetryReason::AmbiguousCommit), bounds));
    assert!(try_again(&mut retries, Some(RetryReason::AmbiguousCommit), bounds));
    assert!(!try_again(&mut retries, Some(RetryReason::AmbiguousCommit), bounds));
}

fn text_at(values: &[SqlValue], index: usize) -> Option<String> {
    match &values[index] {
        SqlValue::Text(text) => text.clone(),
        other => panic!("text was expected: {other:?}"),
    }
}

fn bytes_at(values: &[SqlValue], index: usize) -> Option<Vec<u8>> {
    match &values[index] {
        SqlValue::Bytes(bytes) => bytes.clone(),
        other => panic!("bytes were expected: {other:?}"),
    }
}

fn fence_row(greatest: String, values: &[SqlValue], first: usize) -> FenceRow {
    FenceRow {
        greatest_fencing_token: greatest,
        active_holder_id: bytes_at(values, first),
        active_lease_id: bytes_at(values, first + 1),
        active_deadline_tick: text_at(values, first + 2),
        active_record_revision: text_at(values, first + 3),
    }
}

fn operation_row(values: &[SqlValue]) -> StoredOperationRow {
    let tag_at = |index: usize| match &values[index] {
        SqlValue::Int2(Some(tag)) => *tag,
        other => panic!("a tag was expected: {other:?}"),
    };
    StoredOperationRow {
        kind: tag_at(2),
        fingerprint: bytes_at(values, 3).unwrap(),
        outcome_tag: tag_at(4),
        scope: bytes_at(values, 5),
        holder: bytes_at(values, 6),
        lease: bytes_at(values, 7),
        deadline: text_at(values, 8),
        token: text_at(values, 9),
    }
}

#[test]
fn sent_again_operations_answer_the_same_and_stage_nothing() {
    let request = LeaseRequest::Acquire(acquire_request());
    let grant = sample_grant();
    let granted = LeaseOperationOutcome::Acquire(AcquireLeaseOutcome::Granted(grant));
    let row = operation_row(&retain_operation(request, granted).unwrap().values);
    let (mut attempt, _) = LeaseAttempt::new(request, StateLimits::default());
    assert!(matches!(attempt.stored(Some(&row)), Ok(LeaseAction::Commit)));
    assert!(attempt.steps.is_empty());
    assert_eq!(
        acquire_outcome(attempt.committed()).unwrap(),
        AcquireLeaseOutcome::AlreadyApplied(grant)
    );

    let rejected =
        LeaseOperationOutcome::Acquire(AcquireLeaseOutcome::Rejected(LeaseRejection::Busy(grant)));
    let row = operation_row(&retain_operation(request, rejected).unwrap().values);
    let (mut attempt, _) = LeaseAttempt::new(request, StateLimits::default());
    attempt.stored(Some(&row)).unwrap();
    assert_eq!(
        acquire_outcome(attempt.committed()).unwrap(),
        AcquireLeaseOutcome::Rejected(LeaseRejection::Busy(grant))
    );

    let short = StoredOperationRow { scope: Some(vec![1; 15]), ..row };
    let (mut attempt, _) = LeaseAttempt::new(request, StateLimits::default());
    assert_eq!(
        attempt.stored(Some(&short)).unwrap_err().detail.text(),
        "grant_scope_id has width 15, expected 16"
    );
    let strange = StoredOperationRow { kind: 9, ..short };
    let (mut attempt, _) = LeaseAttempt::new(request, StateLimits::default());
    assert_eq!(
        attempt.stored(Some(&strange)).unwrap_err().detail.text(),
        "stored lease operation has unknown kind tag 9"
    );
}

#[test]
fn fences_are_read_back_and_keep_their_token() {
    let limits = StateLimits::default();
    let filesystem_id = FilesystemId::from_u128(1);
    let scope = WriterScopeId::from_u128(3);
    let operation = StateStoreOperation::AcquireLease;
    let granted = WriterLeaseRecord {
        filesystem_id,
        scope,
        holder: WriterIncarnationId::from_u128(4),
        lease_id: LeaseId::from_u128(5),
        deadline: LeaseDeadline::new(u64::MAX),
        fencing_token: FencingToken::new(6).unwrap(),
        revision: RecordRevision::new(7).unwrap(),
    };
    let read = |row: &FenceRow| {
        decode_fence(filesystem_id, scope, Some(row), limits, operation).unwrap()
    };

    let values = write_active_fence(&granted).values;
    let row = fence_row(text_at(&values, 2).unwrap(), &values, 3);
    assert_eq!(read(&row).current, Some(granted));
    assert_eq!(read(&row).greatest, Some(granted.fencing_token));

    let renewed = WriterLeaseRecord { deadline: LeaseDeadline::new(20), ..granted };
    let row = fence_row(row.greatest_fencing_token, &update_active_fence(&renewed).values, 2);
    assert_eq!(read(&row).current, Some(renewed));
    assert_eq!(read(&row).greatest, Some(granted.fencing_token));

    let released = FenceRow {
        active_holder_id: None,
        active_lease_id: None,
        active_deadline_tick: None,
        active_record_revision: None,
        ..row
    };
    assert_eq!(read(&released).current, None);
    assert_eq!(read(&released).greatest, Some(granted.fencing_token));

    let again = WriterLeaseRecord { fencing_token: FencingToken::new(7).unwrap(), ..granted };
    let values = write_active_fence(&again).values;
    let row = fence_row(text_at(&values, 2).unwrap(), &values, 3);
    assert_eq!(read(&row).greatest, Some(again.fencing_token));

    let partial = FenceRow { active_lease_id: Some(vec![1; 16]), ..released };
    assert!(decode_fence(filesystem_id, scope, Some(&partial), limits, operation).is_err());
    let nothing = decode_fence(filesystem_id, scope, None, limits, operation).unwrap();
    assert_eq!((nothing.current, nothing.greatest), (None, None));
}
