use sea_orm::{DbErr, RuntimeErr};
use w9pt_fs_state_postgres::commit_run::{AttemptEnd, CommitRun, RunPhase, RunStep};
use w9pt_fs_state_postgres::failure::{
    AdapterFailureKind, FailureCause, PostgresStateError, StateStoreOperation,
};
use w9pt_fs_state_postgres::ids::{
    ClientIncarnationId, FencingToken, FilesystemId, LeaseId, MutationId, MutationRetention,
    RequestFingerprint, WriterIncarnationId, WriterScopeId,
};
use w9pt_fs_state_postgres::record::MutationResult;
use w9pt_fs_state_postgres::request::{
    CommitOutcome, CommitRequest, MutationContext, StateChange, WriterFence,
};
use w9pt_fs_state_postgres::retry::RetryBounds;
use w9pt_fs_state_postgres::sqlstate::SqlOperationPhase;

fn mutation() -> MutationContext {
    MutationContext {
        mutation_id: MutationId::from_u128(2),
        fingerprint: RequestFingerprint::new([9; 32]),
        client_incarnation: ClientIncarnationId::from_u128(3),
        retention: MutationRetention::new(4),
    }
}

fn started(definitive: u32, recovery: u32) -> CommitRun {
    let request = CommitRequest {
        filesystem_id: FilesystemId::from_u128(1),
        mutation: mutation(),
        fence: WriterFence {
            scope: WriterScopeId::from_u128(5),
            holder: WriterIncarnationId::from_u128(6),
            lease_id: LeaseId::from_u128(7),
            fencing_token: FencingToken::new(8).unwrap(),
        },
        preconditions: vec![],
        changes: vec![StateChange::BumpFilesystemPolicyGeneration],
        terminal_result: MutationResult { kind: 1, format: 1, bytes: b"ok".to_vec() },
    };
    let (run, step) = CommitRun::start(&request, RetryBounds { definitive, recovery });
    assert_eq!(step, RunStep::Probe);
    assert_eq!(run.phase, RunPhase::Probing);
    run
}

fn attempting(definitive: u32, recovery: u32) -> CommitRun {
    let mut run = started(definitive, recovery);
    assert_eq!(run.probed(Ok(None), None).unwrap(), RunStep::Attempt);
    run
}

fn lost() -> DbErr {
    DbErr::Query(RuntimeErr::Internal("lost response".to_owned()))
}

fn reported(kind: AdapterFailureKind) -> PostgresStateError {
    PostgresStateError::new(StateStoreOperation::Commit, kind, "reported", FailureCause::Plain)
}

#[test]
fn a_known_mutation_is_answered_before_its_request_is_judged() {
    let mut run = started(2, 2);
    assert_eq!(
        run.probed(Ok(Some(CommitOutcome::ExpiredLease)), Some(CommitOutcome::StaleFence)).unwrap(),
        RunStep::Answer
    );
    assert_eq!(run.outcome, Some(CommitOutcome::ExpiredLease));

    let mut run = started(2, 2);
    assert_eq!(run.probed(Ok(None), Some(CommitOutcome::StaleFence)).unwrap(), RunStep::Answer);
    assert_eq!(run.outcome, Some(CommitOutcome::StaleFence));

    let mut run = started(2, 2);
    let error = run.probed(Err(reported(AdapterFailureKind::Timeout)), None).unwrap_err();
    assert_eq!(error.kind(), AdapterFailureKind::Timeout);
}

#[test]
fn an_outcome_ends_the_commit() {
    let mut run = attempting(0, 0);
    assert_eq!(
        run.attempted(AttemptEnd::Outcome(CommitOutcome::StaleFence)).unwrap(),
        RunStep::Answer
    );
    assert_eq!(run.outcome, Some(CommitOutcome::StaleFence));
    assert_eq!(run.phase, RunPhase::Answered);
}

#[test]
fn definitive_aborts_are_retried_as_often_as_configured() {
    let mut run = attempting(2, 0);
    for used in 1..=2 {
        let end = AttemptEnd::Failed(reported(AdapterFailureKind::Serialization));
        assert_eq!(run.attempted(end).unwrap(), RunStep::Attempt);
        assert_eq!(run.retries.definitive, used);
    }
    let end = AttemptEnd::Failed(reported(AdapterFailureKind::Serialization));
    assert_eq!(run.attempted(end).unwrap_err().kind(), AdapterFailureKind::Serialization);
}

#[test]
fn other_failures_are_reported_at_once() {
    let mut run = attempting(2, 2);
    let end = AttemptEnd::Failed(reported(AdapterFailureKind::Corruption));
    assert_eq!(run.attempted(end).unwrap_err().kind(), AdapterFailureKind::Corruption);

    let mut run = attempting(2, 2);
    let end = AttemptEnd::Database { phase: SqlOperationPhase::ExecuteStatement, source: lost() };
    let error = run.attempted(end).unwrap_err();
    assert_eq!(error.operation(), StateStoreOperation::Commit);
    assert_eq!(error.kind(), AdapterFailureKind::Internal);
    assert!(error.source.is_some());
}

#[test]
fn an_open_commit_is_probed_and_never_simply_repeated() {
    let mut run = attempting(2, 2);
    let end = AttemptEnd::Database { phase: SqlOperationPhase::Commit, source: lost() };
    assert_eq!(run.attempted(end).unwrap(), RunStep::Probe);
    assert_eq!(run.phase, RunPhase::Recovering);
    assert_eq!(run.retries.recovery, 1);
    assert_eq!(
        run.recovered(Ok(Some(CommitOutcome::ExpiredLease))).unwrap(),
        RunStep::Answer
    );
    assert_eq!(run.outcome, Some(CommitOutcome::ExpiredLease));
}

#[test]
fn an_unknown_mutation_runs_again_after_its_probe() {
    let mut run = attempting(2, 1);
    let end = AttemptEnd::Database { phase: SqlOperationPhase::Commit, source: lost() };
    assert_eq!(run.attempted(end).unwrap(), RunStep::Probe);
    assert_eq!(run.recovered(Ok(None)).unwrap(), RunStep::Attempt);
    assert_eq!(run.retries.definitive, 0);

    let end = AttemptEnd::Database { phase: SqlOperationPhase::Commit, source: lost() };
    assert_eq!(run.attempted(end).unwrap(), RunStep::Answer);
    assert_eq!(run.outcome, Some(CommitOutcome::Ambiguous(mutation())));
}

#[test]
fn failed_probes_are_repeated_until_the_answer_stays_open() {
    let mut run = attempting(0, 2);
    let end = AttemptEnd::Database { phase: SqlOperationPhase::Commit, source: lost() };
    assert_eq!(run.attempted(end).unwrap(), RunStep::Probe);
    assert_eq!(
        run.recovered(Err(reported(AdapterFailureKind::Unavailable))).unwrap(),
        RunStep::Probe
    );
    assert_eq!(
        run.recovered(Err(reported(AdapterFailureKind::Unavailable))).unwrap(),
        RunStep::Answer
    );
    assert_eq!(run.outcome, Some(CommitOutcome::Ambiguous(mutation())));
}
