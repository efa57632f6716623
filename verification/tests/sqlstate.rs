use std::collections::BTreeSet;

use w9pt_fs_state_postgres::schema::CONSTRAINT_NAMES;
use w9pt_fs_state_postgres::sqlstate::{
    classify_constraint, classify_sqlstate, is_availability_code, ConstraintAction, ConstraintKind,
    DefinitiveAbort, SqlFailureClass, SqlOperationPhase, CHECK_CONSTRAINTS,
    FOREIGN_KEY_CONSTRAINTS, UNIQUE_INVARIANT, UNIQUE_LEDGER, UNIQUE_SEMANTIC,
};

const NON_COMMIT_PHASES: &[SqlOperationPhase] = &[
    SqlOperationPhase::AcquireConnection,
    SqlOperationPhase::BeginTransaction,
    SqlOperationPhase::ExecuteStatement,
    SqlOperationPhase::DecodeRow,
    SqlOperationPhase::Rollback,
];

#[test]
fn definitive_transaction_aborts_always_retry_identically() {
    for phase in NON_COMMIT_PHASES.iter().copied().chain([SqlOperationPhase::Commit]) {
        assert_eq!(
            classify_sqlstate(phase, "40001", None),
            SqlFailureClass::RetryIdentical(DefinitiveAbort::SerializationFailure)
        );
        assert_eq!(
            classify_sqlstate(phase, "40P01", None),
            SqlFailureClass::RetryIdentical(DefinitiveAbort::DeadlockDetected)
        );
    }
}

#[test]
fn timeouts_become_ambiguous_only_while_commit_is_in_flight() {
    for code in ["57014", "55P03"] {
        for phase in NON_COMMIT_PHASES {
            assert_eq!(classify_sqlstate(*phase, code, None), SqlFailureClass::Timeout);
        }
        assert_eq!(
            classify_sqlstate(SqlOperationPhase::Commit, code, None),
            SqlFailureClass::AmbiguousCommit
        );
    }
}

#[test]
fn read_only_is_explicit_in_every_phase() {
    for phase in NON_COMMIT_PHASES.iter().copied().chain([SqlOperationPhase::Commit]) {
        assert_eq!(classify_sqlstate(phase, "25006", None), SqlFailureClass::ReadOnly);
    }
}

#[test]
fn connection_and_shutdown_failures_respect_commit_ambiguity() {
    for code in ["08000", "08003", "08006", "08P01", "57P01", "57P05"] {
        for phase in NON_COMMIT_PHASES {
            assert_eq!(classify_sqlstate(*phase, code, None), SqlFailureClass::Unavailable);
        }
        assert_eq!(
            classify_sqlstate(SqlOperationPhase::Commit, code, None),
            SqlFailureClass::AmbiguousCommit
        );
    }
}

#[test]
fn malformed_connection_class_codes_are_not_availability() {
    for code in ["08", "080000", "08-message"] {
        assert_eq!(
            classify_sqlstate(SqlOperationPhase::ExecuteStatement, code, None),
            SqlFailureClass::Internal
        );
    }
}

#[test]
fn availability_codes_are_whole_codes() {
    assert!(is_availability_code("08001"));
    assert!(!is_availability_code("09001"));
}

#[test]
fn unknown_commit_errors_are_conservatively_ambiguous() {
    assert_eq!(
        classify_sqlstate(SqlOperationPhase::Commit, "99999", None),
        SqlFailureClass::AmbiguousCommit
    );
    assert_eq!(
        classify_sqlstate(SqlOperationPhase::ExecuteStatement, "99999", None),
        SqlFailureClass::Internal
    );
}

#[test]
fn ledger_constraints_request_fresh_replay_resolution() {
    for name in ["mutation_results_pkey", "writer_lease_operations_pkey"] {
        let database_name = format!("w9pt_fs_state_{name}");
        let SqlFailureClass::KnownConstraint(violation) =
            classify_sqlstate(SqlOperationPhase::ExecuteStatement, "23505", Some(&database_name))
        else {
            panic!("expected known ledger constraint for {name}");
        };
        assert_eq!(violation.name(), name);
        assert_eq!(violation.action(), ConstraintAction::ResolveLedger);
    }
}

#[test]
fn semantic_uniqueness_requests_authoritative_recheck() {
    for name in [
        "inodes_pkey",
        "directory_entries_pkey",
        "directory_entries_cookie_unique",
        "opens_inode_identity_unique",
    ] {
        let database_name = format!("w9pt_fs_state_{name}");
        let SqlFailureClass::KnownConstraint(violation) =
            classify_sqlstate(SqlOperationPhase::ExecuteStatement, "23505", Some(&database_name))
        else {
            panic!("expected known semantic constraint for {name}");
        };
        assert_eq!(violation.name(), name);
        assert_eq!(violation.action(), ConstraintAction::RecheckSemanticState);
    }
}

#[test]
fn foreign_keys_and_checks_are_known_invariant_failures() {
    for (code, name) in [
        ("23503", "directory_entries_parent_fk"),
        ("23503", "change_keys_commit_fk"),
        ("23514", "inodes_kind_specific_shape"),
        ("23514", "writer_fences_active_fields_all_or_none"),
    ] {
        let database_name = format!("w9pt_fs_state_{name}");
        let SqlFailureClass::KnownConstraint(violation) =
            classify_sqlstate(SqlOperationPhase::ExecuteStatement, code, Some(&database_name))
        else {
            panic!("expected known invariant constraint for {name}");
        };
        assert_eq!(violation.name(), name);
        assert_eq!(violation.action(), ConstraintAction::InvariantFailure);
    }
}

#[test]
fn missing_unknown_or_wrong_kind_constraints_are_internal() {
    for (code, constraint) in [
        ("23505", None),
        ("23505", Some("unrecognized_unique")),
        ("23503", Some("w9pt_fs_state_inodes_pkey")),
        ("23514", Some("w9pt_fs_state_directory_entries_parent_fk")),
        ("23502", Some("w9pt_fs_state_inodes_owner_bounds")),
    ] {
        assert_eq!(
            classify_sqlstate(SqlOperationPhase::Commit, code, constraint),
            SqlFailureClass::Internal
        );
    }
    assert_eq!(classify_constraint(None, ConstraintKind::Unique), SqlFailureClass::Internal);
}

#[test]
fn numeric_conversion_errors_distinguish_persisted_corruption() {
    for code in ["22003", "22P02"] {
        assert_eq!(
            classify_sqlstate(SqlOperationPhase::DecodeRow, code, None),
            SqlFailureClass::Corruption
        );
        assert_eq!(
            classify_sqlstate(SqlOperationPhase::ExecuteStatement, code, None),
            SqlFailureClass::Internal
        );
    }
    assert_eq!(
        classify_sqlstate(SqlOperationPhase::ExecuteStatement, "XX001", None),
        SqlFailureClass::Corruption
    );
    assert_eq!(
        classify_sqlstate(SqlOperationPhase::ExecuteStatement, "XX002", None),
        SqlFailureClass::Corruption
    );
    assert_eq!(
        classify_sqlstate(SqlOperationPhase::ExecuteStatement, "XX000", None),
        SqlFailureClass::Internal
    );
}

#[test]
fn every_explicit_migration_constraint_is_allowlisted_by_kind() {
    let mut unique: Vec<&str> = Vec::new();
    unique.extend(UNIQUE_LEDGER);
    unique.extend(UNIQUE_SEMANTIC);
    unique.extend(UNIQUE_INVARIANT);
    let mut classified = BTreeSet::new();
    for (sqlstate, known) in [
        ("23505", unique),
        ("23503", FOREIGN_KEY_CONSTRAINTS.to_vec()),
        ("23514", CHECK_CONSTRAINTS.to_vec()),
    ] {
        for name in known {
            let database_name = format!("w9pt_fs_state_{name}");
            assert!(matches!(
                classify_sqlstate(
                    SqlOperationPhase::ExecuteStatement,
                    sqlstate,
                    Some(&database_name),
                ),
                SqlFailureClass::KnownConstraint(_)
            ));
            assert!(classified.insert(database_name));
        }
    }
    assert_eq!(
        classified,
        CONSTRAINT_NAMES.iter().map(|name| (*name).to_owned()).collect()
    );
}

#[test]
fn classifier_has_no_message_input_or_message_fallback() {
    assert_eq!(
        classify_sqlstate(
            SqlOperationPhase::ExecuteStatement,
            "23505",
            Some("unknown_constraint")
        ),
        SqlFailureClass::Internal
    );
    assert_eq!(
        classify_sqlstate(
            SqlOperationPhase::ExecuteStatement,
            "99999",
            Some("w9pt_fs_state_mutation_results_pkey")
        ),
        SqlFailureClass::Internal
    );
}
