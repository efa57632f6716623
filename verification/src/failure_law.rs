//! Which failures leave an outcome open, and what each of them permits.
use vstd::prelude::*;

use crate::config;
use crate::config::ConfigView;
use crate::database;
use crate::database::{DriverFailure, FailureView, LayerFailure, TransactionAccess};
use crate::failure;
use crate::failure::AdapterFailureKind;
use crate::lease_attempt;
use crate::lease_attempt::RetryReason;
use crate::numeric;
use crate::retry;
use crate::retry::RetryAction;
use crate::sqlstate;
use crate::sqlstate::{ConstraintAction, DefinitiveAbort, SqlFailureClass, SqlOperationPhase};
use crate::statement::ValueView;
use crate::transaction;
use crate::transaction::TransactionSettings;

verus! {

/// A code of five characters.
pub open spec fn is_code(code: Seq<char>, a: char, b: char, c: char, d: char, e: char) -> bool {
    code == seq![a, b, c, d, e]
}

/// The codes after which the whole transaction is gone and nothing was decided:
/// a serialization failure and a deadlock.
pub open spec fn is_abort(code: Seq<char>) -> bool {
    is_code(code, '4', '0', '0', '0', '1') || is_code(code, '4', '0', 'P', '0', '1')
}

/// The codes of damaged data.
pub open spec fn is_damage(code: Seq<char>) -> bool {
    is_code(code, 'X', 'X', '0', '0', '1') || is_code(code, 'X', 'X', '0', '0', '2')
}

/// The codes of a value out of range or out of form.
pub open spec fn is_misfit(code: Seq<char>) -> bool {
    is_code(code, '2', '2', '0', '0', '3') || is_code(code, '2', '2', 'P', '0', '2')
}

/// The codes of a wait that was given up: for a lock, or by cancellation.
pub open spec fn is_wait(code: Seq<char>) -> bool {
    is_code(code, '5', '5', 'P', '0', '3') || is_code(code, '5', '7', '0', '1', '4')
}

/// Every code of the class of integrity violations.
pub open spec fn is_integrity(code: Seq<char>) -> bool {
    code.len() >= 2 && code[0] == '2' && code[1] == '3'
}

proof fn lemma_codes()
    ensures
        "40001"@ == seq!['4', '0', '0', '0', '1'],
        "40P01"@ == seq!['4', '0', 'P', '0', '1'],
        "23505"@ == seq!['2', '3', '5', '0', '5'],
        "23503"@ == seq!['2', '3', '5', '0', '3'],
        "23514"@ == seq!['2', '3', '5', '1', '4'],
        "22003"@ == seq!['2', '2', '0', '0', '3'],
        "22P02"@ == seq!['2', '2', 'P', '0', '2'],
        "25006"@ == seq!['2', '5', '0', '0', '6'],
        "55P03"@ == seq!['5', '5', 'P', '0', '3'],
        "57014"@ == seq!['5', '7', '0', '1', '4'],
        "XX001"@ == seq!['X', 'X', '0', '0', '1'],
        "XX002"@ == seq!['X', 'X', '0', '0', '2'],
        "57P01"@ == seq!['5', '7', 'P', '0', '1'],
        "57P02"@ == seq!['5', '7', 'P', '0', '2'],
        "57P03"@ == seq!['5', '7', 'P', '0', '3'],
        "57P04"@ == seq!['5', '7', 'P', '0', '4'],
        "57P05"@ == seq!['5', '7', 'P', '0', '5'],
        "23"@ == seq!['2', '3'],
        "08"@ == seq!['0', '8'],
{
    reveal_strlit("40001");
    reveal_strlit("40P01");
    reveal_strlit("23505");
    reveal_strlit("23503");
    reveal_strlit("23514");
    reveal_strlit("22003");
    reveal_strlit("22P02");
    reveal_strlit("25006");
    reveal_strlit("55P03");
    reveal_strlit("57014");
    reveal_strlit("XX001");
    reveal_strlit("XX002");
    reveal_strlit("57P01");
    reveal_strlit("57P02");
    reveal_strlit("57P03");
    reveal_strlit("57P04");
    reveal_strlit("57P05");
    reveal_strlit("23");
    reveal_strlit("08");
    assert("40001"@ =~= seq!['4', '0', '0', '0', '1']);
    assert("40P01"@ =~= seq!['4', '0', 'P', '0', '1']);
    assert("23505"@ =~= seq!['2', '3', '5', '0', '5']);
    assert("23503"@ =~= seq!['2', '3', '5', '0', '3']);
    assert("23514"@ =~= seq!['2', '3', '5', '1', '4']);
    assert("22003"@ =~= seq!['2', '2', '0', '0', '3']);
    assert("22P02"@ =~= seq!['2', '2', 'P', '0', '2']);
    assert("25006"@ =~= seq!['2', '5', '0', '0', '6']);
    assert("55P03"@ =~= seq!['5', '5', 'P', '0', '3']);
    assert("57014"@ =~= seq!['5', '7', '0', '1', '4']);
    assert("XX001"@ =~= seq!['X', 'X', '0', '0', '1']);
    assert("XX002"@ =~= seq!['X', 'X', '0', '0', '2']);
    assert("57P01"@ =~= seq!['5', '7', 'P', '0', '1']);
    assert("57P02"@ =~= seq!['5', '7', 'P', '0', '2']);
    assert("57P03"@ =~= seq!['5', '7', 'P', '0', '3']);
    assert("57P04"@ =~= seq!['5', '7', 'P', '0', '4']);
    assert("57P05"@ =~= seq!['5', '7', 'P', '0', '5']);
    assert("23"@ =~= seq!['2', '3']);
    assert("08"@ =~= seq!['0', '8']);
}

/// What a code says depends on the phase only where a commit is in flight or a
/// row is decoded. An abort is retried; damaged data is corruption, and so is a
/// misfit value in a row; a server that only reads is that; a wait that was
/// given up and a server that is not there are that outside of a commit. Within
/// a commit every code that does not tell that nothing was decided leaves the
/// outcome open.
pub proof fn law_codes_tell_what_was_decided(
    phase: SqlOperationPhase,
    code: Seq<char>,
    constraint: Option<Seq<char>>,
)
    ensures
        ({
            let class = sqlstate::sqlstate_class(phase, code, constraint);
            let committing = phase == SqlOperationPhase::Commit;
            let read_only = is_code(code, '2', '5', '0', '0', '6');
            let gone = sqlstate::availability_code(code);
            let decided = is_abort(code) || is_integrity(code) || is_misfit(code) || is_damage(code)
                || read_only;
            &&& class == SqlFailureClass::<Seq<char>>::RetryIdentical(
                DefinitiveAbort::SerializationFailure,
            ) <==> is_code(code, '4', '0', '0', '0', '1')
            &&& class == SqlFailureClass::<Seq<char>>::RetryIdentical(
                DefinitiveAbort::DeadlockDetected,
            ) <==> is_code(code, '4', '0', 'P', '0', '1')
            &&& class is RetryIdentical ==> is_abort(code)
            &&& class is Corruption <==> is_damage(code) || (is_misfit(code) && phase
                == SqlOperationPhase::DecodeRow)
            &&& class is ReadOnly <==> read_only
            &&& class is Timeout <==> is_wait(code) && !committing
            &&& class is Unavailable <==> gone && !committing && !decided && !is_wait(code)
            &&& class is AmbiguousCommit <==> committing && !decided
            &&& class is KnownConstraint ==> is_integrity(code) && constraint is Some
        }),
{
    lemma_codes();
    if code.len() >= 2 {
        assert(code.subrange(0, 2) =~= seq![code[0], code[1]]);
    }
}

/// A failure of the driver or the database layer leaves the outcome of a commit
/// open unless it is one of decoding, which is corruption in every phase. Outside
/// of a commit a wait for a connection that was given up is a timeout, a
/// connection that is gone is unavailability, and a failure that no rule names is
/// corruption where a row is decoded and internal elsewhere.
pub proof fn law_lost_connections_leave_commits_open(
    phase: SqlOperationPhase,
    driver: DriverFailure,
    layer: LayerFailure,
)
    ensures
        ({
            let class = database::failure_class(phase, FailureView::Driver(driver));
            let decoding = driver == DriverFailure::ColumnDecode || driver == DriverFailure::Decode;
            let committing = phase == SqlOperationPhase::Commit;
            let row = phase == SqlOperationPhase::DecodeRow;
            &&& class is AmbiguousCommit <==> committing && !decoding
            &&& class is Corruption <==> decoding || (row && driver == DriverFailure::Other)
            &&& class is Timeout <==> driver == DriverFailure::PoolTimedOut && !committing
            &&& class is Unavailable <==> !committing && (driver == DriverFailure::Io || driver
                == DriverFailure::Tls || driver == DriverFailure::PoolClosed || driver
                == DriverFailure::WorkerCrashed)
            &&& class is Internal <==> !committing && !row && driver == DriverFailure::Other
        }),
        ({
            let class = database::failure_class(phase, FailureView::Layer(layer));
            let committing = phase == SqlOperationPhase::Commit;
            let row = phase == SqlOperationPhase::DecodeRow;
            &&& class is AmbiguousCommit <==> committing
            &&& class is Timeout <==> layer == LayerFailure::AcquireTimeout && !committing
            &&& class is Unavailable <==> !committing && (layer == LayerFailure::AcquireClosed
                || layer == LayerFailure::Connection)
            &&& class is Corruption <==> row && layer == LayerFailure::Other
            &&& class is Internal <==> !committing && !row && layer == LayerFailure::Other
        }),
        forall|code: Seq<char>, constraint: Option<Seq<char>>| #[trigger]
            database::failure_class(phase, FailureView::Native(code, constraint))
                == sqlstate::sqlstate_class(phase, code, constraint),
{
}

/// Every class of failure is reported as the one kind that names it; an open
/// outcome is reported as unavailability, and a violated constraint as a failure
/// inside the adapter.
pub proof fn law_classes_are_reported_as_their_kind(class: SqlFailureClass<Seq<char>>)
    ensures
        ({
            let kind = failure::adapter_kind(class);
            &&& kind == AdapterFailureKind::Serialization <==> class is RetryIdentical
            &&& kind == AdapterFailureKind::Timeout <==> class is Timeout
            &&& kind == AdapterFailureKind::Unsupported <==> class is ReadOnly
            &&& kind == AdapterFailureKind::Corruption <==> class is Corruption
            &&& kind == AdapterFailureKind::Unavailable <==> class is Unavailable
                || class is AmbiguousCommit
            &&& kind == AdapterFailureKind::Internal <==> class is Internal
                || class is KnownConstraint
        }),
{
}

/// A commit runs again as it is after an abort, and is resolved through the
/// ledger after a violated constraint that does not mean a broken invariant. An
/// open outcome asks for recovery and nothing else does. Nothing else permits
/// another attempt. A lease operation runs again on the same grounds, except
/// that a constraint counts only where it points to the ledger.
pub proof fn law_only_harmless_failures_are_retried(class: SqlFailureClass<Seq<char>>)
    ensures
        ({
            let action = retry::class_retry(class);
            &&& action == Some(RetryAction::RetryIdentical) <==> class is RetryIdentical
            &&& action == Some(RetryAction::AmbiguousCommit) <==> class is AmbiguousCommit
            &&& action == Some(RetryAction::ResolveLedger) <==> (class matches
                SqlFailureClass::KnownConstraint(violation) && (violation.action
                == ConstraintAction::ResolveLedger || violation.action
                == ConstraintAction::RecheckSemanticState))
        }),
        ({
            let reason = lease_attempt::retry_reason(class);
            &&& reason == Some(RetryReason::DefinitiveAbort) <==> class is RetryIdentical
            &&& reason == Some(RetryReason::AmbiguousCommit) <==> class is AmbiguousCommit
            &&& reason == Some(RetryReason::ResolveLedger) <==> (class matches
                SqlFailureClass::KnownConstraint(violation) && violation.action
                == ConstraintAction::ResolveLedger)
        }),
{
}

/// A reported failure permits another attempt only where its class does without
/// an open outcome, or where it is one of serialization.
pub proof fn law_reported_failures_are_retried_by_class(
    class: Option<SqlFailureClass>,
    kind: AdapterFailureKind,
)
    ensures
        ({
            let action = retry::state_retry(class, kind);
            let resolved = class matches Some(class) && (class matches
                SqlFailureClass::KnownConstraint(violation) && violation.action
                != ConstraintAction::InvariantFailure);
            let aborted = class matches Some(class) && class is RetryIdentical;
            &&& action != Some(RetryAction::AmbiguousCommit)
            &&& action == Some(RetryAction::ResolveLedger) <==> resolved
            &&& action == Some(RetryAction::RetryIdentical) <==> aborted || (!resolved && kind
                == AdapterFailureKind::Serialization)
        }),
{
}

/// A transaction runs on its route exactly where the server is no standby and
/// writes by default, the transaction is serializable and reads or writes as
/// asked, and one that writes waits for its log. No transaction is on the route
/// of both accesses.
pub proof fn law_routes_are_serializable_and_primary(settings: TransactionSettings)
    ensures
        transaction::is_primary_route(settings, TransactionAccess::ReadWrite) <==> {
            &&& !settings.in_recovery && !settings.default_read_only
                && !settings.transaction_read_only
            &&& settings.isolation@ == "serializable"@
            &&& settings.synchronous_commit@ == "on"@
        },
        transaction::is_primary_route(settings, TransactionAccess::ReadOnly) <==> {
            &&& !settings.in_recovery && !settings.default_read_only
                && settings.transaction_read_only
            &&& settings.isolation@ == "serializable"@
        },
{
}

/// A timeout is set in whole milliseconds, rounded down.
pub proof fn law_timeouts_are_set_in_milliseconds(
    sql: &'static str,
    value: std::time::Duration,
    milliseconds: int,
)
    requires
        milliseconds >= 0,
        milliseconds * 1_000_000 <= config::duration_nanos(value),
        config::duration_nanos(value) < (milliseconds + 1) * 1_000_000,
    ensures
        transaction::timeout_query(sql, value).sql == sql@,
        transaction::timeout_query(sql, value).values == seq![
            ValueView::Text(Some(numeric::decimal(milliseconds as nat) + "ms"@)),
        ],
{
}

/// A configuration is accepted exactly where both timeouts are at least a
/// millisecond and at most what the database takes, the one for locks is not the
/// longer one, at most sixty-four retries and at least one and at most sixty-four
/// recoveries are asked for, and every limit is within the schema's.
pub proof fn law_configurations_are_bounded(settings: ConfigView)
    ensures
        config::config_failure(settings) is None <==> {
            &&& 1_000_000 <= config::duration_nanos(settings.lock_timeout)
            &&& config::duration_nanos(settings.lock_timeout) <= config::duration_nanos(
                settings.statement_timeout,
            )
            &&& config::duration_nanos(settings.statement_timeout) < 2_147_483_648 * 1_000_000
            &&& settings.definitive_abort_retries <= 64
            &&& 1 <= settings.ambiguous_commit_recovery_attempts <= 64
            &&& config::schema_failure(settings.limits) is None
        },
{
}

/// The codes of a server that is not there are those of the class of connection
/// exceptions, and those of a shutdown by the administrator, of a crash, of a
/// server that cannot take connections yet, of a database that was dropped and
/// of a session that was idle for too long.
pub proof fn law_codes_of_a_server_that_is_gone(code: Seq<char>)
    ensures
        sqlstate::availability_code(code) <==> {
            ||| vstd::utf8::encode_utf8(code).len() == 5 && code.len() >= 2 && code[0] == '0'
                && code[1] == '8'
            ||| is_code(code, '5', '7', 'P', '0', '1')
            ||| is_code(code, '5', '7', 'P', '0', '2')
            ||| is_code(code, '5', '7', 'P', '0', '3')
            ||| is_code(code, '5', '7', 'P', '0', '4')
            ||| is_code(code, '5', '7', 'P', '0', '5')
        },
{
    lemma_codes();
    if code.len() >= 2 {
        let start = code.subrange(0, 2);
        assert(start[0] == code[0] && start[1] == code[1]);
        if code[0] == '0' && code[1] == '8' {
            assert(start =~= seq!['0', '8']);
        }
    }
}

} // verus!
