//! What the controls of tests do to clocks, commits and logs.
use vstd::prelude::*;

use crate::bytes;
use crate::commit::CommitFailureTiming;
use crate::ids::{FilesystemId, LeaseDeadline};
use crate::log_law;
use crate::numeric;
use crate::statement::{PostgresQuery, StatementView, ValueView};
use crate::testing;
use crate::testing::{DatabaseManualClock, DatabaseManualClockError};

verus! {

/// A clock is captured as the tick that it holds; one that is not there is
/// named.
pub proof fn law_clocks_are_captured_as_they_stand(
    clock: DatabaseManualClock,
    value: Option<&String>,
    tick: u64,
    result: Result<LeaseDeadline, DatabaseManualClockError>,
)
    requires
        value is Some ==> value->0@ == numeric::decimal(tick as nat),
        clock.captures(value, result),
    ensures
        value is Some ==> (result matches Ok(deadline) && deadline.value == tick),
        value is None ==> result == Err::<LeaseDeadline, DatabaseManualClockError>(
            DatabaseManualClockError::MissingClock(clock.id),
        ),
{
    numeric::law_decimal_round_trip(tick);
}

/// A clock moves on by the ticks that are asked for, and what is written is
/// what is answered, under the clock's own identity; a clock that would run over
/// does not move.
pub proof fn law_clocks_move_on_by_their_ticks(
    clock: DatabaseManualClock,
    value: &String,
    tick: u64,
    ticks: u64,
    result: Result<(LeaseDeadline, PostgresQuery), DatabaseManualClockError>,
)
    requires
        value@ == numeric::decimal(tick as nat),
        clock.advances(Some(value), ticks, result),
    ensures
        result is Ok <==> tick + ticks <= u64::MAX,
        result matches Ok(pair) ==> {
            &&& pair.0.value == tick + ticks
            &&& pair.1@.values == seq![
                ValueView::Bytes(Some(bytes::id_bytes(clock.id.number()))),
                log_law::number(tick + ticks),
            ]
        },
        result matches Err(error) ==> error == (DatabaseManualClockError::TickOverflow {
            current: tick,
            increment: ticks,
        }),
{
    numeric::law_decimal_round_trip(tick);
    match result {
        Ok(pair) => {
            assert(pair.1@.values =~= seq![
                ValueView::Bytes(Some(bytes::id_bytes(clock.id.number()))),
                log_law::number(tick + ticks),
            ]);
        },
        Err(_) => {},
    }
}

/// A failure that was injected is taken as the one that it was, and a tag that
/// no failure has is refused.
pub proof fn law_injected_failures_are_taken(
    timing: CommitFailureTiming,
    tag: i16,
    result: Result<Option<CommitFailureTiming>, DatabaseManualClockError>,
)
    requires
        testing::takes(Some(tag), result),
    ensures
        tag == testing::timing_tag(timing) ==> result == Ok::<
            Option<CommitFailureTiming>,
            DatabaseManualClockError,
        >(Some(timing)),
        result is Ok <==> tag == 1 || tag == 2,
        testing::timing_tag(CommitFailureTiming::BeforePublication) == 1,
        testing::timing_tag(CommitFailureTiming::AfterPublication) == 2,
{
}

/// A statement about one authority alone.
pub open spec fn concerns(statement: StatementView, sql: Seq<char>, filesystem: u128) -> bool {
    &&& statement.sql == sql
    &&& statement.values == seq![ValueView::Bytes(Some(bytes::id_bytes(filesystem)))]
}

/// The compaction of an authority locks its head, drops all its logged keys and
/// then all its logged changes, and moves the oldest retained revision up to
/// the current one, all of this authority alone.
pub proof fn law_compactions_leave_only_the_head(filesystem: u128)
    ensures
        testing::compaction(filesystem).len() == 4,
        concerns(
            testing::compaction(filesystem)[0],
            "SELECT 1 FROM \"public\".\"w9pt_fs_state_authority_heads\" WHERE \"filesystem_id\" = $1 FOR UPDATE"@,
            filesystem,
        ),
        concerns(
            testing::compaction(filesystem)[1],
            "DELETE FROM \"public\".\"w9pt_fs_state_change_keys\" WHERE \"filesystem_id\" = $1"@,
            filesystem,
        ),
        concerns(
            testing::compaction(filesystem)[2],
            "DELETE FROM \"public\".\"w9pt_fs_state_change_commits\" WHERE \"filesystem_id\" = $1"@,
            filesystem,
        ),
        concerns(
            testing::compaction(filesystem)[3],
            "UPDATE \"public\".\"w9pt_fs_state_authority_heads\" SET \"oldest_retained_revision\" = \"current_revision\" WHERE \"filesystem_id\" = $1"@,
            filesystem,
        ),
{
    let values = seq![ValueView::Bytes(Some(bytes::id_bytes(filesystem)))];
    assert(testing::compaction(filesystem)[0].values =~= values);
    assert(testing::compaction(filesystem)[1].values =~= values);
    assert(testing::compaction(filesystem)[2].values =~= values);
    assert(testing::compaction(filesystem)[3].values =~= values);
}

proof fn lemma_compactions(numbers: Seq<u128>, count: int, at: int)
    requires
        0 <= at < count <= numbers.len(),
    ensures
        testing::compactions(numbers, count).len() == 4 * count,
        testing::compactions(numbers, count).subrange(4 * at, 4 * at + 4) == testing::compaction(
            numbers[at],
        ),
    decreases count,
{
    lemma_compactions_len(numbers, count - 1);
    let before = testing::compactions(numbers, count - 1);
    let all = testing::compactions(numbers, count);
    assert(all == before + testing::compaction(numbers[count - 1]));
    if at < count - 1 {
        lemma_compactions(numbers, count - 1, at);
        assert(all.subrange(4 * at, 4 * at + 4) =~= before.subrange(4 * at, 4 * at + 4));
    } else {
        assert(all.subrange(4 * at, 4 * at + 4) =~= testing::compaction(numbers[at]));
    }
}

proof fn lemma_compactions_len(numbers: Seq<u128>, count: int)
    requires
        0 <= count <= numbers.len(),
    ensures
        testing::compactions(numbers, count).len() == 4 * count,
    decreases count,
{
    if count > 0 {
        lemma_compactions_len(numbers, count - 1);
    }
}

/// Every authority that is named is compacted, each once and in the order of
/// the numbers, whatever the order in which they are named.
pub proof fn law_named_authorities_are_compacted(
    numbers: Seq<u128>,
    filesystems: Seq<FilesystemId>,
    named: int,
)
    requires
        testing::are_numbers_of(numbers, filesystems),
        0 <= named < filesystems.len(),
    ensures
        testing::compactions(numbers, numbers.len() as int).len() == 4 * numbers.len(),
        exists|at: int|
            0 <= at < numbers.len() && #[trigger] numbers[at] == filesystems[named].value
                && testing::compactions(numbers, numbers.len() as int).subrange(4 * at, 4 * at + 4)
                == testing::compaction(filesystems[named].value),
        forall|i: int, j: int|
            0 <= i < j < numbers.len() ==> #[trigger] numbers[i] < #[trigger] numbers[j],
        forall|i: int|
            0 <= i < numbers.len() ==> exists|k: int|
                0 <= k < filesystems.len() && (#[trigger] filesystems[k]).value
                    == #[trigger] numbers[i],
{
    assert(numbers.contains(filesystems[named].value));
    let at: int = choose|at: int|
        0 <= at < numbers.len() && numbers[at] == filesystems[named].value;
    lemma_compactions(numbers, numbers.len() as int, at);
    assert forall|i: int| 0 <= i < numbers.len() implies exists|k: int|
        0 <= k < filesystems.len() && (#[trigger] filesystems[k]).value
            == #[trigger] numbers[i] by {
        assert(numbers.contains(numbers[i]));
    }
}

} // verus!
