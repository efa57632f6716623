//! Deterministic controls for conformance: manual clocks, injected failures
//! and compaction, kept in a schema of their own.
use vstd::prelude::*;

use sea_orm::DbErr;

use crate::bytes;
use crate::bytes::{id_array, id_from_array, id_vec};
use crate::commit::CommitFailureTiming;
use crate::failure::failure_text;
use crate::ids::{FilesystemId, LeaseDeadline};
use crate::message;
use crate::message::{quoted_text, signed_text};
use crate::numeric;
use crate::numeric::{decode_u64, encode_u64};
use crate::publish;
use crate::statement;
use crate::statement::{query, PostgresQuery, SqlValue, StatementView};
use crate::targets;
use crate::targets::insert_number;
use crate::text;
use crate::text::{copy_text, hexadecimal_text};

verus! {

/// Schema of the controls.
pub const TEST_SCHEMA: &'static str = "w9pt_fs_state_test_v1";

/// Text that installs the controls.
pub const INSTALL_SQL: &'static str =
    "CREATE SCHEMA IF NOT EXISTS \"w9pt_fs_state_test_v1\"; CREATE TABLE IF NOT EXISTS \"w9pt_fs_state_test_v1\".\"lease_clocks\" (\"clock_id\" bytea PRIMARY KEY, \"now_tick\" numeric(20, 0) NOT NULL, CONSTRAINT \"lease_clocks_clock_id_width\" CHECK (octet_length(\"clock_id\") = 16), CONSTRAINT \"lease_clocks_now_tick_range\" CHECK (\"now_tick\" BETWEEN 0 AND 18446744073709551615)); CREATE TABLE IF NOT EXISTS \"w9pt_fs_state_test_v1\".\"commit_failures\" (\"control_id\" bytea PRIMARY KEY, \"timing\" smallint NOT NULL, CONSTRAINT \"commit_failures_control_id_width\" CHECK (octet_length(\"control_id\") = 16), CONSTRAINT \"commit_failures_timing_tag\" CHECK (\"timing\" IN (1, 2)));";

/// Text that creates a clock.
pub const INITIALIZE_SQL: &'static str =
    "INSERT INTO \"w9pt_fs_state_test_v1\".\"lease_clocks\" (\"clock_id\", \"now_tick\") VALUES ($1, $2::numeric)";

/// Text that reads a clock.
pub const CAPTURE_SQL: &'static str =
    "SELECT \"now_tick\"::text FROM \"w9pt_fs_state_test_v1\".\"lease_clocks\" WHERE \"clock_id\" = $1";

/// Text that locks and reads a clock.
pub const LOCK_CLOCK_SQL: &'static str =
    "SELECT \"now_tick\"::text FROM \"w9pt_fs_state_test_v1\".\"lease_clocks\" WHERE \"clock_id\" = $1 FOR UPDATE";

/// Text that sets a clock.
pub const UPDATE_CLOCK_SQL: &'static str =
    "UPDATE \"w9pt_fs_state_test_v1\".\"lease_clocks\" SET \"now_tick\" = $2::numeric WHERE \"clock_id\" = $1";

/// Text that injects a failure.
pub const INJECT_COMMIT_FAILURE_SQL: &'static str =
    "INSERT INTO \"w9pt_fs_state_test_v1\".\"commit_failures\" (\"control_id\", \"timing\") VALUES ($1, $2)";

/// Text that takes an injected failure.
pub const TAKE_COMMIT_FAILURE_SQL: &'static str =
    "DELETE FROM \"w9pt_fs_state_test_v1\".\"commit_failures\" WHERE \"control_id\" = $1 RETURNING \"timing\"";

/// Text that locks an authority head.
pub const LOCK_AUTHORITY_SQL: &'static str =
    "SELECT 1 FROM \"public\".\"w9pt_fs_state_authority_heads\" WHERE \"filesystem_id\" = $1 FOR UPDATE";

/// Text that drops every logged key of an authority.
pub const COMPACT_KEYS_SQL: &'static str =
    "DELETE FROM \"public\".\"w9pt_fs_state_change_keys\" WHERE \"filesystem_id\" = $1";

/// Text that drops every logged change of an authority.
pub const COMPACT_COMMITS_SQL: &'static str =
    "DELETE FROM \"public\".\"w9pt_fs_state_change_commits\" WHERE \"filesystem_id\" = $1";

/// Text that moves the retained cursor of an authority to its head.
pub const COMPACT_HEAD_SQL: &'static str =
    "UPDATE \"public\".\"w9pt_fs_state_authority_heads\" SET \"oldest_retained_revision\" = \"current_revision\" WHERE \"filesystem_id\" = $1";

/// Identity of one manual clock.
#[derive(Clone, Copy, Debug, PartialEq, Eq, PartialOrd, Ord, Hash)]
pub struct DatabaseManualClockId {
    bytes: [u8; 16],
}

impl DatabaseManualClockId {
    /// The identity as a big-endian number.
    pub closed spec fn number(self) -> u128 {
        bytes::id_value(self.bytes@)
    }

    /// The identity with these bytes.
    pub fn new(bytes: [u8; 16]) -> (result: Self)
        ensures
            bytes::id_bytes(result.number()) == bytes@,
    {
        proof {
            bytes::lemma_id_value_round_trip(bytes@);
        }
        DatabaseManualClockId { bytes }
    }

    /// The identity with this big-endian number.
    pub fn from_u128(value: u128) -> (result: Self)
        ensures
            result.number() == value,
    {
        proof {
            bytes::lemma_id_round_trip(value);
        }
        DatabaseManualClockId { bytes: id_array(value) }
    }

    /// The persisted bytes.
    pub fn as_bytes(&self) -> (result: &[u8; 16])
        ensures
            result@ == bytes::id_bytes(self.number()),
    {
        proof {
            bytes::lemma_id_value_round_trip(self.bytes@);
        }
        &self.bytes
    }

    /// The number behind the bytes.
    pub fn value(&self) -> (result: u128)
        ensures
            result == self.number(),
    {
        id_from_array(self.bytes)
    }

    /// The identity as text: its bytes in hexadecimal.
    pub fn text(&self) -> (result: String)
        ensures
            result@ == identity_text(*self),
    {
        copy_text("DatabaseManualClockId(").concat(
            hexadecimal_text(&id_vec(self.value())).as_str(),
        ).concat(")")
    }
}

/// Two identities with the same number, and so with the same bytes, are the same
/// identity.
pub proof fn law_identity_is_its_number(left: DatabaseManualClockId, right: DatabaseManualClockId)
    ensures
        left.number() == right.number() <==> left == right,
        bytes::id_bytes(left.number()) == bytes::id_bytes(right.number()) <==> left == right,
{
    bytes::lemma_id_round_trip(left.number());
    bytes::lemma_id_round_trip(right.number());
    if left.number() == right.number() {
        bytes::lemma_id_value_round_trip(left.bytes@);
        bytes::lemma_id_value_round_trip(right.bytes@);
        assert(left.bytes@ == right.bytes@);
        assert(left.bytes =~= right.bytes);
    }
}

/// Handle of one manual clock. It holds no state: handles of one identity
/// observe the same row.
#[derive(Clone, Copy, Debug, PartialEq, Eq)]
pub struct DatabaseManualClock {
    /// Identity.
    pub id: DatabaseManualClockId,
}

/// Why a control failed.
#[derive(Debug)]
pub enum DatabaseManualClockError {
    /// The database failed.
    Database(DbErr),
    /// There is no such clock.
    MissingClock(DatabaseManualClockId),
    /// The tick is no canonical number.
    InvalidTick {
        /// What was found.
        value: String,
    },
    /// The clock cannot be advanced that far.
    TickOverflow {
        /// Current tick.
        current: u64,
        /// Requested increment.
        increment: u64,
    },
    /// A statement affected an impossible number of rows.
    UnexpectedAffectedRows {
        /// What was being done.
        operation: &'static str,
        /// Affected rows.
        rows: u64,
    },
    /// The database clock failed.
    ProductionClock(String),
    /// An injected failure has an unknown tag.
    InvalidFailureTiming(i16),
}

/// Text of an identity: its bytes in hexadecimal.
pub open spec fn identity_text(id: DatabaseManualClockId) -> Seq<char> {
    "DatabaseManualClockId("@ + text::hexadecimal(bytes::id_bytes(id.number())) + ")"@
}

/// Text of a failed control, given that of the database failure in it.
pub open spec fn control_text(error: DatabaseManualClockError, source: Seq<char>) -> Seq<char> {
    match error {
        DatabaseManualClockError::Database(_) => "test clock database error: "@ + source,
        DatabaseManualClockError::MissingClock(id) => {
            "manual database clock "@ + identity_text(id) + " is absent"@
        },
        DatabaseManualClockError::InvalidTick { value } => {
            "invalid manual database clock tick "@ + message::quoted(value@)
        },
        DatabaseManualClockError::TickOverflow { current, increment } => {
            "manual database clock overflow: "@ + numeric::decimal(current as nat) + " + "@
                + numeric::decimal(increment as nat)
        },
        DatabaseManualClockError::UnexpectedAffectedRows { operation, rows } => {
            operation@ + " affected "@ + numeric::decimal(rows as nat) + " rows, expected one"@
        },
        DatabaseManualClockError::ProductionClock(detail) => {
            "production database clock failed: "@ + detail@
        },
        DatabaseManualClockError::InvalidFailureTiming(tag) => {
            "invalid test commit-failure timing tag "@ + message::signed_decimal(tag as int)
        },
    }
}

impl DatabaseManualClockError {
    /// The text of the failure.
    pub fn text(&self) -> (result: String)
        ensures
            exists|source: Seq<char>| result@ == #[trigger] control_text(*self, source),
    {
        match self {
            DatabaseManualClockError::Database(error) => self.text_with(
                failure_text(error).as_str(),
            ),
            _ => self.text_with(""),
        }
    }

    /// The text of the failure, given that of the database failure in it.
    pub fn text_with(&self, source: &str) -> (result: String)
        ensures
            result@ == control_text(*self, source@),
    {
        match self {
            DatabaseManualClockError::Database(_) => copy_text(
                "test clock database error: ",
            ).concat(source),
            DatabaseManualClockError::MissingClock(id) => copy_text(
                "manual database clock ",
            ).concat(id.text().as_str()).concat(" is absent"),
            DatabaseManualClockError::InvalidTick { value } => copy_text(
                "invalid manual database clock tick ",
            ).concat(quoted_text(value.as_str()).as_str()),
            DatabaseManualClockError::TickOverflow { current, increment } => copy_text(
                "manual database clock overflow: ",
            ).concat(encode_u64(*current).as_str()).concat(" + ").concat(
                encode_u64(*increment).as_str(),
            ),
            DatabaseManualClockError::UnexpectedAffectedRows { operation, rows } => copy_text(
                operation,
            ).concat(" affected ").concat(encode_u64(*rows).as_str()).concat(
                " rows, expected one",
            ),
            DatabaseManualClockError::ProductionClock(detail) => copy_text(
                "production database clock failed: ",
            ).concat(detail.as_str()),
            DatabaseManualClockError::InvalidFailureTiming(tag) => copy_text(
                "invalid test commit-failure timing tag ",
            ).concat(signed_text(*tag as i64).as_str()),
        }
    }
}

/// Lease clock that a store for conformance uses.
#[derive(Clone, Copy, Debug, PartialEq, Eq)]
pub enum TestLeaseClockSource {
    /// The clock of the database.
    Database,
    /// A manual clock.
    Manual(DatabaseManualClock),
}

/// Reads a tick.
pub fn decode_tick(value: &str) -> (result: Result<LeaseDeadline, DatabaseManualClockError>)
    ensures
        match result {
            Ok(deadline) => numeric::parses(value@) && deadline.value == numeric::parsed(value@),
            Err(error) => {
                &&& !numeric::parses(value@)
                &&& error matches DatabaseManualClockError::InvalidTick { value: found } && found@
                    == value@
            },
        },
{
    match decode_u64("test_database_lease_tick", value) {
        Ok(value) => Ok(LeaseDeadline { value }),
        Err(_) => Err(DatabaseManualClockError::InvalidTick { value: copy_text(value) }),
    }
}

/// Advances a tick; the clock never wraps.
pub fn checked_advance(current: LeaseDeadline, increment: u64) -> (result: Result<
    LeaseDeadline,
    DatabaseManualClockError,
>)
    ensures
        match result {
            Ok(next) => next.value == current.value + increment,
            Err(error) => current.value + increment > u64::MAX && error
                == (DatabaseManualClockError::TickOverflow { current: current.value, increment }),
        },
{
    match current.value.checked_add(increment) {
        Some(value) => Ok(LeaseDeadline { value }),
        None => Err(
            DatabaseManualClockError::TickOverflow { current: current.value, increment },
        ),
    }
}

/// Checks that a control affected exactly one row.
pub fn require_one_row(operation: &'static str, rows: u64) -> (result: Result<
    (),
    DatabaseManualClockError,
>)
    ensures
        match result {
            Ok(()) => rows == 1,
            Err(error) => rows != 1 && error
                == (DatabaseManualClockError::UnexpectedAffectedRows { operation, rows }),
        },
{
    if rows == 1 {
        Ok(())
    } else {
        Err(DatabaseManualClockError::UnexpectedAffectedRows { operation, rows })
    }
}

impl DatabaseManualClock {
    /// The handle of a clock.
    pub fn from_id(id: DatabaseManualClockId) -> (result: Self)
        ensures
            result.id == id,
    {
        DatabaseManualClock { id }
    }

    /// The identity of the clock.
    pub fn id(self) -> (result: DatabaseManualClockId)
        ensures
            result == self.id,
    {
        self.id
    }

    /// The statement that creates the clock at a tick.
    pub fn initialize_statement(self, initial: LeaseDeadline) -> (result: PostgresQuery)
        ensures
            result@ == statement::text_only(INITIALIZE_SQL@).with_id(
                self.id.number(),
            ).with_number(initial.value),
    {
        query(INITIALIZE_SQL).bind_id(self.id.value()).bind_number(initial.value)
    }

    /// The statement that reads the clock.
    pub fn capture_statement(self) -> (result: PostgresQuery)
        ensures
            result@ == statement::text_only(CAPTURE_SQL@).with_id(self.id.number()),
    {
        query(CAPTURE_SQL).bind_id(self.id.value())
    }

    /// The statement that locks and reads the clock.
    pub fn lock_statement(self) -> (result: PostgresQuery)
        ensures
            result@ == statement::text_only(LOCK_CLOCK_SQL@).with_id(self.id.number()),
    {
        query(LOCK_CLOCK_SQL).bind_id(self.id.value())
    }

    /// What a value of the clock is captured as.
    pub open spec fn captures(
        self,
        value: Option<&String>,
        result: Result<LeaseDeadline, DatabaseManualClockError>,
    ) -> bool {
        match value {
            None => result == Err::<LeaseDeadline, DatabaseManualClockError>(
                DatabaseManualClockError::MissingClock(self.id),
            ),
            Some(value) => match result {
                Ok(deadline) => numeric::parses(value@) && deadline.value == numeric::parsed(
                    value@,
                ),
                Err(error) => {
                    &&& !numeric::parses(value@)
                    &&& error matches DatabaseManualClockError::InvalidTick { value: found }
                        && found@ == value@
                },
            },
        }
    }

    /// What a value of the clock is moved on to, and the statement that writes it.
    pub open spec fn advances(
        self,
        value: Option<&String>,
        ticks: u64,
        result: Result<(LeaseDeadline, PostgresQuery), DatabaseManualClockError>,
    ) -> bool {
        match result {
            Ok(pair) => {
                &&& value is Some
                &&& numeric::parses(value->0@)
                &&& pair.0.value == numeric::parsed(value->0@) + ticks
                &&& pair.1@ == statement::text_only(UPDATE_CLOCK_SQL@).with_id(
                    self.id.number(),
                ).with_number(pair.0.value)
            },
            Err(error) => match value {
                None => error == DatabaseManualClockError::MissingClock(self.id),
                Some(value) => if numeric::parses(value@) {
                    &&& numeric::parsed(value@) + ticks > u64::MAX
                    &&& error == (DatabaseManualClockError::TickOverflow {
                        current: numeric::parsed(value@),
                        increment: ticks,
                    })
                } else {
                    error matches DatabaseManualClockError::InvalidTick { value: found } && found@
                        == value@
                },
            },
        }
    }

    /// Takes what the clock reads.
    pub fn captured(self, value: Option<&String>) -> (result: Result<
        LeaseDeadline,
        DatabaseManualClockError,
    >)
        ensures
            self.captures(value, result),
    {
        match value {
            Some(value) => decode_tick(value.as_str()),
            None => Err(DatabaseManualClockError::MissingClock(self.id)),
        }
    }

    /// Takes what the locked clock reads, and decides where to advance it.
    pub fn advanced(self, value: Option<&String>, ticks: u64) -> (result: Result<
        (LeaseDeadline, PostgresQuery),
        DatabaseManualClockError,
    >)
        ensures
            self.advances(value, ticks, result),
    {
        let current = self.captured(value)?;
        let next = checked_advance(current, ticks)?;
        Ok((next, query(UPDATE_CLOCK_SQL).bind_id(self.id.value()).bind_number(next.value)))
    }
}

/// Injected failures and compaction under the identity of a clock.
#[derive(Clone, Copy, Debug, PartialEq, Eq)]
pub struct DatabaseTestControl {
    /// Identity.
    pub id: DatabaseManualClockId,
}

/// Stable number of an injected failure.
pub open spec fn timing_tag(timing: CommitFailureTiming) -> i16 {
    match timing {
        CommitFailureTiming::BeforePublication => 1,
        CommitFailureTiming::AfterPublication => 2,
    }
}

/// The failure that a taken tag stands for.
pub open spec fn takes(
    tag: Option<i16>,
    result: Result<Option<CommitFailureTiming>, DatabaseManualClockError>,
) -> bool {
    match tag {
        None => result == Ok::<Option<CommitFailureTiming>, DatabaseManualClockError>(None),
        Some(tag) => match result {
            Ok(timing) => timing is Some && timing_tag(timing->0) == tag,
            Err(error) => tag != 1 && tag != 2 && error
                == DatabaseManualClockError::InvalidFailureTiming(tag),
        },
    }
}

/// Numbers in increasing order that are those of some filesystems.
pub open spec fn are_numbers_of(numbers: Seq<u128>, filesystems: Seq<FilesystemId>) -> bool {
    &&& targets::increasing(numbers)
    &&& forall|n: u128| #[trigger]
        numbers.contains(n) <==> exists|i: int|
            0 <= i < filesystems.len() && (#[trigger] filesystems[i]).value == n
}

/// The statements that compact one authority.
pub open spec fn compaction(filesystem: u128) -> Seq<StatementView> {
    seq![
        statement::text_only(LOCK_AUTHORITY_SQL@).with_id(filesystem),
        statement::text_only(COMPACT_KEYS_SQL@).with_id(filesystem),
        statement::text_only(COMPACT_COMMITS_SQL@).with_id(filesystem),
        statement::text_only(COMPACT_HEAD_SQL@).with_id(filesystem),
    ]
}

/// The statements that compact the first authorities.
pub open spec fn compactions(filesystems: Seq<u128>, count: int) -> Seq<StatementView>
    decreases count,
{
    if count <= 0 {
        Seq::empty()
    } else {
        compactions(filesystems, count - 1) + compaction(filesystems[count - 1])
    }
}

impl DatabaseTestControl {
    /// The controls under the identity of a clock.
    pub fn for_clock(clock: DatabaseManualClock) -> (result: Self)
        ensures
            result.id == clock.id,
    {
        DatabaseTestControl { id: clock.id() }
    }

    /// The statement that injects a failure into the next commit.
    pub fn inject_statement(self, timing: CommitFailureTiming) -> (result: PostgresQuery)
        ensures
            result@ == statement::text_only(INJECT_COMMIT_FAILURE_SQL@).with_id(
                self.id.number(),
            ).with(SqlValue::Int2(Some(timing_tag(timing)))),
    {
        let tag: i16 = match timing {
            CommitFailureTiming::BeforePublication => 1,
            CommitFailureTiming::AfterPublication => 2,
        };
        query(INJECT_COMMIT_FAILURE_SQL).bind_id(self.id.value()).bind(SqlValue::Int2(Some(tag)))
    }

    /// The statement that takes an injected failure.
    pub fn take_statement(self) -> (result: PostgresQuery)
        ensures
            result@ == statement::text_only(TAKE_COMMIT_FAILURE_SQL@).with_id(self.id.number()),
    {
        query(TAKE_COMMIT_FAILURE_SQL).bind_id(self.id.value())
    }

    /// Takes the tag of an injected failure, if one was injected.
    pub fn taken(self, tag: Option<i16>) -> (result: Result<
        Option<CommitFailureTiming>,
        DatabaseManualClockError,
    >)
        ensures
            takes(tag, result),
    {
        match tag {
            None => Ok(None),
            Some(1) => Ok(Some(CommitFailureTiming::BeforePublication)),
            Some(2) => Ok(Some(CommitFailureTiming::AfterPublication)),
            Some(tag) => Err(DatabaseManualClockError::InvalidFailureTiming(tag)),
        }
    }

    /// The statements that compact authorities, each once and in order.
    pub fn compact_change_history(self, filesystem_ids: &Vec<FilesystemId>) -> (result: Vec<
        PostgresQuery,
    >)
        ensures
            exists|numbers: Seq<u128>| #[trigger]
                are_numbers_of(numbers, filesystem_ids@) && publish::statement_views(result@)
                    == compactions(numbers, numbers.len() as int),
    {
        let mut numbers: Vec<u128> = Vec::new();
        let mut index: usize = 0;
        while index < filesystem_ids.len()
            invariant
                index <= filesystem_ids@.len(),
                are_numbers_of(numbers@, filesystem_ids@.take(index as int)),
            decreases filesystem_ids@.len() - index,
        {
            let ghost before = numbers@;
            let ghost seen = filesystem_ids@.take(index as int);
            let ghost next = filesystem_ids@.take(index + 1);
            insert_number(&mut numbers, filesystem_ids[index].value);
            proof {
                assert forall|n: u128| #[trigger] numbers@.contains(n) <==> exists|i: int|
                    0 <= i < next.len() && (#[trigger] next[i]).value == n by {
                    assert(numbers@.contains(n) <==> (before.contains(n) || n
                        == filesystem_ids@[index as int].value));
                    if before.contains(n) {
                        let i = choose|i: int|
                            0 <= i < seen.len() && (#[trigger] seen[i]).value == n;
                        assert(next[i].value == n);
                    }
                    if n == filesystem_ids@[index as int].value {
                        assert(next[index as int].value == n);
                    }
                    if exists|i: int| 0 <= i < next.len() && (#[trigger] next[i]).value == n {
                        let i = choose|i: int|
                            0 <= i < next.len() && (#[trigger] next[i]).value == n;
                        if i < index {
                            assert(seen[i].value == n);
                        }
                    }
                }
            }
            index = index + 1;
        }
        assert(filesystem_ids@.take(filesystem_ids@.len() as int) =~= filesystem_ids@);
        let mut statements: Vec<PostgresQuery> = Vec::new();
        let mut position: usize = 0;
        assert(publish::statement_views(statements@) =~= Seq::empty());
        while position < numbers.len()
            invariant
                position <= numbers@.len(),
                publish::statement_views(statements@) == compactions(numbers@, position as int),
            decreases numbers@.len() - position,
        {
            let ghost before = publish::statement_views(statements@);
            let filesystem: u128 = numbers[position];
            statements.push(query(LOCK_AUTHORITY_SQL).bind_id(filesystem));
            statements.push(query(COMPACT_KEYS_SQL).bind_id(filesystem));
            statements.push(query(COMPACT_COMMITS_SQL).bind_id(filesystem));
            statements.push(query(COMPACT_HEAD_SQL).bind_id(filesystem));
            assert(publish::statement_views(statements@) =~= before + compaction(filesystem));
            position = position + 1;
        }
        assert(are_numbers_of(numbers@, filesystem_ids@));
        statements
    }
}

} // verus!
