//! What the statements of a publication do to the log of changes.
use vstd::prelude::*;

use crate::bytes;
use crate::key::RecordKey;
use crate::lease::LeaseRequest;
use crate::lease_staging;
use crate::numeric;
use crate::publish;
use crate::request::CommitRequest;
use crate::statement::{StatementView, ValueView};

verus! {

/// One logged change.
pub struct LoggedChange {
    /// Filesystem whose state changed.
    pub filesystem: Seq<u8>,
    /// Revision of the change.
    pub revision: int,
    /// Tag of what made the change.
    pub origin: i16,
    /// Identity of what made the change.
    pub origin_id: Seq<u8>,
    /// Number of keys.
    pub keys: int,
}

/// One key of a logged change.
pub struct LoggedKey {
    /// Filesystem whose state changed.
    pub filesystem: Seq<u8>,
    /// Revision of the change.
    pub revision: int,
    /// Position among the keys of the change.
    pub ordinal: int,
    /// Family of the record.
    pub family: i16,
    /// First component.
    pub first: Option<Seq<u8>>,
    /// Second component.
    pub second: Option<Seq<u8>>,
}

/// The head of one filesystem.
pub struct Head {
    /// Newest revision.
    pub current: int,
    /// Revision behind which changes are kept.
    pub oldest: int,
}

/// The log of changes of every filesystem, with the heads.
pub struct ChangeLog {
    /// Changes.
    pub changes: Set<LoggedChange>,
    /// Keys of changes.
    pub keys: Set<LoggedKey>,
    /// Heads.
    pub heads: Map<Seq<u8>, Head>,
}

/// What one statement does to the log.
pub enum LogEffect {
    /// A change is added.
    AddChange(LoggedChange),
    /// A key is added.
    AddKey(LoggedKey),
    /// The keys of a filesystem up to a revision go.
    DropKeys(Seq<u8>, int),
    /// The changes of a filesystem up to a revision go.
    DropChanges(Seq<u8>, int),
    /// The head of a filesystem moves to a revision, and its oldest position
    /// not below another.
    Advance(Seq<u8>, int, int),
}

/// The decimal text of a number, as a value.
pub open spec fn number(value: int) -> ValueView {
    ValueView::Text(Some(numeric::decimal(value as nat)))
}

/// A statement has this effect on the log.
pub open spec fn has_effect(statement: StatementView, effect: LogEffect) -> bool {
    let v = statement.values;
    match effect {
        LogEffect::AddChange(change) => {
            &&& v.len() >= 4
            &&& v[0] == ValueView::Bytes(Some(change.filesystem))
            &&& v[1] == number(change.revision)
            &&& v[2] == ValueView::Int2(Some(change.origin))
            &&& v[3] == ValueView::Bytes(Some(change.origin_id))
            &&& {
                ||| {
                    &&& statement.sql
                        == "INSERT INTO \"public\".\"w9pt_fs_state_change_commits\" (\"filesystem_id\", \"revision\", \"origin_kind\", \"origin_id\", \"key_count\") VALUES ($1, $2::numeric, $3, $4, $5)"@
                    &&& v.len() == 5
                    &&& v[4] == ValueView::Int4(Some(change.keys as i32))
                    &&& change.keys <= i32::MAX
                }
                ||| {
                    &&& statement.sql
                        == "INSERT INTO \"public\".\"w9pt_fs_state_change_commits\" (\"filesystem_id\", \"revision\", \"origin_kind\", \"origin_id\", \"key_count\") VALUES ($1, $2::numeric, $3, $4, 1)"@
                    &&& v.len() == 4
                    &&& change.keys == 1
                }
            }
        },
        LogEffect::AddKey(key) => {
            &&& v.len() >= 4
            &&& v[0] == ValueView::Bytes(Some(key.filesystem))
            &&& v[1] == number(key.revision)
            &&& {
                ||| {
                    &&& statement.sql
                        == "INSERT INTO \"public\".\"w9pt_fs_state_change_keys\" (\"filesystem_id\", \"revision\", \"ordinal\", \"family_tag\", \"component_a\", \"component_b\") VALUES ($1, $2::numeric, $3, $4, $5, $6)"@
                    &&& v.len() == 6
                    &&& v[2] == ValueView::Int4(Some(key.ordinal as i32))
                    &&& key.ordinal <= i32::MAX
                    &&& v[3] == ValueView::Int2(Some(key.family))
                    &&& v[4] == ValueView::Bytes(key.first)
                    &&& v[5] == ValueView::Bytes(key.second)
                }
                ||| {
                    &&& statement.sql
                        == "INSERT INTO \"public\".\"w9pt_fs_state_change_keys\" (\"filesystem_id\", \"revision\", \"ordinal\", \"family_tag\", \"component_a\", \"component_b\") VALUES ($1, $2::numeric, 0, $3, $4, NULL)"@
                    &&& v.len() == 4
                    &&& key.ordinal == 0
                    &&& v[2] == ValueView::Int2(Some(key.family))
                    &&& v[3] == ValueView::Bytes(key.first)
                    &&& key.second is None
                }
            }
        },
        LogEffect::DropKeys(filesystem, revision) => {
            &&& statement.sql
                == "DELETE FROM \"public\".\"w9pt_fs_state_change_keys\" WHERE \"filesystem_id\" = $1 AND \"revision\" <= $2::numeric"@
            &&& v == seq![ValueView::Bytes(Some(filesystem)), number(revision)]
        },
        LogEffect::DropChanges(filesystem, revision) => {
            &&& statement.sql
                == "DELETE FROM \"public\".\"w9pt_fs_state_change_commits\" WHERE \"filesystem_id\" = $1 AND \"revision\" <= $2::numeric"@
            &&& v == seq![ValueView::Bytes(Some(filesystem)), number(revision)]
        },
        LogEffect::Advance(filesystem, current, oldest) => {
            &&& statement.sql
                == "UPDATE \"public\".\"w9pt_fs_state_authority_heads\" SET \"current_revision\" = $2::numeric, \"oldest_retained_revision\" = GREATEST(\"oldest_retained_revision\", $3::numeric) WHERE \"filesystem_id\" = $1"@
            &&& v == seq![ValueView::Bytes(Some(filesystem)), number(current), number(oldest)]
        },
    }
}

/// The log after one effect.
pub open spec fn affected(log: ChangeLog, effect: LogEffect) -> ChangeLog {
    match effect {
        LogEffect::AddChange(change) => ChangeLog { changes: log.changes.insert(change), ..log },
        LogEffect::AddKey(key) => ChangeLog { keys: log.keys.insert(key), ..log },
        LogEffect::DropKeys(filesystem, revision) => ChangeLog {
            keys: log.keys.filter(
                |key: LoggedKey| !(key.filesystem == filesystem && key.revision <= revision),
            ),
            ..log
        },
        LogEffect::DropChanges(filesystem, revision) => ChangeLog {
            changes: log.changes.filter(
                |change: LoggedChange|
                    !(change.filesystem == filesystem && change.revision <= revision),
            ),
            ..log
        },
        LogEffect::Advance(filesystem, current, oldest) => ChangeLog {
            heads: if log.heads.dom().contains(filesystem) {
                log.heads.insert(
                    filesystem,
                    Head {
                        current,
                        oldest: if log.heads[filesystem].oldest < oldest {
                            oldest
                        } else {
                            log.heads[filesystem].oldest
                        },
                    },
                )
            } else {
                log.heads
            },
            ..log
        },
    }
}

/// The log after effects, in order.
pub open spec fn after_effects(log: ChangeLog, effects: Seq<LogEffect>) -> ChangeLog
    decreases effects.len(),
{
    if effects.len() == 0 {
        log
    } else {
        affected(after_effects(log, effects.drop_last()), effects.last())
    }
}

/// Statements have these effects, one by one.
pub open spec fn have_effects(statements: Seq<StatementView>, effects: Seq<LogEffect>) -> bool {
    &&& statements.len() == effects.len()
    &&& forall|i: int|
        0 <= i < statements.len() ==> #[trigger] has_effect(statements[i], effects[i])
}

/// The oldest position that a publication at a revision keeps changes behind.
pub open spec fn kept_behind(revision: int, maximum: int) -> int {
    if revision - maximum > 1 {
        revision - maximum
    } else {
        1
    }
}

/// A logged key names a record: the tag of its family, then its identities in
/// the order in which the key lists them, without the filesystem.
pub open spec fn names(logged: LoggedKey, key: RecordKey<Seq<u8>>) -> bool {
    match key {
        RecordKey::Filesystem(_) => logged.family == 1 && logged.first is None
            && logged.second is None,
        RecordKey::Inode(_, inode_id) => logged.family == 2 && logged.first == Some(
            bytes::id_bytes(inode_id.value),
        ) && logged.second is None,
        RecordKey::DirectoryEntry(_, parent, name) => logged.family == 3 && logged.first == Some(
            bytes::id_bytes(parent.value),
        ) && if name.bytes.len() == 0 {
            logged.second is None
        } else {
            logged.second == Some(name.bytes)
        },
        RecordKey::Open(_, open_id) => logged.family == 4 && logged.first == Some(
            bytes::id_bytes(open_id.value),
        ) && logged.second is None,
        RecordKey::OpenPin(_, inode_id, open_id) => logged.family == 5 && logged.first == Some(
            bytes::id_bytes(inode_id.value),
        ) && logged.second == Some(bytes::id_bytes(open_id.value)),
        RecordKey::Orphan(_, inode_id) => logged.family == 6 && logged.first == Some(
            bytes::id_bytes(inode_id.value),
        ) && logged.second is None,
        RecordKey::Lock(_, inode_id, lock_id) => logged.family == 7 && logged.first == Some(
            bytes::id_bytes(inode_id.value),
        ) && logged.second == Some(bytes::id_bytes(lock_id.value)),
        RecordKey::Xattr(_, inode_id, name) => logged.family == 8 && logged.first == Some(
            bytes::id_bytes(inode_id.value),
        ) && if name.bytes.len() == 0 {
            logged.second is None
        } else {
            logged.second == Some(name.bytes)
        },
        RecordKey::XattrStaging(_, staging_id) => logged.family == 9 && logged.first == Some(
            bytes::id_bytes(staging_id.value),
        ) && logged.second is None,
        RecordKey::Mutation(_, mutation_id) => logged.family == 10 && logged.first == Some(
            bytes::id_bytes(mutation_id.value),
        ) && logged.second is None,
        RecordKey::WriterLease(_, scope) => logged.family == 11 && logged.first == Some(
            bytes::id_bytes(scope.value),
        ) && logged.second is None,
        RecordKey::ContentMetadata(_, file_id) => logged.family == 12 && logged.first == Some(
            bytes::id_bytes(file_id.value),
        ) && logged.second is None,
    }
}

/// The logged form of a key at a position.
pub open spec fn logged_key(
    filesystem: Seq<u8>,
    revision: int,
    ordinal: int,
    key: RecordKey<Seq<u8>>,
) -> LoggedKey {
    choose|logged: LoggedKey|
        logged.filesystem == filesystem && logged.revision == revision && logged.ordinal == ordinal
            && #[trigger] names(logged, key)
}

/// The optional bytes of a component.
pub open spec fn some_bytes(component: Seq<u8>) -> Option<Seq<u8>> {
    if component.len() == 0 {
        None
    } else {
        Some(component)
    }
}

proof fn lemma_logged_key(
    filesystem: Seq<u8>,
    revision: int,
    ordinal: int,
    key: RecordKey<Seq<u8>>,
)
    ensures
        logged_key(filesystem, revision, ordinal, key) == (LoggedKey {
            filesystem,
            revision,
            ordinal,
            family: crate::key::family_tag(key),
            first: some_bytes(crate::key::component_a(key)),
            second: some_bytes(crate::key::component_b(key)),
        }),
        names(logged_key(filesystem, revision, ordinal, key), key),
{
    let spelled = LoggedKey {
        filesystem,
        revision,
        ordinal,
        family: crate::key::family_tag(key),
        first: some_bytes(crate::key::component_a(key)),
        second: some_bytes(crate::key::component_b(key)),
    };
    match crate::key::key_first(key) {
        Some(value) => {
            bytes::lemma_id_round_trip(value);
        },
        None => {},
    }
    match key {
        RecordKey::OpenPin(_, _, open_id) => {
            bytes::lemma_id_round_trip(open_id.value);
        },
        RecordKey::Lock(_, _, lock_id) => {
            bytes::lemma_id_round_trip(lock_id.value);
        },
        _ => {},
    }
    assert(names(spelled, key));
    assert forall|other: LoggedKey|
        other.filesystem == filesystem && other.revision == revision && other.ordinal == ordinal
            && #[trigger] names(other, key) implies other == spelled by {}
}

/// The change that a commit logs: its revision, made by its mutation, with as
/// many keys as it announces.
pub open spec fn commit_change(request: CommitRequest, revision: int, keys: int) -> LoggedChange {
    LoggedChange {
        filesystem: bytes::id_bytes(request.filesystem_id.value),
        revision,
        origin: 1,
        origin_id: bytes::id_bytes(request.mutation.mutation_id.value),
        keys,
    }
}

/// The effects of the publication of a commit.
pub open spec fn commit_effects(
    request: CommitRequest,
    revision: int,
    keys: Seq<RecordKey<Seq<u8>>>,
    maximum: int,
) -> Seq<LogEffect> {
    let filesystem = bytes::id_bytes(request.filesystem_id.value);
    let oldest = kept_behind(revision, maximum);
    seq![LogEffect::AddChange(commit_change(request, revision, keys.len() as int))] + Seq::new(
        keys.len(),
        |i: int| LogEffect::AddKey(logged_key(filesystem, revision, i, keys[i])),
    ) + seq![
        LogEffect::DropKeys(filesystem, oldest),
        LogEffect::DropChanges(filesystem, oldest),
        LogEffect::Advance(filesystem, revision, oldest),
    ]
}

proof fn lemma_one_more(log: ChangeLog, effects: Seq<LogEffect>, count: int)
    requires
        0 <= count < effects.len(),
    ensures
        after_effects(log, effects.take(count + 1)) == affected(
            after_effects(log, effects.take(count)),
            effects[count],
        ),
        after_effects(log, effects.take(0)) == log,
        effects.take(effects.len() as int) == effects,
{
    let taken = effects.take(count + 1);
    assert(taken.drop_last() =~= effects.take(count));
    assert(taken.last() == effects[count]);
    assert(effects.take(effects.len() as int) =~= effects);
}

proof fn lemma_added_keys(log: ChangeLog, effects: Seq<LogEffect>, count: int)
    requires
        0 <= count < effects.len(),
        effects[0] is AddChange,
        forall|i: int| 1 <= i <= count ==> (#[trigger] effects[i]) is AddKey,
    ensures
        ({
            let after = after_effects(log, effects.take(count + 1));
            &&& after.changes == log.changes.insert(effects[0]->AddChange_0)
            &&& after.heads == log.heads
            &&& forall|key: LoggedKey| #[trigger]
                after.keys.contains(key) <==> log.keys.contains(key) || exists|i: int|
                    1 <= i <= count && (#[trigger] effects[i])->AddKey_0 == key
        }),
    decreases count,
{
    let taken = effects.take(count + 1);
    assert(taken.drop_last() =~= effects.take(count));
    if count == 0 {
        assert(after_effects(log, effects.take(0)) == log);
    } else {
        lemma_added_keys(log, effects, count - 1);
        let before = after_effects(log, effects.take(count));
        assert(taken.last() == effects[count]);
        assert forall|key: LoggedKey| #[trigger]
            after_effects(log, taken).keys.contains(key) <==> log.keys.contains(key) || exists|i: int|
                1 <= i <= count && (#[trigger] effects[i])->AddKey_0 == key by {
            assert(before.keys.contains(key) <==> log.keys.contains(key) || exists|i: int|
                1 <= i <= count - 1 && (#[trigger] effects[i])->AddKey_0 == key);
            if effects[count]->AddKey_0 == key {
                assert(after_effects(log, taken).keys.contains(key));
            }
        }
    }
}

/// After the statements of a publication ran, exactly those changes and keys of
/// the filesystem are in the log that lie above the oldest position which the
/// head is advanced with; nothing of another filesystem went or came; the
/// published change and all of its keys are among them whenever the log may
/// hold a change at all; and the head stands at the published revision.
pub proof fn law_publication_keeps_what_the_head_retains(
    request: CommitRequest,
    revision: u64,
    keys: Seq<RecordKey<Seq<u8>>>,
    maximum: u32,
    log: ChangeLog,
)
    requires
        keys.len() <= i32::MAX,
        revision > 1,
    ensures
        ({
            let filesystem = bytes::id_bytes(request.filesystem_id.value);
            let oldest = kept_behind(revision as int, maximum as int);
            let effects = commit_effects(request, revision as int, keys, maximum as int);
            let change = commit_change(request, revision as int, keys.len() as int);
            let after = after_effects(log, effects);
            &&& have_effects(publish::publication(request, revision, keys, maximum), effects)
            &&& forall|c: LoggedChange| #[trigger]
                after.changes.contains(c) <==> (log.changes.contains(c) || c == change) && !(
                c.filesystem == filesystem && c.revision <= oldest)
            &&& forall|k: LoggedKey| #[trigger]
                after.keys.contains(k) <==> (log.keys.contains(k) || exists|i: int|
                    0 <= i < keys.len() && logged_key(
                        filesystem,
                        revision as int,
                        i,
                        #[trigger] keys[i],
                    ) == k) && !(k.filesystem == filesystem && k.revision <= oldest)
            &&& forall|i: int|
                0 <= i < keys.len() ==> names(
                    logged_key(filesystem, revision as int, i, #[trigger] keys[i]),
                    keys[i],
                )
            &&& maximum > 0 ==> after.changes.contains(change)
            &&& maximum > 0 ==> forall|i: int|
                0 <= i < keys.len() ==> after.keys.contains(
                    logged_key(filesystem, revision as int, i, #[trigger] keys[i]),
                )
            &&& log.heads.dom().contains(filesystem) ==> {
                &&& after.heads[filesystem].current == revision
                &&& after.heads[filesystem].oldest >= oldest
                &&& after.heads[filesystem].oldest == oldest || after.heads[filesystem].oldest
                    == log.heads[filesystem].oldest
            }
            &&& forall|other: Seq<u8>|
                other != filesystem && log.heads.dom().contains(other)
                    ==> #[trigger] after.heads[other] == log.heads[other]
        }),
{
    let filesystem = bytes::id_bytes(request.filesystem_id.value);
    let oldest = kept_behind(revision as int, maximum as int);
    let statements = publish::publication(request, revision, keys, maximum);
    let effects = commit_effects(request, revision as int, keys, maximum as int);
    let change = commit_change(request, revision as int, keys.len() as int);
    let count = keys.len() as int;
    assert(statements.len() == effects.len() == count + 4);
    assert(oldest == publish::oldest_retained(revision, maximum));
    assert forall|i: int| 0 <= i < statements.len() implies #[trigger] has_effect(
        statements[i],
        effects[i],
    ) by {
        if 1 <= i <= count {
            lemma_logged_key(filesystem, revision as int, i - 1, keys[i - 1]);
            assert(statements[i] == publish::key_statement(
                request.filesystem_id,
                revision,
                i - 1,
                keys[i - 1],
            ));
        } else if i == count + 1 {
            assert(statements[i].values =~= seq![
                ValueView::Bytes(Some(filesystem)),
                number(oldest),
            ]);
        } else if i == count + 2 {
            assert(statements[i].values =~= seq![
                ValueView::Bytes(Some(filesystem)),
                number(oldest),
            ]);
        } else if i == count + 3 {
            assert(statements[i].values =~= seq![
                ValueView::Bytes(Some(filesystem)),
                number(revision as int),
                number(oldest),
            ]);
        }
    }
    lemma_added_keys(log, effects, count);
    let logged = after_effects(log, effects.take(count + 1));
    lemma_one_more(log, effects, count + 1);
    lemma_one_more(log, effects, count + 2);
    lemma_one_more(log, effects, count + 3);
    let after = after_effects(log, effects);
    assert forall|i: int| 0 <= i < keys.len() implies effects[i + 1] == LogEffect::AddKey(
        logged_key(filesystem, revision as int, i, #[trigger] keys[i]),
    ) && names(logged_key(filesystem, revision as int, i, keys[i]), keys[i]) by {
        lemma_logged_key(filesystem, revision as int, i, keys[i]);
    }
    assert forall|k: LoggedKey| #[trigger]
        after.keys.contains(k) <==> (log.keys.contains(k) || exists|i: int|
            0 <= i < keys.len() && logged_key(
                filesystem,
                revision as int,
                i,
                #[trigger] keys[i],
            ) == k) && !(k.filesystem == filesystem && k.revision <= oldest) by {
        assert(logged.keys.contains(k) <==> log.keys.contains(k) || exists|i: int|
            1 <= i <= count && (#[trigger] effects[i])->AddKey_0 == k);
        if exists|i: int|
            1 <= i <= count && (#[trigger] effects[i])->AddKey_0 == k {
            let i = choose|i: int| 1 <= i <= count && (#[trigger] effects[i])->AddKey_0 == k;
            assert(logged_key(filesystem, revision as int, i - 1, keys[i - 1]) == k);
        }
        if exists|i: int|
            0 <= i < keys.len() && logged_key(
                filesystem,
                revision as int,
                i,
                #[trigger] keys[i],
            ) == k {
            let i = choose|i: int|
                0 <= i < keys.len() && logged_key(
                    filesystem,
                    revision as int,
                    i,
                    #[trigger] keys[i],
                ) == k;
            assert(effects[i + 1]->AddKey_0 == k);
        }
    }
    if maximum > 0 {
        assert(after.changes.contains(change));
        assert forall|i: int| 0 <= i < keys.len() implies after.keys.contains(
            logged_key(filesystem, revision as int, i, #[trigger] keys[i]),
        ) by {
            lemma_logged_key(filesystem, revision as int, i, keys[i]);
            assert(effects[i + 1]->AddKey_0 == logged_key(filesystem, revision as int, i, keys[i]));
            assert(logged.keys.contains(logged_key(filesystem, revision as int, i, keys[i])));
        }
    }
}

/// What of a lease request names the change that it makes: the authority, the
/// operation and the scope.
pub open spec fn lease_names(request: LeaseRequest) -> (u128, u128, u128) {
    match request {
        LeaseRequest::Acquire(r) => (r.filesystem_id.value, r.operation_id.value, r.scope.value),
        LeaseRequest::Renew(r) => (r.filesystem_id.value, r.operation_id.value, r.fence.scope.value),
        LeaseRequest::Release(r) => (
            r.filesystem_id.value,
            r.operation_id.value,
            r.fence.scope.value,
        ),
    }
}

/// The effects of the publication of a lease operation. Where the log still has
/// room for every change, nothing is dropped.
pub open spec fn lease_effects(request: LeaseRequest, revision: int, maximum: int) -> Seq<
    LogEffect,
> {
    let (authority, operation, scope) = lease_names(request);
    let filesystem = bytes::id_bytes(authority);
    let oldest = kept_behind(revision, maximum);
    let logged = seq![
        LogEffect::Advance(filesystem, revision, oldest),
        LogEffect::AddChange(
            LoggedChange {
                filesystem,
                revision,
                origin: 2,
                origin_id: bytes::id_bytes(operation),
                keys: 1,
            },
        ),
        LogEffect::AddKey(
            LoggedKey {
                filesystem,
                revision,
                ordinal: 0,
                family: 11,
                first: Some(bytes::id_bytes(scope)),
                second: None,
            },
        ),
    ];
    if oldest > 1 {
        logged + seq![
            LogEffect::DropKeys(filesystem, oldest),
            LogEffect::DropChanges(filesystem, oldest),
        ]
    } else {
        logged
    }
}

/// The statements of a published lease operation.
pub open spec fn lease_statements(request: LeaseRequest, revision: u64, maximum: u32) -> Seq<
    StatementView,
> {
    lease_staging::publication(request, revision, maximum).map_values(
        |step: lease_staging::StepView| step.statement,
    )
}

/// After the statements of a published lease operation ran on a log without
/// changes at or below the first revision, exactly the changes and keys above
/// the oldest position that the head is advanced with are in it, the logged
/// change is the operation's own and its one key is the lease of its scope.
pub proof fn law_lease_publication_keeps_what_the_head_retains(
    request: LeaseRequest,
    revision: u64,
    maximum: u32,
    log: ChangeLog,
)
    requires
        revision > 1,
        forall|c: LoggedChange| #[trigger] log.changes.contains(c) ==> c.revision > 1,
        forall|k: LoggedKey| #[trigger] log.keys.contains(k) ==> k.revision > 1,
    ensures
        ({
            let (authority, operation, scope) = lease_names(request);
            let filesystem = bytes::id_bytes(authority);
            let oldest = kept_behind(revision as int, maximum as int);
            let effects = lease_effects(request, revision as int, maximum as int);
            let after = after_effects(log, effects);
            let change = effects[1]->AddChange_0;
            let key = effects[2]->AddKey_0;
            &&& have_effects(lease_statements(request, revision, maximum), effects)
            &&& forall|c: LoggedChange| #[trigger]
                after.changes.contains(c) <==> (log.changes.contains(c) || c == change) && !(
                c.filesystem == filesystem && c.revision <= oldest)
            &&& forall|k: LoggedKey| #[trigger]
                after.keys.contains(k) <==> (log.keys.contains(k) || k == key) && !(k.filesystem
                    == filesystem && k.revision <= oldest)
            &&& maximum > 0 ==> after.changes.contains(change) && after.keys.contains(key)
            &&& log.heads.dom().contains(filesystem) ==> {
                &&& after.heads[filesystem].current == revision
                &&& after.heads[filesystem].oldest >= oldest
                &&& after.heads[filesystem].oldest == oldest || after.heads[filesystem].oldest
                    == log.heads[filesystem].oldest
            }
        }),
{
    let (authority, operation, scope) = lease_names(request);
    let filesystem = bytes::id_bytes(authority);
    let oldest = kept_behind(revision as int, maximum as int);
    let statements = lease_statements(request, revision, maximum);
    let effects = lease_effects(request, revision as int, maximum as int);
    assert(oldest == publish::oldest_retained(revision, maximum));
    assert(statements[0].values =~= seq![
        ValueView::Bytes(Some(filesystem)),
        number(revision as int),
        number(oldest),
    ]);
    assert(has_effect(statements[0], effects[0]));
    assert(has_effect(statements[1], effects[1]));
    assert(has_effect(statements[2], effects[2]));
    lemma_one_more(log, effects, 0);
    lemma_one_more(log, effects, 1);
    lemma_one_more(log, effects, 2);
    let logged = after_effects(log, effects.take(3));
    assert(logged.changes =~= log.changes.insert(effects[1]->AddChange_0));
    assert(logged.keys =~= log.keys.insert(effects[2]->AddKey_0));
    if oldest > 1 {
        assert(statements[3].values =~= seq![ValueView::Bytes(Some(filesystem)), number(oldest)]);
        assert(statements[4].values =~= seq![ValueView::Bytes(Some(filesystem)), number(oldest)]);
        lemma_one_more(log, effects, 3);
        lemma_one_more(log, effects, 4);
    }
}

} // verus!
