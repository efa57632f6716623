use w9pt_fs_state_postgres::ids::{
    ClientIncarnationId, DirectoryCookie, DirectoryGeneration, FencingToken, FilesystemId, InodeGeneration,
    InodeId, LeaseId, MutationId, MutationRetention, QidPath, RecordRevision, RequestFingerprint,
    StateRevision, UnixTimestamp, WriterIncarnationId, WriterScopeId, XattrStagingId,
};
use w9pt_fs_state_postgres::key::RecordKey;
use w9pt_fs_state_postgres::limits::{StateLimitValues, StateLimits};
use w9pt_fs_state_postgres::record::{
    DirectoryEntryRecord, FilesystemRecord, InodeData, InodeRecord, InodeTimes, MutationResult,
    StateRecord, XattrRecord, XattrStagingRecord,
};
use w9pt_fs_state_postgres::request::{
    CommitRequest, MalformedCommit, MutationContext, StateChange, WriterFence, XattrPublication,
};
use w9pt_fs_state_postgres::table::RecordTable;
use w9pt_fs_state_postgres::transition::validate_transitions;
use w9pt_fs_state_postgres::values::{EntryName, GroupId, PrincipalId, XattrName, XattrValue};

const FILESYSTEM: u128 = 1;

fn filesystem() -> FilesystemId {
    FilesystemId::from_u128(FILESYSTEM)
}

fn inode_key(value: u128) -> RecordKey {
    RecordKey::Inode(filesystem(), InodeId::from_u128(value))
}

fn request(changes: Vec<StateChange>) -> CommitRequest {
    CommitRequest {
        filesystem_id: filesystem(),
        mutation: MutationContext {
            mutation_id: MutationId::from_u128(2),
            fingerprint: RequestFingerprint::new([9; 32]),
            client_incarnation: ClientIncarnationId::from_u128(3),
            retention: MutationRetention::new(4),
        },
        fence: WriterFence {
            scope: WriterScopeId::from_u128(5),
            holder: WriterIncarnationId::from_u128(6),
            lease_id: LeaseId::from_u128(7),
            fencing_token: FencingToken::new(8).unwrap(),
        },
        preconditions: vec![],
        changes,
        terminal_result: MutationResult { kind: 1, format: 1, bytes: b"ok".to_vec() },
    }
}

fn table(next_path: u64, next_cookie: u64) -> RecordTable {
    let mut records = RecordTable::new();
    records.insert(
        RecordKey::Filesystem(filesystem()),
        Some(StateRecord::Filesystem(FilesystemRecord {
            filesystem_id: filesystem(),
            revision: StateRevision::new(7).unwrap(),
            record_revision: RecordRevision::new(7).unwrap(),
            root_inode_id: InodeId::from_u128(20),
            next_qid_path: QidPath::new(next_path).unwrap(),
            next_directory_cookie: DirectoryCookie::new(next_cookie),
            policy_generation: 5,
        })),
    );
    records
}

fn directory(inode: u128, path: u64, inode_generation: u64, generation: u64, parent: u128) -> StateRecord {
    let time = UnixTimestamp::new(0, 0).unwrap();
    let limits = StateLimits::default();
    StateRecord::Inode(InodeRecord {
        inode_id: InodeId::from_u128(inode),
        qid_path: QidPath::new(path).unwrap(),
        revision: RecordRevision::new(1).unwrap(),
        mode: 0o755,
        owner: PrincipalId::new(b"owner".to_vec(), limits).unwrap(),
        group: GroupId::new(b"group".to_vec(), limits).unwrap(),
        times: InodeTimes { accessed: time, modified: time, changed: time, created: time },
        logical_size: 0,
        link_count: 1,
        inode_generation: InodeGeneration::new(inode_generation).unwrap(),
        content_context_id: None,
        data: InodeData::Directory {
            generation: DirectoryGeneration::new(generation).unwrap(),
            parent_inode_id: InodeId::from_u128(parent),
        },
    })
}

fn entry(parent: u128, name: &[u8], child: u128, cookie: u64) -> (RecordKey, StateRecord) {
    let name = EntryName { bytes: name.to_vec() };
    (
        RecordKey::DirectoryEntry(filesystem(), InodeId::from_u128(parent), name.clone()),
        StateRecord::DirectoryEntry(DirectoryEntryRecord {
            parent_inode_id: InodeId::from_u128(parent),
            name,
            cookie: DirectoryCookie::new(cookie),
            child_inode_id: InodeId::from_u128(child),
            revision: RecordRevision::new(1).unwrap(),
        }),
    )
}

fn insert(pair: (RecordKey, StateRecord)) -> StateChange {
    StateChange::Insert { key: pair.0, record: pair.1 }
}

fn verdict(records: &RecordTable, changes: Vec<StateChange>) -> Result<(), MalformedCommit> {
    validate_transitions(&request(changes), records, StateLimits::default())
}

fn new_inode(value: u128, path: u64) -> StateChange {
    StateChange::Insert { key: inode_key(value), record: directory(value, path, 1, 1, 20) }
}

#[test]
fn path_numbers_are_allocated_in_order_and_declared() {
    let records = table(3, 4);
    let advance = |count| StateChange::AdvanceQidPath { count };
    assert_eq!(verdict(&records, vec![new_inode(9, 3), new_inode(10, 4), advance(2)]), Ok(()));
    for changes in [
        vec![new_inode(9, 4), advance(1)],
        vec![new_inode(9, 3), new_inode(10, 3), advance(2)],
        vec![new_inode(9, 3)],
        vec![new_inode(9, 3), advance(2)],
    ] {
        assert_eq!(verdict(&records, changes), Err(MalformedCommit::QidPathAllocation));
    }
}

#[test]
fn last_number_cannot_be_allocated() {
    let records = table(u64::MAX, 4);
    assert_eq!(
        verdict(
            &records,
            vec![new_inode(9, u64::MAX), StateChange::AdvanceQidPath { count: 1 }]
        ),
        Err(MalformedCommit::Arithmetic)
    );
}

#[test]
fn replaced_inode_keeps_its_path_number() {
    let mut records = table(3, 4);
    records.insert(inode_key(9), Some(directory(9, 2, 1, 1, 20)));
    let replace = |path, generation| {
        vec![StateChange::Replace {
            key: inode_key(9),
            record: directory(9, path, generation, 1, 20),
        }]
    };
    assert_eq!(verdict(&records, replace(2, 2)), Ok(()));
    assert_eq!(verdict(&records, replace(1, 2)), Err(MalformedCommit::QidPathAllocation));
    assert_eq!(verdict(&records, replace(2, 1)), Err(MalformedCommit::NonMonotonicTransition));
    assert_eq!(verdict(&records, replace(2, 3)), Err(MalformedCommit::NonMonotonicTransition));
}

#[test]
fn fresh_entries_take_the_next_cookies() {
    let records = table(3, 4);
    let changed = StateChange::BumpDirectoryGeneration(InodeId::from_u128(20));
    let advance = |count| StateChange::AdvanceDirectoryCookie { count };
    assert_eq!(
        verdict(
            &records,
            vec![
                insert(entry(20, b"a", 9, 4)),
                insert(entry(20, b"b", 10, 5)),
                advance(2),
                changed.clone(),
            ]
        ),
        Ok(())
    );
    for changes in [
        vec![insert(entry(20, b"a", 9, 5)), advance(1), changed.clone()],
        vec![insert(entry(20, b"a", 9, 4)), changed.clone()],
    ] {
        assert_eq!(verdict(&records, changes), Err(MalformedCommit::DirectoryCookieAllocation));
    }
}

#[test]
fn renamed_entry_keeps_its_cookie() {
    let mut records = table(3, 4);
    let (old, record) = entry(20, b"old", 9, 2);
    records.insert(old.clone(), Some(record));
    let changed = StateChange::BumpDirectoryGeneration(InodeId::from_u128(20));
    let rename = |cookie, child| {
        vec![
            StateChange::Delete(old.clone()),
            insert(entry(20, b"new", child, cookie)),
            changed.clone(),
        ]
    };
    assert_eq!(verdict(&records, rename(2, 9)), Ok(()));
    assert_eq!(
        verdict(&records, rename(2, 10)),
        Err(MalformedCommit::DirectoryCookieAllocation)
    );
    assert_eq!(
        verdict(&records, rename(4, 9)),
        Err(MalformedCommit::DirectoryCookieAllocation)
    );
}

#[test]
fn changed_directory_steps_its_generation() {
    let mut records = table(3, 4);
    let (key, record) = entry(20, b"old", 9, 2);
    records.insert(key.clone(), Some(record));
    records.insert(inode_key(20), Some(directory(20, 1, 1, 6, 20)));
    let removed = StateChange::Delete(key);
    assert_eq!(
        verdict(&records, vec![removed.clone()]),
        Err(MalformedCommit::NamespaceGeneration)
    );
    let replace = |generation| StateChange::Replace {
        key: inode_key(20),
        record: directory(20, 1, 2, generation, 20),
    };
    assert_eq!(verdict(&records, vec![removed.clone(), replace(7)]), Ok(()));
    assert_eq!(
        verdict(&records, vec![removed, replace(6)]),
        Err(MalformedCommit::NamespaceGeneration)
    );
    assert_eq!(
        verdict(&records, vec![replace(7)]),
        Err(MalformedCommit::NonMonotonicTransition)
    );
}

#[test]
fn directory_moves_along_with_its_entry() {
    let mut records = table(9, 9);
    let (old, record) = entry(20, b"child", 9, 2);
    records.insert(old.clone(), Some(record));
    records.insert(inode_key(9), Some(directory(9, 2, 1, 1, 20)));
    let moved = StateChange::Replace { key: inode_key(9), record: directory(9, 2, 2, 1, 30) };
    let steps = [20, 30].map(|value| StateChange::BumpDirectoryGeneration(InodeId::from_u128(value)));
    let mut changes = vec![StateChange::Delete(old), insert(entry(30, b"child", 9, 2))];
    changes.extend(steps);
    changes.push(moved.clone());
    assert_eq!(verdict(&records, changes), Ok(()));
    assert_eq!(verdict(&records, vec![moved]), Err(MalformedCommit::NonMonotonicTransition));
}

fn staged(expected_size: u64) -> (RecordKey, StateRecord) {
    let limits = StateLimits::default();
    (
        RecordKey::XattrStaging(filesystem(), XattrStagingId::from_u128(40)),
        StateRecord::XattrStaging(XattrStagingRecord {
            staging_id: XattrStagingId::from_u128(40),
            inode_id: InodeId::from_u128(9),
            name: XattrName::new(b"user.a".to_vec(), limits).unwrap(),
            expected_size,
            bytes: XattrValue::new(b"12345".to_vec(), limits).unwrap(),
            revision: RecordRevision::new(1).unwrap(),
        }),
    )
}

fn publication(inode: u128) -> StateChange {
    StateChange::PublishXattrStaging(XattrPublication {
        staging_id: XattrStagingId::from_u128(40),
        inode_id: InodeId::from_u128(inode),
        name: XattrName::new(b"user.a".to_vec(), StateLimits::default()).unwrap(),
    })
}

#[test]
fn only_complete_staged_attributes_are_published() {
    let mut records = table(3, 4);
    assert_eq!(
        verdict(&records, vec![publication(9)]),
        Err(MalformedCommit::InvalidXattrStaging)
    );
    let (key, record) = staged(6);
    records.insert(key, Some(record));
    assert_eq!(
        verdict(&records, vec![publication(9)]),
        Err(MalformedCommit::InvalidXattrStaging)
    );
    let (key, record) = staged(5);
    records.insert(key, Some(record));
    assert_eq!(verdict(&records, vec![publication(9)]), Ok(()));
    assert_eq!(
        verdict(&records, vec![publication(10)]),
        Err(MalformedCommit::InvalidXattrStaging)
    );
}

#[test]
fn staged_attribute_is_not_written_around_its_publication() {
    let mut records = table(3, 4);
    let (key, record) = staged(5);
    records.insert(key.clone(), Some(record));
    let limits = StateLimits::default();
    let name = XattrName::new(b"user.a".to_vec(), limits).unwrap();
    let write = StateChange::Insert {
        key: RecordKey::Xattr(filesystem(), InodeId::from_u128(9), name.clone()),
        record: StateRecord::Xattr(XattrRecord {
            inode_id: InodeId::from_u128(9),
            name,
            value: XattrValue::new(b"12345".to_vec(), limits).unwrap(),
            revision: RecordRevision::new(1).unwrap(),
        }),
    };
    assert_eq!(
        verdict(&records, vec![StateChange::Delete(key.clone()), write]),
        Err(MalformedCommit::XattrPublicationRequired)
    );
    assert_eq!(verdict(&records, vec![StateChange::Delete(key)]), Ok(()));
}

#[test]
fn published_bytes_count_toward_the_transaction_limit() {
    let mut records = table(3, 4);
    let (key, record) = staged(5);
    records.insert(key, Some(record));
    let request = request(vec![publication(9)]);
    let bare = w9pt_fs_state_postgres::estimate::estimate_transaction_bytes(&request).unwrap();
    let limits = |maximum| {
        StateLimits::new(StateLimitValues {
            max_transaction_bytes: maximum,
            ..StateLimitValues::default()
        })
    };
    assert_eq!(validate_transitions(&request, &records, limits(bare + 5)), Ok(()));
    assert!(matches!(
        validate_transitions(&request, &records, limits(bare + 4)),
        Err(MalformedCommit::Limit(_))
    ));
}
