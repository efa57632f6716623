use w9pt_fs_state_postgres::ids::{
    ClientIncarnationId, DirectoryCookie, FencingToken, FilesystemId, InodeId, LeaseDeadline,
    LeaseId, LockId, MutationId, MutationRetention, OpenId, QidPath, RecordRevision,
    RequestFingerprint, StateRevision, WriterIncarnationId, WriterScopeId, XattrStagingId,
};
use w9pt_fs_state_postgres::key::RecordKey;
use w9pt_fs_state_postgres::limits::StateLimits;
use w9pt_fs_state_postgres::record::{
    FilesystemRecord, MutationRecord, MutationResult, OrphanRecord, StateRecord, WriterLeaseRecord,
};
use w9pt_fs_state_postgres::record_write::{
    affected_presence, delete_record, insert_mutation_record, insert_record, insert_sql,
    lock_existing_record, lock_presence, prepare_public_record, replace_record, replace_sql,
    RecordWritePrepareError, RowPresence,
};
use w9pt_fs_state_postgres::row_codec::RowCodecError;
use w9pt_fs_state_postgres::rows::SqlStateRecord;
use w9pt_fs_state_postgres::statement::SqlValue;
use w9pt_fs_state_postgres::values::{EntryName, XattrName};

fn keys() -> Vec<RecordKey> {
    let limits = StateLimits::default();
    let fs = FilesystemId::from_u128(1);
    let inode = InodeId::from_u128(2);
    vec![
        RecordKey::Filesystem(fs),
        RecordKey::Inode(fs, inode),
        RecordKey::DirectoryEntry(fs, inode, EntryName::new(b"entry".to_vec(), limits).unwrap()),
        RecordKey::Open(fs, OpenId::from_u128(3)),
        RecordKey::OpenPin(fs, inode, OpenId::from_u128(3)),
        RecordKey::Orphan(fs, inode),
        RecordKey::Lock(fs, inode, LockId::from_u128(4)),
        RecordKey::Xattr(fs, inode, XattrName::new(b"user.key".to_vec(), limits).unwrap()),
        RecordKey::XattrStaging(fs, XattrStagingId::from_u128(5)),
        RecordKey::Mutation(fs, MutationId::from_u128(6)),
        RecordKey::WriterLease(fs, WriterScopeId::from_u128(7)),
    ]
}

fn orphan() -> StateRecord {
    StateRecord::Orphan(OrphanRecord {
        inode_id: InodeId::from_u128(2),
        open_pin_count: 3,
        orphaned_revision: StateRevision::new(4).unwrap(),
        revision: RecordRevision::new(4).unwrap(),
    })
}

#[test]
fn allocated_revision_replaces_both_filesystem_revision_fields() {
    let filesystem_id = FilesystemId::from_u128(1);
    let record = StateRecord::Filesystem(FilesystemRecord {
        filesystem_id,
        revision: StateRevision::new(2).unwrap(),
        record_revision: RecordRevision::new(2).unwrap(),
        root_inode_id: InodeId::from_u128(3),
        next_qid_path: QidPath::new(4).unwrap(),
        next_directory_cookie: DirectoryCookie::new(4),
        policy_generation: 5,
    });
    let encoded = prepare_public_record(
        &RecordKey::Filesystem(filesystem_id),
        &record,
        StateRevision::new(9).unwrap(),
    )
    .unwrap();
    let SqlStateRecord::Filesystem(row) = encoded else {
        panic!("expected filesystem row");
    };
    assert_eq!(row.state_revision, "9");
    assert_eq!(row.record_revision, "9");
}

#[test]
fn direct_writer_lease_writes_are_rejected() {
    let filesystem_id = FilesystemId::from_u128(1);
    let scope = WriterScopeId::from_u128(2);
    let lease = WriterLeaseRecord {
        filesystem_id,
        scope,
        holder: WriterIncarnationId::from_u128(3),
        lease_id: LeaseId::from_u128(4),
        deadline: LeaseDeadline::new(5),
        fencing_token: FencingToken::new(6).unwrap(),
        revision: RecordRevision::new(7).unwrap(),
    };
    assert_eq!(
        prepare_public_record(
            &RecordKey::WriterLease(filesystem_id, scope),
            &StateRecord::WriterLease(lease),
            StateRevision::new(8).unwrap(),
        ),
        Err(RecordWritePrepareError::ProtectedRecordFamily)
    );
}

#[test]
fn generated_statement_shapes_are_point_bounded_and_distinguish_operations() {
    let insert = insert_sql(
        "orphans",
        &["filesystem_id", "inode_id", "record_revision"],
        &[None, None, Some("numeric")],
    );
    let replace = replace_sql(
        "orphans",
        &["filesystem_id", "inode_id", "record_revision"],
        &[None, None, Some("numeric")],
        2,
    );
    for sql in [&insert, &replace] {
        assert!(sql.contains("\"public\".\"w9pt_fs_state_orphans\""));
        assert!(!sql.contains(&["ON", "CONFLICT"].join(" ")));
        assert!(!sql.contains(&["CAS", "CADE"].concat()));
    }
    assert!(insert.starts_with("INSERT INTO"));
    assert!(insert.contains("$3::numeric"));
    assert!(replace.starts_with("UPDATE"));
    assert!(replace.contains("WHERE \"filesystem_id\" = $1 AND \"inode_id\" = $2"));
}

#[test]
fn source_contains_only_fully_qualified_bounded_record_statements() {
    let mut source = String::new();
    for key in keys() {
        source.push_str(&lock_existing_record(&key).sql);
        source.push('\n');
        if let Ok(statement) = delete_record(&key) {
            source.push_str(&statement.sql);
            source.push('\n');
        }
    }
    assert!(!source.contains(&["ON", "CONFLICT"].join(" ")));
    assert!(!source.contains(&["DELETE", "CASCADE"].join(" ")));
    assert!(!source.contains(&["", "OFFSET", ""].join(" ")));
    for table in [
        "filesystem_records",
        "inodes",
        "directory_entries",
        "opens",
        "open_pins",
        "orphans",
        "locks",
        "xattrs",
        "xattr_staging",
        "mutation_results",
        "writer_fences",
    ] {
        assert!(
            source.contains(&format!("\"public\".\"w9pt_fs_state_{table}\"")),
            "missing fully qualified SQL for {table}"
        );
    }
    assert!(source.matches("FOR UPDATE").count() >= 11);
}

#[test]
fn written_rows_carry_the_allocated_revision() {
    let key = RecordKey::Orphan(FilesystemId::from_u128(1), InodeId::from_u128(2));
    let revision = StateRevision::new(9).unwrap();
    let insert = insert_record(&key, &orphan(), revision).unwrap();
    assert!(insert.sql.starts_with("INSERT INTO \"public\".\"w9pt_fs_state_orphans\""));
    assert_eq!(insert.values.last(), Some(&SqlValue::Text(Some("9".to_owned()))));
    let replace = replace_record(&key, &orphan(), revision).unwrap();
    assert!(replace.sql.starts_with("UPDATE \"public\".\"w9pt_fs_state_orphans\""));
    assert_eq!(replace.values, insert.values);
}

#[test]
fn mutations_are_written_by_their_own_protocol() {
    let filesystem_id = FilesystemId::from_u128(1);
    let mutation_id = MutationId::from_u128(2);
    let record = MutationRecord {
        filesystem_id,
        mutation_id,
        fingerprint: RequestFingerprint::new([1; 32]),
        client_incarnation: ClientIncarnationId::from_u128(3),
        writer_scope: WriterScopeId::from_u128(4),
        writer_incarnation: WriterIncarnationId::from_u128(5),
        fencing_token: FencingToken::new(6).unwrap(),
        result: MutationResult { kind: 1, format: 1, bytes: b"ok".to_vec() },
        committed_revision: StateRevision::new(1).unwrap(),
        retention: MutationRetention::new(7),
        revision: RecordRevision::new(1).unwrap(),
    };
    let key = RecordKey::Mutation(filesystem_id, mutation_id);
    let revision = StateRevision::new(9).unwrap();
    assert_eq!(
        prepare_public_record(&key, &StateRecord::Mutation(record.clone()), revision),
        Err(RecordWritePrepareError::ProtectedRecordFamily)
    );
    assert!(delete_record(&key).is_err());
    let statement = insert_mutation_record(&key, record, revision).unwrap();
    assert_eq!(
        statement.values.iter().filter(|value| **value == SqlValue::Text(Some("9".to_owned()))).count(),
        2
    );
}

#[test]
fn affected_rows_tell_presence() {
    assert_eq!(affected_presence(0).unwrap(), RowPresence::Absent);
    assert_eq!(affected_presence(1).unwrap(), RowPresence::Present);
    assert_eq!(
        affected_presence(2).unwrap_err().text(),
        "PostgreSQL Corruption failure during Commit: point record write affected 2 rows"
    );
    assert_eq!(lock_presence(true), RowPresence::Present);
    assert_eq!(lock_presence(false), RowPresence::Absent);
}

#[test]
fn refused_writes_say_why() {
    assert_eq!(
        RecordWritePrepareError::ProtectedRecordFamily.text(),
        "mutation and writer-lease records require their dedicated persistence protocol"
    );
    assert_eq!(
        RecordWritePrepareError::MutationKeyMismatch.text(),
        "mutation record did not encode as a mutation row"
    );
    let codec = RowCodecError::UnknownTag { field: "lock kind", tag: 3 };
    assert_eq!(
        RecordWritePrepareError::Codec(codec).text(),
        "record codec rejected write: unknown lock kind tag 3"
    );
}

#[test]
fn written_records_are_read_back_at_their_revision() {
    let filesystem_id = FilesystemId::from_u128(1);
    let record = orphan();
    let key = RecordKey::Orphan(filesystem_id, InodeId::from_u128(2));
    let revision = StateRevision::new(12).unwrap();
    let row = prepare_public_record(&key, &record, revision).unwrap();
    let (read_key, read_record) = row.decode(StateLimits::default()).unwrap();
    assert_eq!(read_key, key);
    let (StateRecord::Orphan(before), StateRecord::Orphan(after)) = (record, read_record) else {
        panic!("orphans were expected");
    };
    assert_eq!(after.revision.value, 12);
    assert_eq!(OrphanRecord { revision: before.revision, ..after }, before);
}
