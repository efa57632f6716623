use w9pt_fs_state_postgres::ids::{
    InvalidValue,
    ClientIncarnationId, ContentContextId, Digest, DirectoryCookie, DirectoryGeneration,
    FencingToken, FileId, FilesystemId, InodeGeneration, InodeId, LeaseDeadline, LeaseId,
    LockGeneration, LockId, MutationId, MutationRetention, OpenId, QidPath, RecordRevision,
    RequestFingerprint, StateRevision, UnixTimestamp, WriterIncarnationId, WriterScopeId,
    XattrStagingId,
};
use w9pt_fs_state_postgres::key::RecordKey;
use w9pt_fs_state_postgres::limits::{StateLimitValues, StateLimits};
use w9pt_fs_state_postgres::numeric::NumericCodecError;
use w9pt_fs_state_postgres::record::{
    ContentMetadataRecord, ContentRef, DeviceNumbers, DirectoryEntryRecord, FilesystemRecord,
    InodeData, InodeKind, InodeRecord, InodeTimes, LockKind, LockOwner, LockRange, LockRecord,
    MutationRecord, MutationResult, ObjectKey, OpenAccess, OpenPinRecord, OpenRecord, OrphanRecord,
    RecordValidationError, StateRecord, StorageMethod, WriterLeaseRecord, XattrRecord,
    XattrStagingRecord,
};
use w9pt_fs_state_postgres::row_codec::{
    decode_u16, decode_u32, encode_lock_kind, encode_open_access, fixed_bytes, is_encodable,
    RowCodecError,
};
use w9pt_fs_state_postgres::rows::SqlStateRecord;
use w9pt_fs_state_postgres::values::{
    BoundedValueError, EntryName, GroupId, PrincipalId, SymlinkTarget, XattrName, XattrValue,
};

fn revision() -> RecordRevision {
    RecordRevision::new(17).unwrap()
}

fn times() -> InodeTimes {
    InodeTimes {
        accessed: UnixTimestamp::new(i64::MIN, 0).unwrap(),
        modified: UnixTimestamp::new(-1, 1).unwrap(),
        changed: UnixTimestamp::new(0, 999_999_999).unwrap(),
        created: UnixTimestamp::new(i64::MAX, 42).unwrap(),
    }
}

fn inode(inode_id: InodeId, logical_size: u64, data: InodeData, limits: StateLimits) -> InodeRecord {
    let content_context_id = if data.kind() == InodeKind::RegularFile {
        Some(ContentContextId::new(inode_id.as_bytes()))
    } else {
        None
    };
    InodeRecord::checked(InodeRecord {
        inode_id,
        qid_path: QidPath::new(1).unwrap(),
        revision: revision(),
        mode: 0o6754,
        owner: PrincipalId::new(b"owner".to_vec(), limits).unwrap(),
        group: GroupId::new(b"group".to_vec(), limits).unwrap(),
        times: times(),
        logical_size,
        link_count: u64::MAX,
        inode_generation: InodeGeneration::new(u64::MAX).unwrap(),
        content_context_id,
        data,
    })
    .unwrap()
}

fn all_records(limits: StateLimits) -> Vec<(RecordKey, StateRecord)> {
    let filesystem_id = FilesystemId::from_u128(1);
    let mut records = Vec::new();
    records.push((
        RecordKey::Filesystem(filesystem_id),
        StateRecord::Filesystem(
            FilesystemRecord {
                filesystem_id,
                revision: StateRevision::new(u64::MAX).unwrap(),
                record_revision: revision(),
                root_inode_id: InodeId::from_u128(2),
                next_qid_path: QidPath::new(u64::MAX).unwrap(),
                next_directory_cookie: DirectoryCookie::new(u64::MAX),
                policy_generation: u64::MAX,
            }
            .checked()
            .unwrap(),
        ),
    ));

    let content_file_id = FileId::from_u128(3);
    let content = ContentRef::from_persisted(
        content_file_id,
        u64::MAX,
        3,
        ObjectKey::new("private/manifest".to_owned()).unwrap(),
        Digest::new([0xa5; 32]),
        StorageMethod::BlockSplit,
    )
    .unwrap();
    let inode_data = [
        (
            10,
            0,
            InodeData::RegularFile { content_file_id, content: None, data_generation: 0 },
        ),
        (
            11,
            3,
            InodeData::RegularFile {
                content_file_id,
                content: Some(content),
                data_generation: u64::MAX,
            },
        ),
        (
            12,
            0,
            InodeData::Directory {
                generation: DirectoryGeneration::new(u64::MAX).unwrap(),
                parent_inode_id: InodeId::from_u128(12),
            },
        ),
        (
            13,
            4,
            InodeData::Symlink { target: SymlinkTarget::new(b"dest".to_vec(), limits).unwrap() },
        ),
        (14, 0, InodeData::CharacterDevice(DeviceNumbers { major: u32::MAX, minor: 0 })),
        (15, 0, InodeData::BlockDevice(DeviceNumbers { major: 0, minor: u32::MAX })),
        (16, 0, InodeData::Fifo),
        (17, 0, InodeData::Socket),
    ];
    for (id, logical_size, data) in inode_data {
        let inode_id = InodeId::from_u128(id);
        records.push((
            RecordKey::Inode(filesystem_id, inode_id),
            StateRecord::Inode(inode(inode_id, logical_size, data, limits)),
        ));
    }

    let parent = InodeId::from_u128(20);
    let name = EntryName::new(b"entry".to_vec(), limits).unwrap();
    records.push((
        RecordKey::DirectoryEntry(filesystem_id, parent, name.clone()),
        StateRecord::DirectoryEntry(DirectoryEntryRecord {
            parent_inode_id: parent,
            name,
            cookie: DirectoryCookie::new(u64::MAX),
            child_inode_id: InodeId::from_u128(21),
            revision: revision(),
        }),
    ));
    let open_id = OpenId::from_u128(22);
    records.push((
        RecordKey::Open(filesystem_id, open_id),
        StateRecord::Open(OpenRecord {
            open_id,
            inode_id: InodeId::from_u128(23),
            client_incarnation: ClientIncarnationId::from_u128(24),
            access: OpenAccess::DirectoryRead,
            append: true,
            retained_inode_generation: InodeGeneration::new(u64::MAX).unwrap(),
            revision: revision(),
        }),
    ));
    records.push((
        RecordKey::OpenPin(filesystem_id, InodeId::from_u128(23), open_id),
        StateRecord::OpenPin(OpenPinRecord {
            inode_id: InodeId::from_u128(23),
            open_id,
            revision: revision(),
        }),
    ));
    records.push((
        RecordKey::Orphan(filesystem_id, InodeId::from_u128(25)),
        StateRecord::Orphan(OrphanRecord {
            inode_id: InodeId::from_u128(25),
            open_pin_count: u64::MAX,
            orphaned_revision: StateRevision::new(u64::MAX).unwrap(),
            revision: revision(),
        }),
    ));
    let lock_id = LockId::from_u128(26);
    records.push((
        RecordKey::Lock(filesystem_id, InodeId::from_u128(27), lock_id),
        StateRecord::Lock(LockRecord {
            lock_id,
            inode_id: InodeId::from_u128(27),
            range: LockRange::finite(u64::MAX - 1, u64::MAX).unwrap(),
            kind: LockKind::Exclusive,
            owner: LockOwner {
                client_incarnation: ClientIncarnationId::from_u128(28),
                open_id: OpenId::from_u128(29),
            },
            generation: LockGeneration::new(u64::MAX).unwrap(),
            revision: revision(),
        }),
    ));
    let xattr_name = XattrName::new(b"user.name".to_vec(), limits).unwrap();
    records.push((
        RecordKey::Xattr(filesystem_id, InodeId::from_u128(30), xattr_name.clone()),
        StateRecord::Xattr(XattrRecord {
            inode_id: InodeId::from_u128(30),
            name: xattr_name.clone(),
            value: XattrValue::new(Vec::new(), limits).unwrap(),
            revision: revision(),
        }),
    ));
    let staging_id = XattrStagingId::from_u128(31);
    records.push((
        RecordKey::XattrStaging(filesystem_id, staging_id),
        StateRecord::XattrStaging(XattrStagingRecord {
            staging_id,
            inode_id: InodeId::from_u128(30),
            name: xattr_name,
            expected_size: 3,
            bytes: XattrValue::new(b"xy".to_vec(), limits).unwrap(),
            revision: revision(),
        }),
    ));
    let mutation_id = MutationId::from_u128(32);
    records.push((
        RecordKey::Mutation(filesystem_id, mutation_id),
        StateRecord::Mutation(MutationRecord {
            filesystem_id,
            mutation_id,
            fingerprint: RequestFingerprint::new([0x5a; 32]),
            client_incarnation: ClientIncarnationId::from_u128(33),
            writer_scope: WriterScopeId::from_u128(34),
            writer_incarnation: WriterIncarnationId::from_u128(35),
            fencing_token: FencingToken::new(u64::MAX).unwrap(),
            result: MutationResult {
                kind: u16::MAX,
                format: u16::MAX,
                bytes: b"result".to_vec(),
            },
            committed_revision: StateRevision::new(u64::MAX).unwrap(),
            retention: MutationRetention::new(u64::MAX),
            revision: revision(),
        }),
    ));
    records.push((
        RecordKey::WriterLease(filesystem_id, WriterScopeId::from_u128(36)),
        StateRecord::WriterLease(WriterLeaseRecord {
            filesystem_id,
            scope: WriterScopeId::from_u128(36),
            holder: WriterIncarnationId::from_u128(37),
            lease_id: LeaseId::from_u128(38),
            deadline: LeaseDeadline::new(u64::MAX),
            fencing_token: FencingToken::new(u64::MAX).unwrap(),
            revision: revision(),
        }),
    ));
    records
}

fn with_content(record: &StateRecord) -> bool {
    matches!(
        record,
        StateRecord::Inode(inode)
            if matches!(&inode.data, InodeData::RegularFile { content: Some(_), .. })
    )
}

#[test]
fn every_record_and_inode_variant_round_trips_losslessly() {
    let limits = StateLimits::default();
    for (key, record) in all_records(limits) {
        assert!(is_encodable(&record));
        let row = SqlStateRecord::encode(&key, &record).unwrap();
        assert_eq!(row.decode(limits), Ok((key, record)));
    }
}

#[test]
fn content_metadata_round_trips_with_and_without_a_key() {
    let limits = StateLimits::default();
    let filesystem_id = FilesystemId::from_u128(1);
    let content_file_id = FileId::from_u128(40);
    let plain = ContentMetadataRecord {
        owner_inode_id: InodeId::from_u128(41),
        content_file_id,
        context_id: ContentContextId::from_u128(42),
        policy_format: u16::MAX,
        policy_bytes: b"policy".to_vec(),
        key_commitment: None,
        wrapped_key_bytes: None,
        revision: revision(),
    };
    let keyed = ContentMetadataRecord {
        key_commitment: Some(Digest::new([7; 32])),
        wrapped_key_bytes: Some(b"wrapped".to_vec()),
        ..plain.clone()
    };
    for metadata in [plain, keyed] {
        let key = RecordKey::ContentMetadata(filesystem_id, content_file_id);
        let record = StateRecord::ContentMetadata(metadata);
        let row = SqlStateRecord::encode(&key, &record).unwrap();
        assert_eq!(row.decode(limits), Ok((key, record)));
    }
}

#[test]
fn through_eof_and_every_small_enum_tag_round_trip() {
    let limits = StateLimits::default();
    let filesystem_id = FilesystemId::from_u128(1);
    for access in [
        OpenAccess::ReadOnly,
        OpenAccess::WriteOnly,
        OpenAccess::ReadWrite,
        OpenAccess::DirectoryRead,
    ] {
        let open_id = OpenId::from_u128(u128::from(encode_open_access(access) as u16));
        let key = RecordKey::Open(filesystem_id, open_id);
        let record = StateRecord::Open(OpenRecord {
            open_id,
            inode_id: InodeId::from_u128(2),
            client_incarnation: ClientIncarnationId::from_u128(3),
            access,
            append: false,
            retained_inode_generation: InodeGeneration::new(1).unwrap(),
            revision: revision(),
        });
        assert_eq!(
            SqlStateRecord::encode(&key, &record).unwrap().decode(limits),
            Ok((key, record))
        );
    }
    for kind in [LockKind::Shared, LockKind::Exclusive] {
        let lock_id = LockId::from_u128(u128::from(encode_lock_kind(kind) as u16));
        let inode_id = InodeId::from_u128(4);
        let key = RecordKey::Lock(filesystem_id, inode_id, lock_id);
        let record = StateRecord::Lock(LockRecord {
            lock_id,
            inode_id,
            range: LockRange::through_eof(u64::MAX),
            kind,
            owner: LockOwner {
                client_incarnation: ClientIncarnationId::from_u128(5),
                open_id: OpenId::from_u128(6),
            },
            generation: LockGeneration::new(1).unwrap(),
            revision: revision(),
        });
        assert_eq!(
            SqlStateRecord::encode(&key, &record).unwrap().decode(limits),
            Ok((key, record))
        );
    }
}

#[test]
fn malformed_width_tags_and_optional_content_are_rejected() {
    let limits = StateLimits::default();
    let (key, record) =
        all_records(limits).into_iter().find(|(_, record)| with_content(record)).unwrap();
    let SqlStateRecord::Inode(mut row) = SqlStateRecord::encode(&key, &record).unwrap() else {
        unreachable!();
    };
    row.content_manifest_digest = None;
    assert!(matches!(
        SqlStateRecord::Inode(row).decode(limits),
        Err(RowCodecError::InvalidShape { .. })
    ));

    let SqlStateRecord::Inode(mut row) = SqlStateRecord::encode(&key, &record).unwrap() else {
        unreachable!();
    };
    row.kind = 99;
    assert!(matches!(
        SqlStateRecord::Inode(row).decode(limits),
        Err(RowCodecError::UnknownTag { field: "inode kind", tag: 99 })
    ));

    let SqlStateRecord::Inode(mut row) = SqlStateRecord::encode(&key, &record).unwrap() else {
        unreachable!();
    };
    row.inode_id.pop();
    assert!(matches!(
        SqlStateRecord::Inode(row).decode(limits),
        Err(RowCodecError::FixedWidth { field: "inode_id", expected: 16, actual: 15 })
    ));
}

#[test]
fn content_summary_and_receiver_limits_are_revalidated() {
    let limits = StateLimits::default();
    let (key, record) =
        all_records(limits).into_iter().find(|(_, record)| with_content(record)).unwrap();
    let SqlStateRecord::Inode(mut row) = SqlStateRecord::encode(&key, &record).unwrap() else {
        unreachable!();
    };
    row.content_logical_size = Some("4".to_owned());
    assert!(matches!(
        SqlStateRecord::Inode(row).decode(limits),
        Err(RowCodecError::InvalidRecord(RecordValidationError::ContentSizeMismatch { .. }))
    ));

    let loose = StateLimits::new(StateLimitValues {
        max_principal_bytes: limits.max_principal_bytes() + 1,
        ..limits.values()
    });
    let inode_id = InodeId::from_u128(80);
    let oversized = InodeRecord::checked(InodeRecord {
        inode_id,
        qid_path: QidPath::new(1).unwrap(),
        revision: revision(),
        mode: 0o644,
        owner: PrincipalId::new(vec![b'p'; loose.max_principal_bytes()], loose).unwrap(),
        group: GroupId::new(b"g".to_vec(), loose).unwrap(),
        times: times(),
        logical_size: 0,
        link_count: 1,
        inode_generation: InodeGeneration::new(1).unwrap(),
        content_context_id: None,
        data: InodeData::Fifo,
    })
    .unwrap();
    let key = RecordKey::Inode(FilesystemId::from_u128(1), inode_id);
    let row = SqlStateRecord::encode(&key, &StateRecord::Inode(oversized)).unwrap();
    assert!(matches!(
        row.decode(limits),
        Err(RowCodecError::Bounded(BoundedValueError::Limit(_)))
    ));
}

#[test]
fn mismatched_key_and_record_are_rejected_before_encoding() {
    let limits = StateLimits::default();
    let (key, record) = all_records(limits)
        .into_iter()
        .find(|(_, record)| matches!(record, StateRecord::Open(_)))
        .unwrap();
    let wrong_key = match key {
        RecordKey::Open(filesystem_id, _) => RecordKey::Open(filesystem_id, OpenId::from_u128(999)),
        _ => unreachable!(),
    };
    assert!(matches!(
        SqlStateRecord::encode(&wrong_key, &record),
        Err(RowCodecError::InvalidRecord(RecordValidationError::KeyIdentityMismatch))
    ));
}

#[test]
fn signed_columns_keep_their_unsigned_ranges() {
    assert_eq!(decode_u32("mode", i64::from(u32::MAX)), Ok(u32::MAX));
    assert_eq!(
        decode_u32("mode", -1),
        Err(RowCodecError::IntegerRange { field: "mode", value: -1 })
    );
    assert_eq!(decode_u16("format", 65_535), Ok(u16::MAX));
    assert_eq!(
        decode_u16("format", 65_536),
        Err(RowCodecError::IntegerRange { field: "format", value: 65_536 })
    );
    assert!(matches!(
        fixed_bytes("digest", &vec![0; 31]),
        Err(RowCodecError::FixedWidth { field: "digest", expected: 32, actual: 31 })
    ));
}

#[test]
fn row_failures_say_what_is_wrong() {
    let cases = [
        (
            RowCodecError::FixedWidth { field: "inode_id", expected: 16, actual: 15 },
            "inode_id has 15 bytes, expected 16",
        ),
        (
            RowCodecError::IntegerRange { field: "mode", value: -1 },
            "mode value -1 is outside its unsigned range",
        ),
        (RowCodecError::UnknownTag { field: "inode kind", tag: 9 }, "unknown inode kind tag 9"),
        (
            RowCodecError::MissingField { record: "inode", field: "symlink_target" },
            "inode row is missing symlink_target",
        ),
        (
            RowCodecError::InvalidShape { record: "inode", detail: "too many columns" },
            "invalid inode row shape: too many columns",
        ),
        (
            RowCodecError::Numeric(NumericCodecError { field: "qid_path", value: "01".to_owned() }),
            "qid_path value \"01\" is not canonical unsigned decimal",
        ),
        (RowCodecError::InvalidValue(InvalidValue::Zero), "value must be nonzero"),
    ];
    for (error, text) in cases {
        assert_eq!(error.text(), text);
    }
}
