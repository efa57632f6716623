use w9pt_fs_state_postgres::ids::{
    FileId, FilesystemId, InodeId, LockId, MutationId, OpenId, WriterScopeId, XattrStagingId,
};
use w9pt_fs_state_postgres::key::RecordKey;
use w9pt_fs_state_postgres::key_codec::{
    canonical_affected_keys, fixed_component, KeyCodecError, SqlRecordKey,
};
use w9pt_fs_state_postgres::limits::StateLimits;
use w9pt_fs_state_postgres::request::{MalformedCommit, StateChange};
use w9pt_fs_state_postgres::values::{BoundedValueError, EntryName, XattrName};

fn keys(limits: StateLimits) -> Vec<RecordKey> {
    let fs = FilesystemId::from_u128(1);
    let inode = InodeId::from_u128(2);
    vec![
        RecordKey::Filesystem(fs),
        RecordKey::Inode(fs, inode),
        RecordKey::DirectoryEntry(fs, inode, EntryName::new(b"entry".to_vec(), limits).unwrap()),
        RecordKey::Open(fs, OpenId::from_u128(3)),
        RecordKey::OpenPin(fs, inode, OpenId::from_u128(3)),
        RecordKey::Orphan(fs, inode),
        RecordKey::Lock(fs, inode, LockId::from_u128(4)),
        RecordKey::Xattr(fs, inode, XattrName::new(b"user.key".to_vec(), limits).unwrap()),
        RecordKey::XattrStaging(fs, XattrStagingId::from_u128(5)),
        RecordKey::Mutation(fs, MutationId::from_u128(6)),
        RecordKey::WriterLease(fs, WriterScopeId::from_u128(7)),
    ]
}

#[test]
fn sql_tags_round_trip_every_family_and_preserve_order() {
    let limits = StateLimits::default();
    let keys = keys(limits);
    let encoded: Vec<_> = keys.iter().map(SqlRecordKey::encode).collect();
    let mut sorted = encoded.clone();
    sorted.sort();
    assert_eq!(encoded, sorted);
    for (key, sql_key) in keys.into_iter().zip(encoded) {
        assert_eq!(sql_key.decode(limits), Ok(key));
    }
}

#[test]
fn content_metadata_keys_do_not_read_back() {
    let limits = StateLimits::default();
    let key = RecordKey::ContentMetadata(FilesystemId::from_u128(1), FileId::from_u128(8));
    let encoded = SqlRecordKey::encode(&key);
    assert_eq!(encoded.family_tag, 12);
    assert_eq!(encoded.decode(limits), Err(KeyCodecError::UnknownFamilyTag(12)));
}

#[test]
fn duplicate_affected_keys_are_rejected_canonically() {
    let filesystem_id = FilesystemId::from_u128(1);
    let inode_id = InodeId::from_u128(2);
    let changes = vec![
        StateChange::BumpInodeGeneration(inode_id),
        StateChange::BumpInodeGeneration(inode_id),
    ];
    assert!(matches!(
        canonical_affected_keys(filesystem_id, &changes),
        Err(MalformedCommit::DuplicateChangeTarget(RecordKey::Inode(_, _)))
    ));
}

#[test]
fn malformed_stored_keys_are_refused() {
    let limits = StateLimits::default();
    let stored = |family_tag: i16, component_a: Vec<u8>, component_b: Vec<u8>| SqlRecordKey {
        family_tag,
        filesystem_id: FilesystemId::from_u128(1),
        component_a,
        component_b,
    };
    assert_eq!(
        stored(99, vec![], vec![]).decode(limits),
        Err(KeyCodecError::UnknownFamilyTag(99))
    );
    assert_eq!(
        stored(1, vec![1], vec![]).decode(limits),
        Err(KeyCodecError::InvalidComponentShape { family_tag: 1 })
    );
    assert!(matches!(
        stored(2, vec![1; 15], vec![]).decode(limits),
        Err(KeyCodecError::FixedWidth { actual: 15, .. })
    ));
    assert_eq!(
        stored(3, vec![1; 16], b"a/b".to_vec()).decode(limits),
        Err(KeyCodecError::Bounded(BoundedValueError::Separator))
    );
    assert_eq!(fixed_component("inode_id", &vec![0; 16]), Ok(0));
}

#[test]
fn key_failures_say_what_is_wrong() {
    let width = KeyCodecError::FixedWidth { field: "inode_id", actual: 3 };
    assert_eq!(width.text(), "inode_id has 3 bytes, expected 16");
    assert_eq!(KeyCodecError::UnknownFamilyTag(-2).text(), "unknown record family tag -2");
    assert_eq!(
        KeyCodecError::InvalidComponentShape { family_tag: 4 }.text(),
        "invalid component shape for family tag 4"
    );
}
