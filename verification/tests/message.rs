use w9pt_fs_state_postgres::failure::{
    AdapterFailureKind, FailureCause, FailureDetail, PostgresStateError, StateStoreOperation,
};
use w9pt_fs_state_postgres::ids::{
    DirectoryCookie, FilesystemId, InodeId, InvalidValue, OpenId, QidPath,
};
use w9pt_fs_state_postgres::key::RecordKey;
use w9pt_fs_state_postgres::key_codec::KeyCodecError;
use w9pt_fs_state_postgres::limits::{StateLimitError, StateLimitKind};
use w9pt_fs_state_postgres::numeric::NumericCodecError;
use w9pt_fs_state_postgres::query::{OpenPinCursor, ScanResume};
use w9pt_fs_state_postgres::record::RecordValidationError;
use w9pt_fs_state_postgres::request::{MalformedCommit, PublishContentError};
use w9pt_fs_state_postgres::row_codec::RowCodecError;
use w9pt_fs_state_postgres::values::BoundedValueError;

const ZERO: &str = "00000000000000000000000000000000";

fn id(value: u128) -> String {
    format!("{value:032x}")
}

fn pin() -> RecordKey {
    RecordKey::OpenPin(FilesystemId { value: 1 }, InodeId { value: 2 }, OpenId { value: 255 })
}

fn detail(context: &'static str, cause: FailureCause) -> String {
    FailureDetail { context, cause }.text()
}

#[test]
fn details_join_context_and_cause() {
    assert_eq!(detail("record insert affected no row", FailureCause::Plain), "record insert affected no row");
    assert_eq!(
        detail("unknown change origin tag", FailureCause::Ending(-3)),
        "unknown change origin tag -3"
    );
    assert_eq!(
        detail("invalid directory scan cookie", FailureCause::Word("zero")),
        "invalid directory scan cookie: zero"
    );
    assert_eq!(
        detail("directory-page byte total overflowed", FailureCause::Word("")),
        "directory-page byte total overflowed: "
    );
    assert_eq!(detail("", FailureCause::Count(7)), "7");
    assert_eq!(
        detail("invalid SQL scan retained-byte estimate", FailureCause::Signed(-1)),
        "invalid SQL scan retained-byte estimate: -1"
    );
}

#[test]
fn causes_name_both_numbers() {
    let cases = [
        (
            FailureCause::Width { field: "lock_id", actual: 3 },
            "lock_id has 3 bytes, expected 16",
        ),
        (
            FailureCause::GrantWidth { field: "grant_scope_id", actual: 15 },
            "grant_scope_id has width 15, expected 16",
        ),
        (FailureCause::InodeWidth(17), "inode identity has 17 bytes instead of 16"),
        (
            FailureCause::Gap { after: 4, found: 6 },
            "noncontiguous change history after revision 4: found 6",
        ),
        (
            FailureCause::HistoryEnd { last: 4, current: 9 },
            "change history ends at revision 4 before current revision 9",
        ),
        (
            FailureCause::FewerKeys { revision: 5, count: 3 },
            "change revision 5 has fewer than 3 keys",
        ),
        (
            FailureCause::UnexpectedKey { revision: 5, ordinal: 2 },
            "unexpected change key at revision 5 ordinal 2",
        ),
        (FailureCause::PointWrite(2), "point record write affected 2 rows"),
        (
            FailureCause::OneRow { action: "authority-head update", affected: 0 },
            "authority-head update affected 0 rows, expected one",
        ),
        (
            FailureCause::Numeric(NumericCodecError { field: "f", value: "x".to_owned() }),
            "f value \"x\" is not canonical unsigned decimal",
        ),
        (FailureCause::Value(InvalidValue::Exhausted), "value exhausted its u64 range"),
        (
            FailureCause::Bounded(BoundedValueError::Limit(StateLimitError {
                kind: StateLimitKind::EntryName,
                actual: 300,
                maximum: 255,
            })),
            "EntryName value 300 exceeds limit 255",
        ),
        (
            FailureCause::Row(RowCodecError::InvalidRecord(RecordValidationError::ContentSizeMismatch {
                inode: 1,
                content: 2,
            })),
            "logical size 1 differs from content size 2",
        ),
        (
            FailureCause::Key(KeyCodecError::Bounded(BoundedValueError::Nul)),
            "value holds a NUL byte",
        ),
        (FailureCause::Database("lost".to_owned()), "lost"),
        (FailureCause::Control("absent".to_owned()), "absent"),
        (FailureCause::Refusal("stale".to_owned()), "stale"),
    ];
    for (cause, text) in cases {
        assert_eq!(detail("", cause), text);
    }
}

#[test]
fn keys_and_positions_are_written_in_hexadecimal() {
    let text = format!("OpenPin({}, {}, {})", id(1), id(2), id(255));
    assert_eq!(pin().text(), text);
    assert_eq!(
        RecordKey::Filesystem(FilesystemId { value: 16 }).text(),
        format!("Filesystem({}, , )", id(16))
    );
    assert_eq!(detail("", FailureCause::Record(pin())), format!("key {text}"));
    assert_eq!(
        detail("", FailureCause::Path { path: QidPath { value: 9 }, actual: pin() }),
        format!("query 9, decoded {text}")
    );
    assert_eq!(
        detail("", FailureCause::Mismatch { expected: pin(), actual: pin() }),
        format!("expected {text}, decoded {text}")
    );
    assert_eq!(
        detail("", FailureCause::Estimate { key: pin(), stored: 5, decoded: 6 }),
        format!("key {text}: SQL 5, decoded 6")
    );
    let previous = ScanResume::DirectoryEntry(DirectoryCookie { value: 10 });
    let next = ScanResume::OpenPin(OpenPinCursor {
        inode_id: InodeId { value: 1 },
        open_id: OpenId { value: 2 },
    });
    assert_eq!(
        detail("", FailureCause::Order { previous, next }),
        format!(
            "previous DirectoryEntry({}, {ZERO}, ), next OpenPin({}, {}, )",
            id(10),
            id(1),
            id(2)
        )
    );
    assert_eq!(
        detail("", FailureCause::Malformed(MalformedCommit::DuplicateChangeTarget(pin()))),
        format!("changes target one record twice: {text}")
    );
    assert_eq!(
        MalformedCommit::InvalidPublication(PublishContentError::Rejected { code: 4 }).text(),
        "content does not follow the current inode: rule 4"
    );
}

#[test]
fn failures_without_a_database_error_have_no_source() {
    let error = PostgresStateError::new(
        StateStoreOperation::RenewLease,
        AdapterFailureKind::Corruption,
        "",
        FailureCause::OneRow { action: "fence update", affected: 2 },
    );
    assert!(error.source.is_none());
    assert_eq!(
        error.text(),
        "PostgreSQL Corruption failure during RenewLease: fence update affected 2 rows, expected one"
    );
}
