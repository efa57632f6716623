use w9pt_fs_state_postgres::directory_page::{
    assemble_directory_page, decode_inode_kind, DirectoryPageRow, PageOutcome,
};
use w9pt_fs_state_postgres::failure::{AdapterFailureKind, PostgresStateError, StateStoreOperation};
use w9pt_fs_state_postgres::ids::{DirectoryCookie, InodeId};
use w9pt_fs_state_postgres::limits::StateLimits;
use w9pt_fs_state_postgres::query::{DirectoryPage, ScanBounds};
use w9pt_fs_state_postgres::record::InodeKind;

fn row(name: &[u8], cookie: &str) -> DirectoryPageRow {
    DirectoryPageRow {
        name: name.to_vec(),
        cookie: cookie.to_owned(),
        child_inode_id: InodeId::from_u128(9).to_vec(),
        entry_revision: "3".to_owned(),
        kind: 2,
        qid_path: "5".to_owned(),
        child_revision: "4".to_owned(),
        retained_bytes: 192 + 2 * name.len() as i64,
    }
}

fn assembled(
    rows: &Vec<DirectoryPageRow>,
    max_items: u32,
    max_bytes: usize,
) -> Result<PageOutcome, PostgresStateError> {
    assemble_directory_page(
        rows,
        InodeId::from_u128(1),
        ScanBounds { max_items, max_bytes },
        StateLimits::default(),
    )
}

fn page(rows: &Vec<DirectoryPageRow>, max_items: u32, max_bytes: usize) -> DirectoryPage {
    match assembled(rows, max_items, max_bytes) {
        Ok(PageOutcome::Page(page)) => page,
        _ => panic!("a page was expected"),
    }
}

#[test]
fn page_holds_what_fits_and_resumes_after_its_last_entry() {
    let rows = vec![row(b"a", "10"), row(b"bb", "11"), row(b"ccc", "12")];
    let whole = page(&rows, 3, 194 + 196 + 198);
    assert_eq!(whole.entries.len(), 3);
    assert_eq!(whole.resume, None);
    assert_eq!(whole.entries[0].entry.parent_inode_id, InodeId::from_u128(1));
    assert_eq!(whole.entries[0].entry.child_inode_id, InodeId::from_u128(9));
    assert_eq!(whole.entries[2].entry.name.bytes, b"ccc");
    assert_eq!(whole.entries[2].kind, InodeKind::Directory);

    let by_items = page(&rows, 2, 1_000_000);
    assert_eq!(by_items.entries.len(), 2);
    assert_eq!(by_items.resume, Some(DirectoryCookie::new(11)));

    let by_bytes = page(&rows, 3, 194 + 196 + 197);
    assert_eq!(by_bytes.entries.len(), 2);
    assert_eq!(by_bytes.resume, Some(DirectoryCookie::new(11)));

    let empty = page(&Vec::new(), 3, 1_000);
    assert!(empty.entries.is_empty());
    assert_eq!(empty.resume, None);
}

#[test]
fn page_too_small_for_its_first_entry_says_what_it_needs() {
    assert!(matches!(
        assembled(&vec![row(b"abc", "1")], 1, 197),
        Ok(PageOutcome::TooSmall(198))
    ));
}

#[test]
fn corrupt_rows_are_reported() {
    let sound = row(b"name", "1");
    let corrupt = [
        DirectoryPageRow { name: Vec::new(), ..sound.clone() },
        DirectoryPageRow { cookie: "01".to_owned(), ..sound.clone() },
        DirectoryPageRow { child_inode_id: vec![0; 15], ..sound.clone() },
        DirectoryPageRow { entry_revision: "0".to_owned(), ..sound.clone() },
        DirectoryPageRow { kind: 8, ..sound.clone() },
        DirectoryPageRow { qid_path: "0".to_owned(), ..sound.clone() },
        DirectoryPageRow { child_revision: "-1".to_owned(), ..sound.clone() },
        DirectoryPageRow { retained_bytes: 199, ..sound.clone() },
    ];
    for row in corrupt {
        let Err(error) = assembled(&vec![row.clone()], 5, 1_000) else {
            panic!("corrupt row was accepted: {row:?}");
        };
        assert_eq!(error.operation(), StateStoreOperation::Read);
        assert_eq!(error.kind(), AdapterFailureKind::Corruption);
    }
    let zero = DirectoryPageRow { cookie: "0".to_owned(), ..sound.clone() };
    let Err(error) = assembled(&vec![zero], 5, 1_000) else {
        panic!("a zero cookie was accepted");
    };
    assert_eq!(error.detail.text(), "invalid directory-page cookie: zero");
    assert!(assembled(&vec![sound], 5, 1_000).is_ok());
}

#[test]
fn every_kind_has_one_tag() {
    let kinds = [
        InodeKind::RegularFile,
        InodeKind::Directory,
        InodeKind::Symlink,
        InodeKind::CharacterDevice,
        InodeKind::BlockDevice,
        InodeKind::Fifo,
        InodeKind::Socket,
    ];
    for (index, kind) in kinds.into_iter().enumerate() {
        assert_eq!(decode_inode_kind(index as i16 + 1).unwrap(), kind);
    }
    assert!(decode_inode_kind(0).is_err());
}
