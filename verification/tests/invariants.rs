use w9pt_fs_state_postgres::ancestry::{AncestorRow, AncestryWalk, WalkStep};
use w9pt_fs_state_postgres::failure::{AdapterFailureKind, FailureCause};
use w9pt_fs_state_postgres::ids::{
    ClientIncarnationId, DirectoryCookie, FencingToken, FilesystemId, InodeId, LeaseId, MutationId,
    MutationRetention, OpenId, RecordRevision, RequestFingerprint, WriterIncarnationId,
    WriterScopeId,
};
use w9pt_fs_state_postgres::invariant_sql::InvariantQuestion;
use w9pt_fs_state_postgres::invariants::{
    EntryFacts, InodeFacts, InodeSummary, InvariantCheck, PinFacts, RelationFacts, RootFacts, Stage,
};
use w9pt_fs_state_postgres::key::RecordKey;
use w9pt_fs_state_postgres::limits::StateLimits;
use w9pt_fs_state_postgres::record::{
    DirectoryEntryRecord, MutationResult, OpenPinRecord, RecordValidationError, StateRecord,
};
use w9pt_fs_state_postgres::request::{
    CommitRequest, MalformedCommit, MutationContext, StateChange, WriterFence,
};
use w9pt_fs_state_postgres::table::RecordTable;
use w9pt_fs_state_postgres::values::EntryName;

fn check(changes: Vec<StateChange>) -> InvariantCheck {
    let request = CommitRequest {
        filesystem_id: FilesystemId::from_u128(1),
        mutation: MutationContext {
            mutation_id: MutationId::from_u128(2),
            fingerprint: RequestFingerprint::new([9; 32]),
            client_incarnation: ClientIncarnationId::from_u128(3),
            retention: MutationRetention::new(4),
        },
        fence: WriterFence {
            scope: WriterScopeId::from_u128(5),
            holder: WriterIncarnationId::from_u128(6),
            lease_id: LeaseId::from_u128(7),
            fencing_token: FencingToken::new(8).unwrap(),
        },
        preconditions: vec![],
        changes,
        terminal_result: MutationResult { kind: 1, format: 1, bytes: b"ok".to_vec() },
    };
    InvariantCheck::start(&request, &RecordTable::new(), StateLimits::default())
}

fn id(value: u128) -> Vec<u8> {
    InodeId::from_u128(value).to_vec()
}

fn entry(parent: u128, child: u128, cookie: u64) -> StateChange {
    let filesystem_id = FilesystemId::from_u128(1);
    let name = EntryName { bytes: b"name".to_vec() };
    StateChange::Insert {
        key: RecordKey::DirectoryEntry(filesystem_id, InodeId::from_u128(parent), name.clone()),
        record: StateRecord::DirectoryEntry(DirectoryEntryRecord {
            parent_inode_id: InodeId::from_u128(parent),
            name,
            child_inode_id: InodeId::from_u128(child),
            cookie: DirectoryCookie::new(cookie),
            revision: RecordRevision::new(1).unwrap(),
        }),
    }
}

fn root(inode_id: u128) -> RelationFacts {
    RelationFacts::Root(RootFacts {
        root_inode_id: Some(id(inode_id)),
        root_kind: Some(Some(2)),
        has_entries: true,
    })
}

fn entry_facts(parent_kind: Option<i16>, child_exists: bool, cookie: Option<&str>) -> RelationFacts {
    RelationFacts::Entry(EntryFacts {
        parent_kind,
        child_exists,
        next_cookie: cookie.map(str::to_owned),
    })
}

fn inode(kind: i16, links: &str, entries: &str, parent: Option<u128>) -> RelationFacts {
    RelationFacts::Inode(InodeFacts {
        summary: Some(InodeSummary {
            kind,
            link_count: links.to_owned(),
            directory_parent: parent.map(id),
        }),
        has_dependents: false,
        namespace_links: entries.to_owned(),
        parent_kind: Some(2),
        parent_links: "1".to_owned(),
    })
}

fn pins(count: &str, orphan: Option<&str>) -> RelationFacts {
    RelationFacts::Pins(PinFacts {
        pin_count: count.to_owned(),
        orphan_count: orphan.map(str::to_owned),
    })
}

fn invalid(relation: &'static str) -> MalformedCommit {
    MalformedCommit::InvalidRecord(RecordValidationError::InvalidRelatedRecord { relation })
}

fn missing(relation: &'static str) -> MalformedCommit {
    MalformedCommit::InvalidRecord(RecordValidationError::MissingRelatedRecord { relation })
}

#[test]
fn the_root_is_a_directory_with_a_header() {
    for (root_inode_id, root_kind, has_entries, expected) in [
        (None, None, false, None),
        (Some(id(2)), Some(Some(2)), true, None),
        (None, None, true, Some(missing("directory-entry filesystem header"))),
        (Some(id(2)), Some(None), false, Some(invalid("filesystem root inode"))),
        (Some(id(2)), Some(Some(1)), false, Some(invalid("filesystem root is not a directory"))),
    ] {
        let mut check = check(vec![]);
        let facts = RelationFacts::Root(RootFacts { root_inode_id, root_kind, has_entries });
        let passed = expected.is_none();
        assert_eq!(check.answer(&facts).unwrap(), expected);
        assert_eq!(check.stage, if passed { Stage::Done } else { Stage::Root });
    }
    let mut check = check(vec![]);
    let facts = RelationFacts::Root(RootFacts {
        root_inode_id: Some(vec![1; 15]),
        root_kind: Some(Some(2)),
        has_entries: false,
    });
    let error = check.answer(&facts).unwrap_err();
    assert_eq!(error.kind(), AdapterFailureKind::Corruption);
    assert_eq!(error.detail.cause, FailureCause::InodeWidth(15));
    assert_eq!(error.detail.text(), "inode identity has 15 bytes instead of 16");
}

#[test]
fn a_written_entry_has_a_directory_a_child_and_an_allocated_cookie() {
    for (facts, expected) in [
        (entry_facts(Some(2), true, Some("8")), None),
        (entry_facts(None, true, Some("8")), Some(missing("directory-entry parent inode"))),
        (
            entry_facts(Some(1), true, Some("8")),
            Some(invalid("directory-entry parent is not a directory")),
        ),
        (entry_facts(Some(2), false, Some("8")), Some(missing("directory-entry child inode"))),
        (entry_facts(Some(2), true, None), Some(missing("directory-entry filesystem header"))),
        (
            entry_facts(Some(2), true, Some("7")),
            Some(invalid("directory-entry cookie was not allocated before next cookie")),
        ),
    ] {
        let mut check = check(vec![entry(2, 4, 7)]);
        check.answer(&root(2)).unwrap();
        assert_eq!(check.stage, Stage::Entry(0));
        let passed = expected.is_none();
        assert_eq!(check.answer(&facts).unwrap(), expected);
        assert_eq!(check.stage, if passed { Stage::Inode(0) } else { Stage::Entry(0) });
    }
    let mut check = check(vec![entry(2, 4, 7)]);
    check.answer(&root(2)).unwrap();
    let error = check.answer(&entry_facts(Some(2), true, Some("08"))).unwrap_err();
    assert_eq!(error.kind(), AdapterFailureKind::Corruption);
}

#[test]
fn links_pins_and_orphans_agree() {
    let concerned = vec![StateChange::BumpInodeGeneration(InodeId::from_u128(4))];
    for (links, entries, expected) in [
        ("1", "1", None),
        ("2", "1", Some(invalid("inode link count differs from namespace references"))),
    ] {
        let mut check = check(concerned.clone());
        check.answer(&root(2)).unwrap();
        let passed = expected.is_none();
        assert_eq!(check.answer(&inode(1, links, entries, None)).unwrap(), expected);
        assert_eq!(check.stage, if passed { Stage::Pins(0) } else { Stage::Inode(0) });
    }
    for (links, count, orphan, expected) in [
        ("1", "3", None, None),
        ("1", "3", Some("3"), Some(invalid("orphan inode still has links"))),
        ("0", "3", Some("3"), None),
        ("0", "3", Some("2"), Some(invalid("orphan open-pin count mismatch"))),
        ("0", "0", None, Some(invalid("unpinned zero-link inode was not retired"))),
        ("0", "3", None, Some(missing("pinned zero-link inode orphan"))),
    ] {
        let mut check = check(concerned.clone());
        check.answer(&root(2)).unwrap();
        check.answer(&inode(1, links, links, None)).unwrap();
        assert_eq!(check.answer(&pins(count, orphan)).unwrap(), expected);
    }
}

#[test]
fn a_directory_has_one_entry_in_its_parent() {
    let mut check = check(vec![StateChange::BumpDirectoryGeneration(InodeId::from_u128(4))]);
    check.answer(&root(2)).unwrap();
    assert_eq!(
        check.answer(&inode(2, "1", "2", Some(2))).unwrap(),
        Some(invalid("directory must have exactly one entry in its authoritative parent"))
    );
    assert_eq!(check.answer(&inode(2, "1", "1", Some(2))).unwrap(), None);
    assert_eq!(check.stage, Stage::Ancestry(0));
    let InvariantQuestion::Ancestor(question) = check.question() else {
        panic!("expected the way to the root");
    };
    assert_eq!(question.values.len(), 2);

    let stored = AncestorRow { kind: 2, parent: Some(id(2)) };
    assert_eq!(check.answer(&RelationFacts::Ancestor(Some(stored.clone()))).unwrap(), None);
    assert_eq!(check.stage, Stage::Ancestry(0));
    assert_eq!(check.answer(&RelationFacts::Ancestor(Some(stored))).unwrap(), None);
    assert_eq!(check.stage, Stage::Pins(0));
}

#[test]
fn a_retired_inode_leaves_nothing_behind() {
    let facts = |has_dependents: bool| {
        RelationFacts::Inode(InodeFacts {
            summary: None,
            has_dependents,
            namespace_links: "0".to_owned(),
            parent_kind: None,
            parent_links: "0".to_owned(),
        })
    };
    let mut check = check(vec![StateChange::BumpInodeGeneration(InodeId::from_u128(4))]);
    check.answer(&root(2)).unwrap();
    assert_eq!(
        check.answer(&facts(true)).unwrap(),
        Some(missing("authoritative inode dependency"))
    );
    assert_eq!(check.answer(&facts(false)).unwrap(), None);
    assert_eq!(check.stage, Stage::Done);
    assert_eq!(check.question(), InvariantQuestion::Nothing);
}

#[test]
fn an_open_handle_that_is_gone_has_no_dependents() {
    let filesystem_id = FilesystemId::from_u128(1);
    let inode_id = InodeId::from_u128(4);
    let open_id = OpenId::from_u128(9);
    let mut check = check(vec![StateChange::Insert {
        key: RecordKey::OpenPin(filesystem_id, inode_id, open_id),
        record: StateRecord::OpenPin(OpenPinRecord {
            inode_id,
            open_id,
            revision: RecordRevision::new(1).unwrap(),
        }),
    }]);
    check.answer(&root(2)).unwrap();
    check.answer(&inode(1, "1", "1", None)).unwrap();
    check.answer(&pins("1", None)).unwrap();
    assert_eq!(check.stage, Stage::Open(0));
    assert_eq!(
        check.answer(&RelationFacts::Open(true)).unwrap(),
        Some(missing("open-dependent record"))
    );
    assert_eq!(check.answer(&RelationFacts::Open(false)).unwrap(), None);
    assert_eq!(check.stage, Stage::Done);
}

fn directory(parent: u128) -> Option<AncestorRow> {
    Some(AncestorRow { kind: 2, parent: Some(id(parent)) })
}

fn walk(start: u128, maximum: u32) -> AncestryWalk {
    AncestryWalk::new(InodeId::from_u128(start), InodeId::from_u128(1), maximum)
}

#[test]
fn the_walk_limit_counts_parent_edges() {
    let mut exact = walk(3, 2);
    assert_eq!(exact.visit(&directory(2)).unwrap(), WalkStep::Read);
    assert_eq!(exact.visit(&directory(1)).unwrap(), WalkStep::Read);
    assert_eq!(exact.visit(&directory(1)).unwrap(), WalkStep::Accepted);

    let mut short = walk(3, 1);
    assert_eq!(short.visit(&directory(2)).unwrap(), WalkStep::Read);
    assert_eq!(
        short.visit(&directory(1)).unwrap(),
        WalkStep::Refused(MalformedCommit::InvalidRecord(
            RecordValidationError::DirectoryAncestorLimit { maximum: 1 }
        ))
    );
}

#[test]
fn a_walk_refuses_cycles_and_foreign_ancestors() {
    let mut cycle = walk(3, 9);
    assert_eq!(cycle.visit(&directory(2)).unwrap(), WalkStep::Read);
    assert_eq!(
        cycle.visit(&directory(3)).unwrap(),
        WalkStep::Refused(MalformedCommit::InvalidRecord(
            RecordValidationError::DirectoryCycle { inode_id: InodeId::from_u128(3) }
        ))
    );
    assert_eq!(
        walk(3, 9).visit(&None).unwrap(),
        WalkStep::Refused(missing("directory ancestor inode"))
    );
    assert_eq!(
        walk(3, 9).visit(&Some(AncestorRow { kind: 1, parent: None })).unwrap(),
        WalkStep::Refused(invalid("directory ancestor is not a directory"))
    );
    assert_eq!(
        walk(3, 9).visit(&Some(AncestorRow { kind: 2, parent: None })).unwrap(),
        WalkStep::Refused(missing("directory parent inode"))
    );
    assert_eq!(
        walk(1, 9).visit(&directory(2)).unwrap(),
        WalkStep::Refused(invalid("filesystem root directory is not self-parented"))
    );
}
