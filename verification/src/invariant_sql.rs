//! Statements that read what the relations of a commit are checked against.
use vstd::prelude::*;

use crate::ids::FilesystemId;
use crate::invariants::{InvariantCheck, Stage};
use crate::statement;
use crate::statement::{query, PostgresQuery, SqlValue, StatementView};

verus! {

/// Text that reads the root of the header.
pub const ROOT_ID_SQL: &'static str =
    "SELECT \"root_inode_id\" FROM \"public\".\"w9pt_fs_state_filesystem_records\" WHERE \"filesystem_id\" = $1";

/// Text that reads the kind of the root inode.
pub const ROOT_KIND_SQL: &'static str =
    "SELECT \"root\".\"kind\" FROM \"public\".\"w9pt_fs_state_filesystem_records\" AS \"filesystem\" LEFT JOIN \"public\".\"w9pt_fs_state_inodes\" AS \"root\" ON \"root\".\"filesystem_id\" = \"filesystem\".\"filesystem_id\" AND \"root\".\"inode_id\" = \"filesystem\".\"root_inode_id\" WHERE \"filesystem\".\"filesystem_id\" = $1";

/// Text that asks whether the filesystem has directory entries.
pub const HAS_ENTRIES_SQL: &'static str =
    "SELECT EXISTS (SELECT 1 FROM \"public\".\"w9pt_fs_state_directory_entries\" WHERE \"filesystem_id\" = $1)";

/// Text that reads the kind of an inode.
pub const INODE_KIND_SQL: &'static str =
    "SELECT \"kind\" FROM \"public\".\"w9pt_fs_state_inodes\" WHERE \"filesystem_id\" = $1 AND \"inode_id\" = $2";

/// Text that asks whether an inode is there.
pub const INODE_EXISTS_SQL: &'static str =
    "SELECT 1 FROM \"public\".\"w9pt_fs_state_inodes\" WHERE \"filesystem_id\" = $1 AND \"inode_id\" = $2";

/// Text that reads the next directory cookie.
pub const NEXT_COOKIE_SQL: &'static str =
    "SELECT \"next_directory_cookie\"::text FROM \"public\".\"w9pt_fs_state_filesystem_records\" WHERE \"filesystem_id\" = $1";

/// Text that reads the client of an open handle on an inode.
pub const LOCK_OWNER_SQL: &'static str =
    "SELECT \"client_incarnation_id\" FROM \"public\".\"w9pt_fs_state_opens\" WHERE \"filesystem_id\" = $1 AND \"open_id\" = $2 AND \"inode_id\" = $3";

/// Text that reads kind, links and parent of an inode.
pub const INODE_SUMMARY_SQL: &'static str =
    "SELECT \"kind\", \"link_count\"::text, \"directory_parent_inode_id\" FROM \"public\".\"w9pt_fs_state_inodes\" WHERE \"filesystem_id\" = $1 AND \"inode_id\" = $2";

/// Text that asks whether records depend on an inode.
pub const INODE_DEPENDENTS_SQL: &'static str =
    "SELECT EXISTS (SELECT 1 FROM \"public\".\"w9pt_fs_state_directory_entries\" WHERE \"filesystem_id\" = $1 AND (\"parent_inode_id\" = $2 OR \"child_inode_id\" = $2)) OR EXISTS (SELECT 1 FROM \"public\".\"w9pt_fs_state_opens\" WHERE \"filesystem_id\" = $1 AND \"inode_id\" = $2) OR EXISTS (SELECT 1 FROM \"public\".\"w9pt_fs_state_locks\" WHERE \"filesystem_id\" = $1 AND \"inode_id\" = $2) OR EXISTS (SELECT 1 FROM \"public\".\"w9pt_fs_state_xattrs\" WHERE \"filesystem_id\" = $1 AND \"inode_id\" = $2) OR EXISTS (SELECT 1 FROM \"public\".\"w9pt_fs_state_xattr_staging\" WHERE \"filesystem_id\" = $1 AND \"inode_id\" = $2) OR EXISTS (SELECT 1 FROM \"public\".\"w9pt_fs_state_open_pins\" WHERE \"filesystem_id\" = $1 AND \"inode_id\" = $2) OR EXISTS (SELECT 1 FROM \"public\".\"w9pt_fs_state_orphans\" WHERE \"filesystem_id\" = $1 AND \"inode_id\" = $2)";

/// Text that counts the entries that refer to an inode.
pub const NAMESPACE_LINKS_SQL: &'static str =
    "SELECT pg_catalog.count(*)::numeric(20, 0)::text FROM \"public\".\"w9pt_fs_state_directory_entries\" WHERE \"filesystem_id\" = $1 AND \"child_inode_id\" = $2";

/// Text that counts the entries that refer to an inode from one parent.
pub const PARENT_LINKS_SQL: &'static str =
    "SELECT pg_catalog.count(*)::numeric(20, 0)::text FROM \"public\".\"w9pt_fs_state_directory_entries\" WHERE \"filesystem_id\" = $1 AND \"child_inode_id\" = $2 AND \"parent_inode_id\" = $3";

/// Text that counts the pins of an inode.
pub const PIN_COUNT_SQL: &'static str =
    "SELECT pg_catalog.count(*)::numeric(20, 0)::text FROM \"public\".\"w9pt_fs_state_open_pins\" WHERE \"filesystem_id\" = $1 AND \"inode_id\" = $2";

/// Text that reads the pin count of an orphan.
pub const ORPHAN_COUNT_SQL: &'static str =
    "SELECT \"open_pin_count\"::text FROM \"public\".\"w9pt_fs_state_orphans\" WHERE \"filesystem_id\" = $1 AND \"inode_id\" = $2";

/// Text that asks whether a pin or lock refers to an open handle that is not
/// there.
pub const OPEN_DEPENDENTS_SQL: &'static str =
    "SELECT EXISTS (SELECT 1 FROM \"public\".\"w9pt_fs_state_open_pins\" AS \"pin\" LEFT JOIN \"public\".\"w9pt_fs_state_opens\" AS \"open\" ON \"open\".\"filesystem_id\" = \"pin\".\"filesystem_id\" AND \"open\".\"open_id\" = \"pin\".\"open_id\" AND \"open\".\"inode_id\" = \"pin\".\"inode_id\" WHERE \"pin\".\"filesystem_id\" = $1 AND \"pin\".\"open_id\" = $2 AND \"open\".\"open_id\" IS NULL) OR EXISTS (SELECT 1 FROM \"public\".\"w9pt_fs_state_locks\" AS \"lock\" LEFT JOIN \"public\".\"w9pt_fs_state_opens\" AS \"open\" ON \"open\".\"filesystem_id\" = \"lock\".\"filesystem_id\" AND \"open\".\"open_id\" = \"lock\".\"owner_open_id\" AND \"open\".\"inode_id\" = \"lock\".\"inode_id\" AND \"open\".\"client_incarnation_id\" = \"lock\".\"owner_client_incarnation_id\" WHERE \"lock\".\"filesystem_id\" = $1 AND \"lock\".\"owner_open_id\" = $2 AND \"open\".\"open_id\" IS NULL)";

/// A statement about one filesystem.
pub open spec fn about_filesystem(sql: &'static str, filesystem_id: FilesystemId) -> StatementView {
    statement::text_only(sql@).with_id(filesystem_id.value)
}

/// A statement about one record of a filesystem.
pub open spec fn about_record(
    sql: &'static str,
    filesystem_id: FilesystemId,
    id: u128,
) -> StatementView {
    about_filesystem(sql, filesystem_id).with_id(id)
}

/// What the check wants to know next.
#[derive(Clone, Debug, PartialEq, Eq)]
pub enum InvariantQuestion {
    /// The filesystem root.
    Root {
        /// Root of the header.
        root_id: PostgresQuery,
        /// Kind of the root inode.
        root_kind: PostgresQuery,
        /// Whether there are entries.
        has_entries: PostgresQuery,
    },
    /// A written entry.
    Entry {
        /// Kind of the parent.
        parent_kind: PostgresQuery,
        /// Whether the child is there.
        child: PostgresQuery,
        /// Next directory cookie.
        next_cookie: PostgresQuery,
    },
    /// The owner of a written lock.
    Owner(PostgresQuery),
    /// A concerned inode.
    Inode {
        /// Kind, links and parent.
        summary: PostgresQuery,
        /// Whether records depend on it.
        dependents: PostgresQuery,
        /// Entries that refer to it.
        namespace_links: PostgresQuery,
    },
    /// The next inode on the way to the root.
    Ancestor(PostgresQuery),
    /// The pins of a concerned inode.
    Pins {
        /// Number of pins.
        pin_count: PostgresQuery,
        /// Pin count of the orphan.
        orphan_count: PostgresQuery,
    },
    /// A concerned open handle.
    Open(PostgresQuery),
    /// Nothing: everything holds.
    Nothing,
}

fn filesystem_query(sql: &'static str, filesystem_id: FilesystemId) -> (result: PostgresQuery)
    ensures
        result@ == about_filesystem(sql, filesystem_id),
{
    query(sql).bind_id(filesystem_id.value)
}

fn record_query(sql: &'static str, filesystem_id: FilesystemId, id: u128) -> (result: PostgresQuery)
    ensures
        result@ == about_record(sql, filesystem_id, id),
{
    query(sql).bind_id(filesystem_id.value).bind_id(id)
}

/// A question asks exactly what the stage of a check needs.
pub open spec fn asks(question: InvariantQuestion, check: InvariantCheck) -> bool {
    let fs = check.filesystem_id;
    match (check.stage, question) {
        (Stage::Root, InvariantQuestion::Root { root_id, root_kind, has_entries }) => root_id@
            == about_filesystem(ROOT_ID_SQL, fs) && root_kind@ == about_filesystem(
            ROOT_KIND_SQL,
            fs,
        ) && has_entries@ == about_filesystem(HAS_ENTRIES_SQL, fs),
        (Stage::Entry(i), InvariantQuestion::Entry { parent_kind, child, next_cookie }) => {
            let entry = check.entries@[i as int];
            parent_kind@ == about_record(INODE_KIND_SQL, fs, entry.parent_inode_id.value) && child@
                == about_record(INODE_EXISTS_SQL, fs, entry.child_inode_id.value) && next_cookie@
                == about_filesystem(NEXT_COOKIE_SQL, fs)
        },
        (Stage::Lock(i), InvariantQuestion::Owner(owner)) => {
            let lock = check.locks@[i as int];
            owner@ == about_record(LOCK_OWNER_SQL, fs, lock.owner.open_id.value).with_id(
                lock.inode_id.value,
            )
        },
        (Stage::Inode(i), InvariantQuestion::Inode { summary, dependents, namespace_links }) => {
            let id = check.inodes@[i as int];
            summary@ == about_record(INODE_SUMMARY_SQL, fs, id) && dependents@ == about_record(
                INODE_DEPENDENTS_SQL,
                fs,
                id,
            ) && namespace_links@ == about_record(NAMESPACE_LINKS_SQL, fs, id)
        },
        (Stage::Ancestry(_), InvariantQuestion::Ancestor(ancestor)) => ancestor@ == about_record(
            crate::ancestry::ANCESTOR_SQL,
            fs,
            check.walk.current.value,
        ),
        (Stage::Pins(i), InvariantQuestion::Pins { pin_count, orphan_count }) => {
            let id = check.inodes@[i as int];
            pin_count@ == about_record(PIN_COUNT_SQL, fs, id) && orphan_count@ == about_record(
                ORPHAN_COUNT_SQL,
                fs,
                id,
            )
        },
        (Stage::Open(i), InvariantQuestion::Open(dependents)) => dependents@ == about_record(
            OPEN_DEPENDENTS_SQL,
            fs,
            check.opens@[i as int],
        ),
        (Stage::Done, InvariantQuestion::Nothing) => true,
        _ => false,
    }
}

impl InvariantCheck {
    /// What the check wants to know next.
    pub fn question(&self) -> (result: InvariantQuestion)
        requires
            self.well_formed(),
        ensures
            asks(result, *self),
    {
        let fs = self.filesystem_id;
        match self.stage {
            Stage::Root => InvariantQuestion::Root {
                root_id: filesystem_query(ROOT_ID_SQL, fs),
                root_kind: filesystem_query(ROOT_KIND_SQL, fs),
                has_entries: filesystem_query(HAS_ENTRIES_SQL, fs),
            },
            Stage::Entry(i) => {
                let entry = self.entries[i];
                InvariantQuestion::Entry {
                    parent_kind: record_query(INODE_KIND_SQL, fs, entry.parent_inode_id.value),
                    child: record_query(INODE_EXISTS_SQL, fs, entry.child_inode_id.value),
                    next_cookie: filesystem_query(NEXT_COOKIE_SQL, fs),
                }
            },
            Stage::Lock(i) => {
                let lock = self.locks[i];
                InvariantQuestion::Owner(
                    record_query(LOCK_OWNER_SQL, fs, lock.owner.open_id.value).bind_id(
                        lock.inode_id.value,
                    ),
                )
            },
            Stage::Inode(i) => {
                let id: u128 = self.inodes[i];
                InvariantQuestion::Inode {
                    summary: record_query(INODE_SUMMARY_SQL, fs, id),
                    dependents: record_query(INODE_DEPENDENTS_SQL, fs, id),
                    namespace_links: record_query(NAMESPACE_LINKS_SQL, fs, id),
                }
            },
            Stage::Ancestry(_) => InvariantQuestion::Ancestor(self.walk.statement(fs)),
            Stage::Pins(i) => {
                let id: u128 = self.inodes[i];
                InvariantQuestion::Pins {
                    pin_count: record_query(PIN_COUNT_SQL, fs, id),
                    orphan_count: record_query(ORPHAN_COUNT_SQL, fs, id),
                }
            },
            Stage::Open(i) => InvariantQuestion::Open(
                record_query(OPEN_DEPENDENTS_SQL, fs, self.opens[i]),
            ),
            Stage::Done => InvariantQuestion::Nothing,
        }
    }

    /// The statements that read the kind of a directory's parent and count the
    /// entries from there, given the parent that is stored of it.
    pub fn parent_question(&self, parent: &Vec<u8>) -> (result: (PostgresQuery, PostgresQuery))
        requires
            self.well_formed(),
            self.stage is Inode,
        ensures
            result.0@ == about_filesystem(INODE_KIND_SQL, self.filesystem_id).with(
                SqlValue::Bytes(Some(parent@)),
            ),
            result.1@ == about_record(
                PARENT_LINKS_SQL,
                self.filesystem_id,
                self.inodes@[self.stage->Inode_0 as int],
            ).with(SqlValue::Bytes(Some(parent@))),
    {
        let index: usize = match self.stage {
            Stage::Inode(index) => index,
            _ => 0,
        };
        let fs = self.filesystem_id;
        (
            filesystem_query(INODE_KIND_SQL, fs).bind_bytes(parent),
            record_query(PARENT_LINKS_SQL, fs, self.inodes[index]).bind_bytes(parent),
        )
    }
}

} // verus!
