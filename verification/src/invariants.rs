//! Relations that a commit must leave intact, checked after its writes.
use vstd::prelude::*;

use crate::ancestry;
use crate::ancestry::{
    decode_inode_identity, invalid_relation, missing_relation, AncestorRow, AncestryWalk, WalkStep,
    DIRECTORY_KIND,
};
use crate::bytes;
use crate::failure::{PostgresStateError, StateFailure};
use crate::ids::{DirectoryCookie, FilesystemId, InodeId};
use crate::limits::StateLimits;
use crate::numeric;
use crate::precondition;
use crate::precondition::decode_number;
use crate::record::{LockRecord, StateRecord};
use crate::request::{CommitRequest, MalformedCommit, StateChange};
use crate::table::{RecordTable, Records};
use crate::targets;
use crate::targets::{targeted_inode_ids, targeted_open_ids};
use crate::transition;
use crate::transition::Malformed;

verus! {

/// What a check says: nothing, a refusal, or corrupt state.
pub type Verdict = Result<Option<Malformed>, StateFailure>;

/// A result meets what contracts say of it.
pub open spec fn judged(
    result: Result<Option<MalformedCommit>, PostgresStateError>,
    expected: Verdict,
) -> bool {
    match (result, expected) {
        (Ok(None), Ok(None)) => true,
        (Ok(Some(error)), Ok(Some(view))) => error@ == view,
        (Err(error), Err(view)) => error@ == view,
        _ => false,
    }
}

/// A relation to a missing record.
pub open spec fn missing(relation: &'static str) -> Verdict {
    Ok(Some(ancestry::missing_relation_view(relation)))
}

/// A relation to a wrong record.
pub open spec fn invalid(relation: &'static str) -> Verdict {
    Ok(Some(ancestry::invalid_relation_view(relation)))
}

/// What is stored of the filesystem root.
#[derive(Clone, Debug, PartialEq, Eq)]
pub struct RootFacts {
    /// Root of the header, if there is a header.
    pub root_inode_id: Option<Vec<u8>>,
    /// Kind of the root inode, if there is a header and the inode.
    pub root_kind: Option<Option<i16>>,
    /// Whether the filesystem has directory entries.
    pub has_entries: bool,
}

/// What the root says: it is a directory, and without a header there are no
/// entries.
pub open spec fn root_verdict(facts: RootFacts) -> Verdict {
    let width = match facts.root_inode_id {
        Some(identity) => identity@.len(),
        None => 16,
    };
    if width != 16 {
        Err(ancestry::inode_width_failure(width))
    } else {
        match facts.root_kind {
            Some(None) => invalid("filesystem root inode"),
            Some(Some(kind)) => if kind == DIRECTORY_KIND {
                Ok(None)
            } else {
                invalid("filesystem root is not a directory")
            },
            None => if facts.has_entries {
                missing("directory-entry filesystem header")
            } else {
                Ok(None)
            },
        }
    }
}

/// The root of the header.
pub open spec fn root_of(facts: RootFacts) -> Option<InodeId> {
    match facts.root_inode_id {
        Some(identity) => Some(ancestry::stored_inode(identity@)),
        None => None,
    }
}

/// A written directory entry, as far as its relations go.
#[derive(Clone, Copy, Debug, PartialEq, Eq, Structural)]
pub struct EntryTarget {
    /// Directory.
    pub parent_inode_id: InodeId,
    /// Child.
    pub child_inode_id: InodeId,
    /// Cookie.
    pub cookie: DirectoryCookie,
}

/// What is stored around a written directory entry.
#[derive(Clone, Debug, PartialEq, Eq)]
pub struct EntryFacts {
    /// Kind of the parent, if it is there.
    pub parent_kind: Option<i16>,
    /// Whether the child is there.
    pub child_exists: bool,
    /// Next directory cookie of the header, if it is there.
    pub next_cookie: Option<String>,
}

/// What a written entry says: its parent is a directory, its child is there,
/// and its cookie has been allocated.
pub open spec fn entry_verdict(entry: EntryTarget, facts: EntryFacts) -> Verdict {
    match facts.parent_kind {
        None => missing("directory-entry parent inode"),
        Some(kind) => if kind != DIRECTORY_KIND {
            invalid("directory-entry parent is not a directory")
        } else if !facts.child_exists {
            missing("directory-entry child inode")
        } else {
            match facts.next_cookie {
                None => missing("directory-entry filesystem header"),
                Some(text) => if !numeric::parses(text@) {
                    Err(
                        precondition::number_corruption(
                            "filesystem_records.next_directory_cookie",
                            text@,
                        ),
                    )
                } else if entry.cookie.value >= numeric::parsed(text@) {
                    invalid("directory-entry cookie was not allocated before next cookie")
                } else {
                    Ok(None)
                },
            }
        },
    }
}

/// What a written lock says: its owner has the inode open.
pub open spec fn owner_verdict(lock: LockRecord, owner: Option<Seq<u8>>) -> Verdict {
    match owner {
        None => missing("lock owner open"),
        Some(client) => if client == bytes::id_bytes(lock.owner.client_incarnation.value) {
            Ok(None)
        } else {
            invalid("lock owner differs from portable open")
        },
    }
}

/// What is stored of an inode.
#[derive(Clone, Debug, PartialEq, Eq)]
pub struct InodeSummary {
    /// Kind tag.
    pub kind: i16,
    /// Link count.
    pub link_count: String,
    /// Parent of a directory.
    pub directory_parent: Option<Vec<u8>>,
}

/// What is stored around an inode.
#[derive(Clone, Debug, PartialEq, Eq)]
pub struct InodeFacts {
    /// The inode, if it is there.
    pub summary: Option<InodeSummary>,
    /// Whether records depend on the inode.
    pub has_dependents: bool,
    /// Number of entries that refer to the inode.
    pub namespace_links: String,
    /// Kind of the parent of a directory, if it is there.
    pub parent_kind: Option<i16>,
    /// Number of entries that refer to a directory from its parent.
    pub parent_links: String,
}

/// What the namespace says of a directory.
pub open spec fn directory_verdict(
    inode_id: InodeId,
    root: Option<InodeId>,
    summary: InodeSummary,
    facts: InodeFacts,
) -> Verdict {
    let links = numeric::parsed(facts.namespace_links@);
    match summary.directory_parent {
        None => missing("directory parent inode"),
        Some(parent) => if parent@.len() != 16 {
            Err(ancestry::inode_width_failure(parent@.len()))
        } else {
            match root {
                None => missing("directory filesystem header"),
                Some(root) => if inode_id == root {
                    if ancestry::stored_inode(parent@) != root {
                        invalid("filesystem root directory is not self-parented")
                    } else if links != 0 {
                        invalid("filesystem root directory has a namespace hard link")
                    } else {
                        Ok(None)
                    }
                } else {
                    match facts.parent_kind {
                        None => missing("directory parent inode"),
                        Some(kind) => if kind != DIRECTORY_KIND {
                            invalid("directory parent is not a directory")
                        } else if !numeric::parses(facts.parent_links@) {
                            Err(
                                precondition::number_corruption(
                                    "directory_parent_entry_count",
                                    facts.parent_links@,
                                ),
                            )
                        } else if links != 1 || numeric::parsed(facts.parent_links@) != 1 {
                            invalid(
                                "directory must have exactly one entry in its authoritative parent",
                            )
                        } else {
                            Ok(None)
                        },
                    }
                },
            }
        },
    }
}

/// What the namespace says of an inode: a missing inode has no dependents, a
/// directory has exactly one entry unless it is the root, and any other inode
/// as many as its link count.
pub open spec fn namespace_verdict(
    inode_id: InodeId,
    root: Option<InodeId>,
    facts: InodeFacts,
) -> Verdict {
    match facts.summary {
        None => if facts.has_dependents {
            missing("authoritative inode dependency")
        } else {
            Ok(None)
        },
        Some(summary) => if !numeric::parses(summary.link_count@) {
            Err(precondition::number_corruption("inodes.link_count", summary.link_count@))
        } else if !numeric::parses(facts.namespace_links@) {
            Err(precondition::number_corruption("directory_entry_count", facts.namespace_links@))
        } else if summary.kind == DIRECTORY_KIND {
            directory_verdict(inode_id, root, summary, facts)
        } else if numeric::parsed(facts.namespace_links@) != numeric::parsed(summary.link_count@) {
            invalid("inode link count differs from namespace references")
        } else {
            Ok(None)
        },
    }
}

/// What is stored of the pins of an inode.
#[derive(Clone, Debug, PartialEq, Eq)]
pub struct PinFacts {
    /// Number of pins.
    pub pin_count: String,
    /// Pin count of the orphan, if the inode is one.
    pub orphan_count: Option<String>,
}

/// What the pins say of an inode: an orphan has no links and counts its pins,
/// and an inode without links is a pinned orphan.
pub open spec fn pin_verdict(link_count: u64, facts: PinFacts) -> Verdict {
    if !numeric::parses(facts.pin_count@) {
        Err(precondition::number_corruption("open_pin_count", facts.pin_count@))
    } else {
        let pins = numeric::parsed(facts.pin_count@);
        match facts.orphan_count {
            Some(text) => if !numeric::parses(text@) {
                Err(precondition::number_corruption("orphans.open_pin_count", text@))
            } else if link_count != 0 {
                invalid("orphan inode still has links")
            } else if numeric::parsed(text@) != pins {
                invalid("orphan open-pin count mismatch")
            } else if pins == 0 {
                invalid("unpinned zero-link inode was not retired")
            } else {
                Ok(None)
            },
            None => if link_count != 0 {
                Ok(None)
            } else if pins == 0 {
                invalid("unpinned zero-link inode was not retired")
            } else {
                missing("pinned zero-link inode orphan")
            },
        }
    }
}

/// Where a check stands.
#[derive(Clone, Copy, Debug, PartialEq, Eq, Structural)]
pub enum Stage {
    /// The filesystem root.
    Root,
    /// A written entry.
    Entry(usize),
    /// A written lock.
    Lock(usize),
    /// A concerned inode.
    Inode(usize),
    /// The way of a concerned directory to the root.
    Ancestry(usize),
    /// The pins of a concerned inode.
    Pins(usize),
    /// A concerned open handle.
    Open(usize),
    /// Everything holds.
    Done,
}

/// What is stored around what a check stands at.
#[derive(Clone, Debug, PartialEq, Eq)]
pub enum RelationFacts {
    /// The filesystem root.
    Root(RootFacts),
    /// Around a written entry.
    Entry(EntryFacts),
    /// The client of the open handle that owns a written lock.
    Owner(Option<Vec<u8>>),
    /// Around a concerned inode.
    Inode(InodeFacts),
    /// An inode on the way to the root.
    Ancestor(Option<AncestorRow>),
    /// The pins of a concerned inode.
    Pins(PinFacts),
    /// Whether a record refers to a concerned open handle that is not there.
    Open(bool),
}

impl RelationFacts {
    /// The facts are those that a stage asks for.
    pub open spec fn suits(self, stage: Stage) -> bool {
        match stage {
            Stage::Root => self is Root,
            Stage::Entry(_) => self is Entry,
            Stage::Lock(_) => self is Owner,
            Stage::Inode(_) => self is Inode,
            Stage::Ancestry(_) => self is Ancestor,
            Stage::Pins(_) => self is Pins,
            Stage::Open(_) => self is Open,
            Stage::Done => false,
        }
    }
}

/// The check of everything that one commit concerns.
#[derive(Clone, Debug)]
pub struct InvariantCheck {
    /// Authority.
    pub filesystem_id: FilesystemId,
    /// Largest accepted distance of a directory from the root.
    pub maximum_depth: u32,
    /// Written entries.
    pub entries: Vec<EntryTarget>,
    /// Written locks.
    pub locks: Vec<LockRecord>,
    /// Concerned inodes.
    pub inodes: Vec<u128>,
    /// Concerned open handles.
    pub opens: Vec<u128>,
    /// Filesystem root, once known.
    pub root: Option<InodeId>,
    /// Link count of the inode whose pins are checked.
    pub link_count: u64,
    /// Walk of the directory whose ancestry is checked.
    pub walk: AncestryWalk,
    /// Where the check stands.
    pub stage: Stage,
}

/// The entry that a change writes.
pub open spec fn entry_target(change: transition::Change) -> Option<EntryTarget> {
    match change {
        StateChange::Insert { record: StateRecord::DirectoryEntry(entry), .. } => Some(
            EntryTarget {
                parent_inode_id: entry.parent_inode_id,
                child_inode_id: entry.child_inode_id,
                cookie: entry.cookie,
            },
        ),
        StateChange::Replace { record: StateRecord::DirectoryEntry(entry), .. } => Some(
            EntryTarget {
                parent_inode_id: entry.parent_inode_id,
                child_inode_id: entry.child_inode_id,
                cookie: entry.cookie,
            },
        ),
        _ => None,
    }
}

/// The lock that a change writes.
pub open spec fn lock_target(change: transition::Change) -> Option<LockRecord> {
    match change {
        StateChange::Insert { record: StateRecord::Lock(lock), .. } => Some(lock),
        StateChange::Replace { record: StateRecord::Lock(lock), .. } => Some(lock),
        _ => None,
    }
}

/// The entries that changes write, in their order.
pub open spec fn entry_targets(changes: Seq<transition::Change>) -> Seq<EntryTarget>
    decreases changes.len(),
{
    if changes.len() == 0 {
        Seq::empty()
    } else {
        match entry_target(changes.last()) {
            Some(entry) => entry_targets(changes.drop_last()).push(entry),
            None => entry_targets(changes.drop_last()),
        }
    }
}

/// The locks that changes write, in their order.
pub open spec fn lock_targets(changes: Seq<transition::Change>) -> Seq<LockRecord>
    decreases changes.len(),
{
    if changes.len() == 0 {
        Seq::empty()
    } else {
        match lock_target(changes.last()) {
            Some(lock) => lock_targets(changes.drop_last()).push(lock),
            None => lock_targets(changes.drop_last()),
        }
    }
}

/// A stored row, if there is one, as contracts speak of it.
pub open spec fn optional_row(row: Option<AncestorRow>) -> Option<AncestorRow<Seq<u8>>> {
    match row {
        Some(row) => Some(row@),
        None => None,
    }
}

impl InvariantCheck {
    /// The first stage at or after a stage at which there is something to
    /// check.
    pub open spec fn settled(self, stage: Stage) -> Stage {
        let open = if self.opens@.len() > 0 {
            Stage::Open(0)
        } else {
            Stage::Done
        };
        let inode = if self.inodes@.len() > 0 {
            Stage::Inode(0)
        } else {
            open
        };
        let lock = if self.locks@.len() > 0 {
            Stage::Lock(0)
        } else {
            inode
        };
        match stage {
            Stage::Entry(i) => if i < self.entries@.len() {
                stage
            } else {
                lock
            },
            Stage::Lock(i) => if i < self.locks@.len() {
                stage
            } else {
                inode
            },
            Stage::Inode(i) => if i < self.inodes@.len() {
                stage
            } else {
                open
            },
            Stage::Open(i) => if i < self.opens@.len() {
                stage
            } else {
                Stage::Done
            },
            _ => stage,
        }
    }

    /// The index of the current stage is in range.
    pub open spec fn well_formed(self) -> bool {
        &&& match self.stage {
            Stage::Entry(i) => i < self.entries@.len(),
            Stage::Lock(i) => i < self.locks@.len(),
            Stage::Inode(i) => i < self.inodes@.len(),
            Stage::Ancestry(i) => i < self.inodes@.len(),
            Stage::Pins(i) => i < self.inodes@.len(),
            Stage::Open(i) => i < self.opens@.len(),
            _ => true,
        }
        &&& self.stage is Ancestry ==> self.walk@.open()
        &&& self.entries@.len() <= usize::MAX && self.locks@.len() <= usize::MAX
        &&& self.inodes@.len() <= usize::MAX && self.opens@.len() <= usize::MAX
    }

    /// Two states of one check have the same targets.
    pub open spec fn same_targets(self, other: Self) -> bool {
        &&& self.filesystem_id == other.filesystem_id
        &&& self.maximum_depth == other.maximum_depth
        &&& self.entries == other.entries
        &&& self.locks == other.locks
        &&& self.inodes == other.inodes
        &&& self.opens == other.opens
    }

    /// What the facts that a stage asks for say.
    pub open spec fn verdict(self, facts: RelationFacts) -> Verdict {
        match (self.stage, facts) {
            (Stage::Root, RelationFacts::Root(facts)) => root_verdict(facts),
            (Stage::Entry(i), RelationFacts::Entry(facts)) => entry_verdict(
                self.entries@[i as int],
                facts,
            ),
            (Stage::Lock(i), RelationFacts::Owner(owner)) => owner_verdict(
                self.locks@[i as int],
                bytes::optional_bytes(owner),
            ),
            (Stage::Inode(i), RelationFacts::Inode(facts)) => namespace_verdict(
                InodeId { value: self.inodes@[i as int] },
                self.root,
                facts,
            ),
            (Stage::Ancestry(_), RelationFacts::Ancestor(row)) => self.walk@.verdict(
                optional_row(row),
            ),
            (Stage::Pins(_), RelationFacts::Pins(facts)) => pin_verdict(self.link_count, facts),
            (Stage::Open(_), RelationFacts::Open(invalid_dependency)) => if invalid_dependency {
                missing("open-dependent record")
            } else {
                Ok(None)
            },
            _ => Ok(None),
        }
    }

    /// Where a check stands after facts that nothing speaks against.
    pub open spec fn stage_after(self, facts: RelationFacts) -> Stage {
        match (self.stage, facts) {
            (Stage::Root, _) => self.settled(Stage::Entry(0)),
            (Stage::Entry(i), _) => self.settled(Stage::Entry((i + 1) as usize)),
            (Stage::Lock(i), _) => self.settled(Stage::Lock((i + 1) as usize)),
            (Stage::Inode(i), RelationFacts::Inode(facts)) => match facts.summary {
                None => self.settled(Stage::Inode((i + 1) as usize)),
                Some(summary) => if summary.kind == DIRECTORY_KIND {
                    Stage::Ancestry(i)
                } else {
                    Stage::Pins(i)
                },
            },
            (Stage::Ancestry(i), _) => if self.walk.current == self.walk.root {
                Stage::Pins(i)
            } else {
                Stage::Ancestry(i)
            },
            (Stage::Pins(i), _) => self.settled(Stage::Inode((i + 1) as usize)),
            (Stage::Open(i), _) => self.settled(Stage::Open((i + 1) as usize)),
            _ => self.stage,
        }
    }

    /// The check moves on over facts that nothing speaks against.
    pub open spec fn moves(self, after: Self, facts: RelationFacts) -> bool {
        &&& after.well_formed()
        &&& after.same_targets(self)
        &&& after.stage == self.stage_after(facts)
        &&& match (self.stage, facts) {
            (Stage::Root, RelationFacts::Root(facts)) => after.root == root_of(facts),
            _ => after.root == self.root,
        }
        &&& match (self.stage, facts) {
            (Stage::Inode(i), RelationFacts::Inode(facts)) => match facts.summary {
                Some(summary) => {
                    &&& after.link_count == numeric::parsed(summary.link_count@)
                    &&& summary.kind == DIRECTORY_KIND ==> self.root is Some && after.walk@
                        == ancestry::started_walk(
                        InodeId { value: self.inodes@[i as int] },
                        self.root->0,
                        self.maximum_depth,
                    )
                },
                None => true,
            },
            (Stage::Ancestry(_), RelationFacts::Ancestor(row)) => {
                &&& after.link_count == self.link_count
                &&& self.walk.current != self.walk.root ==> after.walk@ == self.walk@.stepped(
                    row->0.parent->0@,
                )
            },
            _ => true,
        }
    }

    /// A check answers facts: it moves on exactly where nothing speaks against
    /// them, and stays as it is otherwise.
    pub open spec fn answers(
        self,
        after: Self,
        facts: RelationFacts,
        result: Result<Option<MalformedCommit>, PostgresStateError>,
    ) -> bool {
        &&& judged(result, self.verdict(facts))
        &&& if result matches Ok(None) {
            self.moves(after, facts)
        } else {
            after == self
        }
    }

    /// The check concerns exactly what a request does.
    pub open spec fn concerns(
        self,
        request: CommitRequest,
        previous: Records,
        limits: StateLimits,
    ) -> bool {
        let changes = request.change_seq();
        &&& self.filesystem_id == request.filesystem_id
        &&& self.maximum_depth == limits.values.max_directory_ancestor_depth
        &&& self.entries@ == entry_targets(changes)
        &&& self.locks@ == lock_targets(changes)
        &&& targets::increasing(self.inodes@)
        &&& forall|n: u128| #[trigger]
            self.inodes@.contains(n) <==> targets::inode_targeted(
                previous,
                changes,
                changes.len() as int,
                n,
            )
        &&& targets::increasing(self.opens@)
        &&& forall|n: u128| #[trigger]
            self.opens@.contains(n) <==> targets::open_targeted(
                previous,
                changes,
                changes.len() as int,
                n,
            )
    }

    fn settle(&self, stage: Stage) -> (result: Stage)
        ensures
            result == self.settled(stage),
    {
        let mut current = stage;
        match current {
            Stage::Entry(i) => {
                if i >= self.entries.len() {
                    current = Stage::Lock(0);
                }
            },
            _ => {},
        }
        match current {
            Stage::Lock(i) => {
                if i >= self.locks.len() {
                    current = Stage::Inode(0);
                }
            },
            _ => {},
        }
        match current {
            Stage::Inode(i) => {
                if i >= self.inodes.len() {
                    current = Stage::Open(0);
                }
            },
            _ => {},
        }
        match current {
            Stage::Open(i) => {
                if i >= self.opens.len() {
                    current = Stage::Done;
                }
            },
            _ => {},
        }
        current
    }

    /// Starts the check of everything that a request concerns.
    pub fn start(request: &CommitRequest, previous: &RecordTable, limits: StateLimits) -> (result:
        Self)
        ensures
            result.well_formed(),
            result.concerns(*request, previous@, limits),
            result.stage == Stage::Root,
    {
        let ghost changes = request.change_seq();
        let mut entries: Vec<EntryTarget> = Vec::new();
        let mut locks: Vec<LockRecord> = Vec::new();
        let mut index: usize = 0;
        assert(changes.take(0) =~= Seq::empty());
        while index < request.changes.len()
            invariant
                index <= changes.len(),
                changes == request.change_seq(),
                changes.len() == request.changes@.len(),
                entries@ == entry_targets(changes.take(index as int)),
                locks@ == lock_targets(changes.take(index as int)),
            decreases changes.len() - index,
        {
            proof {
                assert(changes.take(index + 1).drop_last() =~= changes.take(index as int));
                assert(changes.take(index + 1).last() == request.changes@[index as int]@);
            }
            match &request.changes[index] {
                StateChange::Insert { record: StateRecord::DirectoryEntry(entry), .. } => {
                    entries.push(
                        EntryTarget {
                            parent_inode_id: entry.parent_inode_id,
                            child_inode_id: entry.child_inode_id,
                            cookie: entry.cookie,
                        },
                    );
                },
                StateChange::Replace { record: StateRecord::DirectoryEntry(entry), .. } => {
                    entries.push(
                        EntryTarget {
                            parent_inode_id: entry.parent_inode_id,
                            child_inode_id: entry.child_inode_id,
                            cookie: entry.cookie,
                        },
                    );
                },
                StateChange::Insert { record: StateRecord::Lock(lock), .. } => {
                    locks.push(*lock);
                },
                StateChange::Replace { record: StateRecord::Lock(lock), .. } => {
                    locks.push(*lock);
                },
                _ => {},
            }
            index = index + 1;
        }
        assert(changes.take(index as int) =~= changes);
        let inodes = targeted_inode_ids(request, previous);
        let opens = targeted_open_ids(request, previous);
        assert(entries@.len() == entries.len() && locks@.len() == locks.len());
        assert(inodes@.len() == inodes.len() && opens@.len() == opens.len());
        let zero = InodeId { value: 0 };
        InvariantCheck {
            filesystem_id: request.filesystem_id,
            maximum_depth: limits.values.max_directory_ancestor_depth,
            entries,
            locks,
            inodes,
            opens,
            root: None,
            link_count: 0,
            walk: AncestryWalk::new(zero, zero, 0),
            stage: Stage::Root,
        }
    }

    /// Takes what is stored of the root.
    fn root(&mut self, facts: &RootFacts) -> (result: Result<
        Option<MalformedCommit>,
        PostgresStateError,
    >)
        requires
            old(self).well_formed(),
            old(self).stage == Stage::Root,
        ensures
            old(self).answers(*final(self), RelationFacts::Root(*facts), result),
    {
        let root = match &facts.root_inode_id {
            Some(identity) => Some(decode_inode_identity(identity)?),
            None => None,
        };
        match facts.root_kind {
            Some(None) => {
                return Ok(Some(invalid_relation("filesystem root inode")));
            },
            Some(Some(kind)) => {
                if kind != DIRECTORY_KIND {
                    return Ok(Some(invalid_relation("filesystem root is not a directory")));
                }
            },
            None => {
                if facts.has_entries {
                    return Ok(Some(missing_relation("directory-entry filesystem header")));
                }
            },
        }
        let stage = self.settle(Stage::Entry(0));
        self.root = root;
        self.stage = stage;
        Ok(None)
    }

    /// Takes what is stored around the current written entry.
    fn entry(&mut self, facts: &EntryFacts) -> (result: Result<
        Option<MalformedCommit>,
        PostgresStateError,
    >)
        requires
            old(self).well_formed(),
            old(self).stage is Entry,
        ensures
            old(self).answers(*final(self), RelationFacts::Entry(*facts), result),
    {
        let index: usize = match self.stage {
            Stage::Entry(index) => index,
            _ => 0,
        };
        let count: usize = self.entries.len();
        assert(index < count);
        let entry = self.entries[index];
        match facts.parent_kind {
            None => {
                return Ok(Some(missing_relation("directory-entry parent inode")));
            },
            Some(kind) => {
                if kind != DIRECTORY_KIND {
                    return Ok(
                        Some(invalid_relation("directory-entry parent is not a directory")),
                    );
                }
            },
        }
        if !facts.child_exists {
            return Ok(Some(missing_relation("directory-entry child inode")));
        }
        let next: u64 = match &facts.next_cookie {
            None => {
                return Ok(Some(missing_relation("directory-entry filesystem header")));
            },
            Some(text) => decode_number("filesystem_records.next_directory_cookie", text)?,
        };
        if entry.cookie.value >= next {
            return Ok(
                Some(
                    invalid_relation("directory-entry cookie was not allocated before next cookie"),
                ),
            );
        }
        let stage = self.settle(Stage::Entry(index + 1));
        self.stage = stage;
        Ok(None)
    }

    /// Takes the client that has the current written lock's open handle.
    fn owner(&mut self, owner: &Option<Vec<u8>>) -> (result: Result<
        Option<MalformedCommit>,
        PostgresStateError,
    >)
        requires
            old(self).well_formed(),
            old(self).stage is Lock,
        ensures
            old(self).answers(*final(self), RelationFacts::Owner(*owner), result),
    {
        let index: usize = match self.stage {
            Stage::Lock(index) => index,
            _ => 0,
        };
        let count: usize = self.locks.len();
        assert(index < count);
        let lock = self.locks[index];
        match owner {
            None => {
                return Ok(Some(missing_relation("lock owner open")));
            },
            Some(client) => {
                let expected = lock.owner.client_incarnation.to_vec();
                if !bytes::bytes_eq(client, &expected) {
                    return Ok(Some(invalid_relation("lock owner differs from portable open")));
                }
            },
        }
        let stage = self.settle(Stage::Lock(index + 1));
        self.stage = stage;
        Ok(None)
    }

    /// Takes what is stored around the current concerned inode.
    fn inode(&mut self, facts: &InodeFacts) -> (result: Result<
        Option<MalformedCommit>,
        PostgresStateError,
    >)
        requires
            old(self).well_formed(),
            old(self).stage is Inode,
        ensures
            old(self).answers(*final(self), RelationFacts::Inode(*facts), result),
    {
        let index: usize = match self.stage {
            Stage::Inode(index) => index,
            _ => 0,
        };
        let count: usize = self.inodes.len();
        assert(index < count);
        let inode_id = InodeId { value: self.inodes[index] };
        let summary = match &facts.summary {
            Some(summary) => summary,
            None => {
                if facts.has_dependents {
                    return Ok(Some(missing_relation("authoritative inode dependency")));
                }
                let stage = self.settle(Stage::Inode(index + 1));
                self.stage = stage;
                return Ok(None);
            },
        };
        let link_count: u64 = decode_number("inodes.link_count", &summary.link_count)?;
        let links: u64 = decode_number("directory_entry_count", &facts.namespace_links)?;
        if summary.kind != DIRECTORY_KIND {
            if links != link_count {
                return Ok(
                    Some(invalid_relation("inode link count differs from namespace references")),
                );
            }
            self.link_count = link_count;
            self.stage = Stage::Pins(index);
            return Ok(None);
        }
        let parent = match &summary.directory_parent {
            None => {
                return Ok(Some(missing_relation("directory parent inode")));
            },
            Some(parent) => decode_inode_identity(parent)?,
        };
        let root = match self.root {
            None => {
                return Ok(Some(missing_relation("directory filesystem header")));
            },
            Some(root) => root,
        };
        if inode_id == root {
            if parent != root {
                return Ok(
                    Some(invalid_relation("filesystem root directory is not self-parented")),
                );
            }
            if links != 0 {
                return Ok(
                    Some(invalid_relation("filesystem root directory has a namespace hard link")),
                );
            }
        } else {
            match facts.parent_kind {
                None => {
                    return Ok(Some(missing_relation("directory parent inode")));
                },
                Some(kind) => {
                    if kind != DIRECTORY_KIND {
                        return Ok(Some(invalid_relation("directory parent is not a directory")));
                    }
                },
            }
            let parent_links: u64 = decode_number(
                "directory_parent_entry_count",
                &facts.parent_links,
            )?;
            if links != 1 || parent_links != 1 {
                return Ok(
                    Some(
                        invalid_relation(
                            "directory must have exactly one entry in its authoritative parent",
                        ),
                    ),
                );
            }
        }
        let walk = AncestryWalk::new(inode_id, root, self.maximum_depth);
        self.link_count = link_count;
        self.walk = walk;
        self.stage = Stage::Ancestry(index);
        Ok(None)
    }

    /// Takes what is stored of the next inode on the way to the root.
    fn ancestor(&mut self, row: &Option<AncestorRow>) -> (result: Result<
        Option<MalformedCommit>,
        PostgresStateError,
    >)
        requires
            old(self).well_formed(),
            old(self).stage is Ancestry,
        ensures
            old(self).answers(*final(self), RelationFacts::Ancestor(*row), result),
    {
        let index: usize = match self.stage {
            Stage::Ancestry(index) => index,
            _ => 0,
        };
        match self.walk.visit(row)? {
            WalkStep::Accepted => {
                self.stage = Stage::Pins(index);
                Ok(None)
            },
            WalkStep::Refused(error) => Ok(Some(error)),
            WalkStep::Read => Ok(None),
        }
    }

    /// Takes what is stored of the pins of the current inode.
    fn pins(&mut self, facts: &PinFacts) -> (result: Result<
        Option<MalformedCommit>,
        PostgresStateError,
    >)
        requires
            old(self).well_formed(),
            old(self).stage is Pins,
        ensures
            old(self).answers(*final(self), RelationFacts::Pins(*facts), result),
    {
        let index: usize = match self.stage {
            Stage::Pins(index) => index,
            _ => 0,
        };
        let count: usize = self.inodes.len();
        assert(index < count);
        let pins: u64 = decode_number("open_pin_count", &facts.pin_count)?;
        match &facts.orphan_count {
            Some(text) => {
                let orphan: u64 = decode_number("orphans.open_pin_count", text)?;
                if self.link_count != 0 {
                    return Ok(Some(invalid_relation("orphan inode still has links")));
                }
                if orphan != pins {
                    return Ok(Some(invalid_relation("orphan open-pin count mismatch")));
                }
            },
            None => {},
        }
        if self.link_count == 0 {
            if pins == 0 {
                return Ok(Some(invalid_relation("unpinned zero-link inode was not retired")));
            }
            if facts.orphan_count.is_none() {
                return Ok(Some(missing_relation("pinned zero-link inode orphan")));
            }
        }
        let stage = self.settle(Stage::Inode(index + 1));
        self.stage = stage;
        Ok(None)
    }

    /// Takes whether a record depends on the current open handle without it.
    fn open(&mut self, invalid_dependency: bool) -> (result: Result<
        Option<MalformedCommit>,
        PostgresStateError,
    >)
        requires
            old(self).well_formed(),
            old(self).stage is Open,
        ensures
            old(self).answers(*final(self), RelationFacts::Open(invalid_dependency), result),
    {
        let index: usize = match self.stage {
            Stage::Open(index) => index,
            _ => 0,
        };
        let count: usize = self.opens.len();
        assert(index < count);
        if invalid_dependency {
            return Ok(Some(missing_relation("open-dependent record")));
        }
        let stage = self.settle(Stage::Open(index + 1));
        self.stage = stage;
        Ok(None)
    }

    /// Takes the facts that the check asked for.
    pub fn answer(&mut self, facts: &RelationFacts) -> (result: Result<
        Option<MalformedCommit>,
        PostgresStateError,
    >)
        requires
            old(self).well_formed(),
            facts.suits(old(self).stage),
        ensures
            old(self).answers(*final(self), *facts, result),
    {
        match facts {
            RelationFacts::Root(facts) => self.root(facts),
            RelationFacts::Entry(facts) => self.entry(facts),
            RelationFacts::Owner(owner) => self.owner(owner),
            RelationFacts::Inode(facts) => self.inode(facts),
            RelationFacts::Ancestor(row) => self.ancestor(row),
            RelationFacts::Pins(facts) => self.pins(facts),
            RelationFacts::Open(invalid_dependency) => self.open(*invalid_dependency),
        }
    }
}

/// An inode that passes its checks and is no directory has as many entries as
/// its link count says.
pub proof fn law_links_match_namespace(
    inode_id: InodeId,
    root: Option<InodeId>,
    facts: InodeFacts,
)
    requires
        namespace_verdict(inode_id, root, facts) == Ok::<Option<Malformed>, StateFailure>(None),
        facts.summary is Some,
        facts.summary->0.kind != DIRECTORY_KIND,
    ensures
        numeric::parsed(facts.namespace_links@) == numeric::parsed(facts.summary->0.link_count@),
{
}

/// A directory that passes its checks is the root without an entry, or has
/// exactly one entry, in its own parent.
pub proof fn law_directories_have_one_entry(
    inode_id: InodeId,
    root: Option<InodeId>,
    facts: InodeFacts,
)
    requires
        namespace_verdict(inode_id, root, facts) == Ok::<Option<Malformed>, StateFailure>(None),
        facts.summary is Some,
        facts.summary->0.kind == DIRECTORY_KIND,
    ensures
        root is Some,
        if inode_id == root->0 {
            numeric::parsed(facts.namespace_links@) == 0
        } else {
            numeric::parsed(facts.namespace_links@) == 1 && numeric::parsed(facts.parent_links@)
                == 1
        },
{
}

/// An inode that passes its checks has links and is no orphan, or is an orphan
/// that counts at least one pin.
pub proof fn law_unlinked_inodes_are_pinned_orphans(link_count: u64, facts: PinFacts)
    requires
        pin_verdict(link_count, facts) == Ok::<Option<Malformed>, StateFailure>(None),
    ensures
        link_count == 0 <==> facts.orphan_count is Some,
        link_count == 0 ==> numeric::parsed(facts.pin_count@) > 0 && numeric::parsed(
            facts.orphan_count->0@,
        ) == numeric::parsed(facts.pin_count@),
{
}

} // verus!
