//! Bounded walk from a directory to the filesystem root.
use vstd::prelude::*;

use crate::bytes;
use crate::failure::{AdapterFailureKind, FailureCause, PostgresStateError, StateFailure};
use crate::ids::{FilesystemId, InodeId};
use crate::precondition;
use crate::precondition::corruption;
use crate::record::RecordValidationError;
use crate::request::MalformedCommit;
use crate::statement;
use crate::statement::{query, PostgresQuery};
use crate::transition::Malformed;

verus! {

/// The refusal of a relation to a missing record.
pub open spec fn missing_relation_view(relation: &'static str) -> Malformed {
    MalformedCommit::InvalidRecord(RecordValidationError::MissingRelatedRecord { relation })
}

/// The refusal of a relation to a wrong record.
pub open spec fn invalid_relation_view(relation: &'static str) -> Malformed {
    MalformedCommit::InvalidRecord(RecordValidationError::InvalidRelatedRecord { relation })
}

/// The refusal of a relation to a missing record.
pub fn missing_relation(relation: &'static str) -> (result: MalformedCommit)
    ensures
        result@ == missing_relation_view(relation),
{
    MalformedCommit::InvalidRecord(RecordValidationError::MissingRelatedRecord { relation })
}

/// The refusal of a relation to a wrong record.
pub fn invalid_relation(relation: &'static str) -> (result: MalformedCommit)
    ensures
        result@ == invalid_relation_view(relation),
{
    MalformedCommit::InvalidRecord(RecordValidationError::InvalidRelatedRecord { relation })
}

/// The corruption of an inode identity of another width.
pub open spec fn inode_width_failure(actual: nat) -> StateFailure {
    precondition::commit_failure(
        AdapterFailureKind::Corruption,
        "",
        FailureCause::InodeWidth(actual as usize),
    )
}

/// The inode that stored bytes name.
pub open spec fn stored_inode(identity: Seq<u8>) -> InodeId {
    InodeId { value: bytes::id_value(identity) }
}

/// Reads a stored inode identity.
pub fn decode_inode_identity(identity: &Vec<u8>) -> (result: Result<InodeId, PostgresStateError>)
    ensures
        match result {
            Ok(inode_id) => identity@.len() == 16 && inode_id == stored_inode(identity@),
            Err(error) => identity@.len() != 16 && error@ == inode_width_failure(identity@.len()),
        },
{
    if identity.len() != 16 {
        return Err(
            corruption(
                "",
                FailureCause::InodeWidth(identity.len()),
            ),
        );
    }
    Ok(InodeId { value: bytes::id_from_bytes(identity) })
}

/// Kind tag of directories.
pub const DIRECTORY_KIND: i16 = 2;

/// What is stored of one inode on the way to the root.
#[derive(Clone, Debug, PartialEq, Eq)]
pub struct AncestorRow<B = Vec<u8>> {
    /// Kind tag.
    pub kind: i16,
    /// Parent directory.
    pub parent: Option<B>,
}

impl View for AncestorRow<Vec<u8>> {
    type V = AncestorRow<Seq<u8>>;

    open spec fn view(&self) -> AncestorRow<Seq<u8>> {
        AncestorRow { kind: self.kind, parent: bytes::optional_bytes(self.parent) }
    }
}

/// The stored inodes of one filesystem.
pub type Ancestors = Map<InodeId, AncestorRow<Seq<u8>>>;

/// The end of a walk: accepted, refused, or corrupt state.
pub type WalkEnd = Result<Option<Malformed>, StateFailure>;

/// The end of a walk to the root from an inode, over the stored inodes.
pub open spec fn walk(
    rows: Ancestors,
    start: InodeId,
    root: InodeId,
    maximum: u32,
    current: InodeId,
    visited: Seq<InodeId>,
    left: nat,
) -> WalkEnd
    decreases left,
{
    if left == 0 {
        Ok(
            Some(
                MalformedCommit::InvalidRecord(
                    RecordValidationError::DirectoryAncestorLimit { maximum },
                ),
            ),
        )
    } else if visited.contains(current) {
        Ok(
            Some(
                MalformedCommit::InvalidRecord(
                    RecordValidationError::DirectoryCycle { inode_id: start },
                ),
            ),
        )
    } else if !rows.dom().contains(current) {
        Ok(Some(missing_relation_view("directory ancestor inode")))
    } else if rows[current].kind != DIRECTORY_KIND {
        Ok(Some(invalid_relation_view("directory ancestor is not a directory")))
    } else {
        match rows[current].parent {
            None => Ok(Some(missing_relation_view("directory parent inode"))),
            Some(parent) => if parent.len() != 16 {
                Err(inode_width_failure(parent.len()))
            } else if current == root {
                if stored_inode(parent) == root {
                    Ok(None)
                } else {
                    Ok(
                        Some(
                            invalid_relation_view("filesystem root directory is not self-parented"),
                        ),
                    )
                }
            } else {
                walk(
                    rows,
                    start,
                    root,
                    maximum,
                    stored_inode(parent),
                    visited.push(current),
                    (left - 1) as nat,
                )
            },
        }
    }
}

/// The end of a whole walk. The limit counts parent edges, so that validating
/// the root after exactly that many edges takes one more visit.
pub open spec fn ancestry_end(
    rows: Ancestors,
    start: InodeId,
    root: InodeId,
    maximum: u32,
) -> WalkEnd {
    walk(rows, start, root, maximum, start, Seq::empty(), (maximum + 1) as nat)
}

/// The inode that a number of parent edges leads to.
pub open spec fn ancestor(rows: Ancestors, start: InodeId, edges: nat) -> InodeId
    decreases edges,
{
    if edges == 0 {
        start
    } else {
        ancestor(rows, stored_inode(rows[start].parent->0), (edges - 1) as nat)
    }
}

/// A directory whose walk is accepted reaches the root over at most as many
/// parent edges as the limit allows.
pub proof fn law_accepted_directory_reaches_root(
    rows: Ancestors,
    start: InodeId,
    root: InodeId,
    maximum: u32,
)
    requires
        ancestry_end(rows, start, root, maximum) == Ok::<Option<Malformed>, StateFailure>(None),
    ensures
        exists|edges: nat| edges <= maximum && #[trigger] ancestor(rows, start, edges) == root,
{
    lemma_walk_reaches_root(
        rows,
        start,
        root,
        maximum,
        start,
        Seq::empty(),
        (maximum + 1) as nat,
    );
}

proof fn lemma_walk_reaches_root(
    rows: Ancestors,
    start: InodeId,
    root: InodeId,
    maximum: u32,
    current: InodeId,
    visited: Seq<InodeId>,
    left: nat,
)
    requires
        walk(rows, start, root, maximum, current, visited, left) == Ok::<
            Option<Malformed>,
            StateFailure,
        >(None),
    ensures
        left > 0,
        exists|edges: nat| edges < left && #[trigger] ancestor(rows, current, edges) == root,
    decreases left,
{
    if current == root {
        assert(ancestor(rows, current, 0) == root);
    } else {
        let parent = stored_inode(rows[current].parent->0);
        lemma_walk_reaches_root(
            rows,
            start,
            root,
            maximum,
            parent,
            visited.push(current),
            (left - 1) as nat,
        );
        let edges = choose|edges: nat|
            edges < left - 1 && #[trigger] ancestor(rows, parent, edges) == root;
        assert(ancestor(rows, current, edges + 1) == root);
    }
}

/// Mathematical content of a walk in progress.
#[verifier::ext_equal]
pub struct WalkView {
    /// Directory from which the walk started.
    pub start: InodeId,
    /// Filesystem root.
    pub root: InodeId,
    /// Largest accepted number of parent edges.
    pub maximum: u32,
    /// Inode to visit next.
    pub current: InodeId,
    /// Inodes visited so far.
    pub visited: Seq<InodeId>,
}

/// A walk that has visited nothing yet.
pub open spec fn started_walk(start: InodeId, root: InodeId, maximum: u32) -> WalkView {
    WalkView { start, root, maximum, current: start, visited: Seq::empty() }
}

impl WalkView {
    /// The visits that are left.
    pub open spec fn left(self) -> int {
        self.maximum + 1 - self.visited.len()
    }

    /// The walk may visit its current inode.
    pub open spec fn open(self) -> bool {
        self.left() > 0 && !self.visited.contains(self.current)
    }

    /// The end of the walk over the stored inodes.
    pub open spec fn end(self, rows: Ancestors) -> WalkEnd {
        walk(
            rows,
            self.start,
            self.root,
            self.maximum,
            self.current,
            self.visited,
            self.left() as nat,
        )
    }

    /// The walk after one parent edge.
    pub open spec fn stepped(self, parent: Seq<u8>) -> WalkView {
        WalkView {
            start: self.start,
            root: self.root,
            maximum: self.maximum,
            current: stored_inode(parent),
            visited: self.visited.push(self.current),
        }
    }

    /// What the stored row of the current inode says: nothing, if the walk has
    /// arrived at the root or may go on from there.
    pub open spec fn verdict(self, row: Option<AncestorRow<Seq<u8>>>) -> WalkEnd {
        match row {
            None => Ok(Some(missing_relation_view("directory ancestor inode"))),
            Some(row) => if row.kind != DIRECTORY_KIND {
                Ok(Some(invalid_relation_view("directory ancestor is not a directory")))
            } else {
                match row.parent {
                    None => Ok(Some(missing_relation_view("directory parent inode"))),
                    Some(parent) => if parent.len() != 16 {
                        Err(inode_width_failure(parent.len()))
                    } else if self.current == self.root {
                        if stored_inode(parent) == self.root {
                            Ok(None)
                        } else {
                            Ok(
                                Some(
                                    invalid_relation_view(
                                        "filesystem root directory is not self-parented",
                                    ),
                                ),
                            )
                        }
                    } else if self.stepped(parent).left() <= 0 {
                        Ok(
                            Some(
                                MalformedCommit::InvalidRecord(
                                    RecordValidationError::DirectoryAncestorLimit {
                                        maximum: self.maximum,
                                    },
                                ),
                            ),
                        )
                    } else if !self.stepped(parent).open() {
                        Ok(
                            Some(
                                MalformedCommit::InvalidRecord(
                                    RecordValidationError::DirectoryCycle { inode_id: self.start },
                                ),
                            ),
                        )
                    } else {
                        Ok(None)
                    },
                }
            },
        }
    }
}

/// Taken step by step, a walk ends as the walk over all stored inodes does: a
/// step that refuses or fails gives the end, one that arrives is the accepted
/// end, and any other leaves the end as it was.
pub proof fn law_steps_follow_the_walk(
    view: WalkView,
    rows: Ancestors,
    row: Option<AncestorRow<Seq<u8>>>,
)
    requires
        view.open(),
        match row {
            Some(row) => rows.dom().contains(view.current) && rows[view.current] == row,
            None => !rows.dom().contains(view.current),
        },
    ensures
        view.end(rows) == (if view.verdict(row) == Ok::<Option<Malformed>, StateFailure>(None)
            && view.current != view.root {
            view.stepped(row->0.parent->0).end(rows)
        } else {
            view.verdict(row)
        }),
{
    match row {
        Some(row) => {
            match row.parent {
                Some(parent) => {
                    let next = view.stepped(parent);
                    assert(next.end(rows) == walk(
                        rows,
                        view.start,
                        view.root,
                        view.maximum,
                        stored_inode(parent),
                        view.visited.push(view.current),
                        (view.left() - 1) as nat,
                    ));
                },
                None => {},
            }
        },
        None => {},
    }
}

/// A walk in progress.
#[derive(Clone, Debug)]
pub struct AncestryWalk {
    /// Directory from which the walk started.
    pub start: InodeId,
    /// Filesystem root.
    pub root: InodeId,
    /// Largest accepted number of parent edges.
    pub maximum: u32,
    /// Inode to visit next.
    pub current: InodeId,
    /// Inodes visited so far.
    pub visited: Vec<InodeId>,
}

impl View for AncestryWalk {
    type V = WalkView;

    open spec fn view(&self) -> WalkView {
        WalkView {
            start: self.start,
            root: self.root,
            maximum: self.maximum,
            current: self.current,
            visited: self.visited@,
        }
    }
}

/// Text that reads one inode on the way to the root.
pub const ANCESTOR_SQL: &'static str =
    "SELECT \"kind\", \"directory_parent_inode_id\" FROM \"public\".\"w9pt_fs_state_inodes\" WHERE \"filesystem_id\" = $1 AND \"inode_id\" = $2";

/// What a step of a walk leads to.
#[derive(Clone, Debug, PartialEq, Eq)]
pub enum WalkStep {
    /// The next inode must be read.
    Read,
    /// The walk has arrived at the root.
    Accepted,
    /// The walk is refused.
    Refused(MalformedCommit),
}

impl AncestryWalk {
    /// Starts a walk.
    pub fn new(start: InodeId, root: InodeId, maximum: u32) -> (result: Self)
        ensures
            result@ == started_walk(start, root, maximum),
    {
        let result = AncestryWalk { start, root, maximum, current: start, visited: Vec::new() };
        assert(result@ =~= started_walk(start, root, maximum));
        result
    }

    fn has_visited(&self, inode_id: InodeId) -> (result: bool)
        ensures
            result == self.visited@.contains(inode_id),
    {
        let mut index: usize = 0;
        while index < self.visited.len()
            invariant
                index <= self.visited@.len(),
                forall|i: int| 0 <= i < index ==> self.visited@[i] != inode_id,
            decreases self.visited@.len() - index,
        {
            if self.visited[index] == inode_id {
                return true;
            }
            index = index + 1;
        }
        false
    }

    /// The statement that reads the current inode.
    pub fn statement(&self, filesystem_id: FilesystemId) -> (result: PostgresQuery)
        ensures
            result@ == statement::text_only(ANCESTOR_SQL@).with_id(filesystem_id.value).with_id(
                self.current.value,
            ),
    {
        query(ANCESTOR_SQL).bind_id(filesystem_id.value).bind_id(self.current.value)
    }

    /// Takes what is stored of the current inode.
    pub fn visit(&mut self, row: &Option<AncestorRow>) -> (result: Result<
        WalkStep,
        PostgresStateError,
    >)
        requires
            old(self)@.open(),
        ensures
            ({
                let view = match row {
                    Some(row) => Some(row@),
                    None => None,
                };
                let verdict = old(self)@.verdict(view);
                match result {
                    Ok(WalkStep::Read) => {
                        &&& verdict == Ok::<Option<Malformed>, StateFailure>(None)
                        &&& old(self)@.current != old(self)@.root
                        &&& final(self)@ == old(self)@.stepped(row->0.parent->0@)
                        &&& final(self)@.open()
                    },
                    Ok(WalkStep::Accepted) => {
                        &&& verdict == Ok::<Option<Malformed>, StateFailure>(None)
                        &&& old(self)@.current == old(self)@.root
                        &&& *final(self) == *old(self)
                    },
                    Ok(WalkStep::Refused(error)) => verdict == Ok::<
                        Option<Malformed>,
                        StateFailure,
                    >(Some(error@)) && *final(self) == *old(self),
                    Err(error) => verdict == Err::<Option<Malformed>, StateFailure>(error@)
                        && *final(self) == *old(self),
                }
            }),
    {
        let row = match row {
            Some(row) => row,
            None => {
                return Ok(WalkStep::Refused(missing_relation("directory ancestor inode")));
            },
        };
        if row.kind != DIRECTORY_KIND {
            return Ok(
                WalkStep::Refused(invalid_relation("directory ancestor is not a directory")),
            );
        }
        let parent = match &row.parent {
            Some(parent) => decode_inode_identity(parent)?,
            None => {
                return Ok(WalkStep::Refused(missing_relation("directory parent inode")));
            },
        };
        if self.current == self.root {
            if parent == self.root {
                return Ok(WalkStep::Accepted);
            }
            return Ok(
                WalkStep::Refused(
                    invalid_relation("filesystem root directory is not self-parented"),
                ),
            );
        }
        let ghost stepped = self@.stepped(row.parent->0@);
        if self.visited.len() as u64 >= self.maximum as u64 {
            return Ok(
                WalkStep::Refused(
                    MalformedCommit::InvalidRecord(
                        RecordValidationError::DirectoryAncestorLimit { maximum: self.maximum },
                    ),
                ),
            );
        }
        proof {
            let visited = self.visited@;
            let current = self.current;
            assert forall|id: InodeId| #[trigger] visited.push(current).contains(id) <==> (
            visited.contains(id) || id == current) by {
                if visited.contains(id) {
                    let i = choose|i: int| 0 <= i < visited.len() && visited[i] == id;
                    assert(visited.push(current)[i] == id);
                }
                if id == current {
                    assert(visited.push(current)[visited.len() as int] == id);
                }
            }
        }
        if parent == self.current || self.has_visited(parent) {
            return Ok(
                WalkStep::Refused(
                    MalformedCommit::InvalidRecord(
                        RecordValidationError::DirectoryCycle { inode_id: self.start },
                    ),
                ),
            );
        }
        self.visited.push(self.current);
        self.current = parent;
        assert(self@ =~= stepped);
        Ok(WalkStep::Read)
    }
}

} // verus!
