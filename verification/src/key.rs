//! Semantic record keys and their total order.
use vstd::prelude::*;

use crate::bytes;
use crate::bytes::{bytes_eq, bytes_lt};
use crate::ids::{
    FileId, FilesystemId, InodeId, LockId, MutationId, OpenId, WriterScopeId, XattrStagingId,
};
use crate::values::{EntryName, XattrName};

verus! {

/// Identity of one record of the authority.
#[derive(Clone, Debug, PartialEq, Eq)]
pub enum RecordKey<B = Vec<u8>> {
    /// The filesystem header.
    Filesystem(FilesystemId),
    /// One inode.
    Inode(FilesystemId, InodeId),
    /// One name in a directory.
    DirectoryEntry(FilesystemId, InodeId, EntryName<B>),
    /// One open handle.
    Open(FilesystemId, OpenId),
    /// One pin that an open handle holds on an inode.
    OpenPin(FilesystemId, InodeId, OpenId),
    /// One unlinked but still pinned inode.
    Orphan(FilesystemId, InodeId),
    /// One byte-range lock.
    Lock(FilesystemId, InodeId, LockId),
    /// One extended attribute.
    Xattr(FilesystemId, InodeId, XattrName<B>),
    /// One staged extended attribute.
    XattrStaging(FilesystemId, XattrStagingId),
    /// One terminal mutation result.
    Mutation(FilesystemId, MutationId),
    /// One writer lease.
    WriterLease(FilesystemId, WriterScopeId),
    /// Opaque metadata of one content file.
    ContentMetadata(FilesystemId, FileId),
}

impl View for RecordKey<Vec<u8>> {
    type V = RecordKey<Seq<u8>>;

    open spec fn view(&self) -> RecordKey<Seq<u8>> {
        match self {
            RecordKey::Filesystem(f) => RecordKey::Filesystem(*f),
            RecordKey::Inode(f, i) => RecordKey::Inode(*f, *i),
            RecordKey::DirectoryEntry(f, p, n) => RecordKey::DirectoryEntry(*f, *p, n@),
            RecordKey::Open(f, o) => RecordKey::Open(*f, *o),
            RecordKey::OpenPin(f, i, o) => RecordKey::OpenPin(*f, *i, *o),
            RecordKey::Orphan(f, i) => RecordKey::Orphan(*f, *i),
            RecordKey::Lock(f, i, l) => RecordKey::Lock(*f, *i, *l),
            RecordKey::Xattr(f, i, n) => RecordKey::Xattr(*f, *i, n@),
            RecordKey::XattrStaging(f, s) => RecordKey::XattrStaging(*f, *s),
            RecordKey::Mutation(f, m) => RecordKey::Mutation(*f, *m),
            RecordKey::WriterLease(f, s) => RecordKey::WriterLease(*f, *s),
            RecordKey::ContentMetadata(f, c) => RecordKey::ContentMetadata(*f, *c),
        }
    }
}

/// Stable family number of a key.
pub open spec fn family_tag<B>(key: RecordKey<B>) -> i16 {
    match key {
        RecordKey::Filesystem(_) => 1,
        RecordKey::Inode(_, _) => 2,
        RecordKey::DirectoryEntry(_, _, _) => 3,
        RecordKey::Open(_, _) => 4,
        RecordKey::OpenPin(_, _, _) => 5,
        RecordKey::Orphan(_, _) => 6,
        RecordKey::Lock(_, _, _) => 7,
        RecordKey::Xattr(_, _, _) => 8,
        RecordKey::XattrStaging(_, _) => 9,
        RecordKey::Mutation(_, _) => 10,
        RecordKey::WriterLease(_, _) => 11,
        RecordKey::ContentMetadata(_, _) => 12,
    }
}

/// The filesystem a key belongs to.
pub open spec fn key_filesystem<B>(key: RecordKey<B>) -> FilesystemId {
    match key {
        RecordKey::Filesystem(f) => f,
        RecordKey::Inode(f, _) => f,
        RecordKey::DirectoryEntry(f, _, _) => f,
        RecordKey::Open(f, _) => f,
        RecordKey::OpenPin(f, _, _) => f,
        RecordKey::Orphan(f, _) => f,
        RecordKey::Lock(f, _, _) => f,
        RecordKey::Xattr(f, _, _) => f,
        RecordKey::XattrStaging(f, _) => f,
        RecordKey::Mutation(f, _) => f,
        RecordKey::WriterLease(f, _) => f,
        RecordKey::ContentMetadata(f, _) => f,
    }
}

/// The identity that follows the filesystem in a key, if there is one.
pub open spec fn key_first<B>(key: RecordKey<B>) -> Option<u128> {
    match key {
        RecordKey::Filesystem(_) => None,
        RecordKey::Inode(_, i) => Some(i.value),
        RecordKey::DirectoryEntry(_, i, _) => Some(i.value),
        RecordKey::Open(_, o) => Some(o.value),
        RecordKey::OpenPin(_, i, _) => Some(i.value),
        RecordKey::Orphan(_, i) => Some(i.value),
        RecordKey::Lock(_, i, _) => Some(i.value),
        RecordKey::Xattr(_, i, _) => Some(i.value),
        RecordKey::XattrStaging(_, s) => Some(s.value),
        RecordKey::Mutation(_, m) => Some(m.value),
        RecordKey::WriterLease(_, s) => Some(s.value),
        RecordKey::ContentMetadata(_, c) => Some(c.value),
    }
}

/// The bytes of the first component of a key, empty where there is none.
pub open spec fn component_a(key: RecordKey<Seq<u8>>) -> Seq<u8> {
    match key_first(key) {
        Some(value) => bytes::id_bytes(value),
        None => seq![],
    }
}

/// The bytes of the second component of a key, empty where there is none.
pub open spec fn component_b(key: RecordKey<Seq<u8>>) -> Seq<u8> {
    match key {
        RecordKey::DirectoryEntry(_, _, n) => n.bytes,
        RecordKey::OpenPin(_, _, o) => bytes::id_bytes(o.value),
        RecordKey::Lock(_, _, l) => bytes::id_bytes(l.value),
        RecordKey::Xattr(_, _, n) => n.bytes,
        _ => seq![],
    }
}

/// Order of keys: by family, filesystem, first and second component.
pub open spec fn key_lt(left: RecordKey<Seq<u8>>, right: RecordKey<Seq<u8>>) -> bool {
    if family_tag(left) != family_tag(right) {
        family_tag(left) < family_tag(right)
    } else if key_filesystem(left) != key_filesystem(right) {
        key_filesystem(left).value < key_filesystem(right).value
    } else if component_a(left) != component_a(right) {
        bytes::lex_lt(component_a(left), component_a(right))
    } else {
        bytes::lex_lt(component_b(left), component_b(right))
    }
}

/// Keys with the same family, filesystem and components are the same key.
pub proof fn lemma_key_parts_injective(left: RecordKey<Seq<u8>>, right: RecordKey<Seq<u8>>)
    requires
        family_tag(left) == family_tag(right),
        key_filesystem(left) == key_filesystem(right),
        component_a(left) == component_a(right),
        component_b(left) == component_b(right),
    ensures
        left == right,
{
    match (key_first(left), key_first(right)) {
        (Some(a), Some(b)) => {
            bytes::lemma_id_round_trip(a);
            bytes::lemma_id_round_trip(b);
        },
        _ => {},
    }
    match (left, right) {
        (RecordKey::OpenPin(_, _, a), RecordKey::OpenPin(_, _, b)) => {
            bytes::lemma_id_round_trip(a.value);
            bytes::lemma_id_round_trip(b.value);
        },
        (RecordKey::Lock(_, _, a), RecordKey::Lock(_, _, b)) => {
            bytes::lemma_id_round_trip(a.value);
            bytes::lemma_id_round_trip(b.value);
        },
        _ => {},
    }
}

/// No key precedes itself.
pub proof fn lemma_key_irreflexive(key: RecordKey<Seq<u8>>)
    ensures
        !key_lt(key, key),
{
    bytes::lemma_lex_irreflexive(component_b(key));
}

/// The key order is transitive.
pub proof fn lemma_key_transitive(
    first: RecordKey<Seq<u8>>,
    second: RecordKey<Seq<u8>>,
    third: RecordKey<Seq<u8>>,
)
    requires
        key_lt(first, second),
        key_lt(second, third),
    ensures
        key_lt(first, third),
{
    if family_tag(first) == family_tag(second) && family_tag(second) == family_tag(third)
        && key_filesystem(first) == key_filesystem(second) && key_filesystem(second)
        == key_filesystem(third) {
        if component_a(first) == component_a(second) && component_a(second) == component_a(third) {
            bytes::lemma_lex_transitive(component_b(first), component_b(second), component_b(third));
        } else if component_a(first) != component_a(second) && component_a(second) != component_a(
            third,
        ) {
            bytes::lemma_lex_transitive(component_a(first), component_a(second), component_a(third));
            if component_a(first) == component_a(third) {
                bytes::lemma_lex_irreflexive(component_a(first));
            }
        }
    }
}

/// Two keys are equal or one precedes the other.
pub proof fn lemma_key_total(left: RecordKey<Seq<u8>>, right: RecordKey<Seq<u8>>)
    ensures
        left == right || key_lt(left, right) || key_lt(right, left),
{
    if family_tag(left) == family_tag(right) && key_filesystem(left) == key_filesystem(right) {
        if component_a(left) != component_a(right) {
            bytes::lemma_lex_total(component_a(left), component_a(right));
        } else {
            bytes::lemma_lex_total(component_b(left), component_b(right));
            if component_b(left) == component_b(right) {
                lemma_key_parts_injective(left, right);
            }
        }
    }
}

impl RecordKey<Vec<u8>> {
    /// The family number of the key.
    pub fn tag(&self) -> (result: i16)
        ensures
            result == family_tag(self@),
    {
        match self {
            RecordKey::Filesystem(_) => 1,
            RecordKey::Inode(_, _) => 2,
            RecordKey::DirectoryEntry(_, _, _) => 3,
            RecordKey::Open(_, _) => 4,
            RecordKey::OpenPin(_, _, _) => 5,
            RecordKey::Orphan(_, _) => 6,
            RecordKey::Lock(_, _, _) => 7,
            RecordKey::Xattr(_, _, _) => 8,
            RecordKey::XattrStaging(_, _) => 9,
            RecordKey::Mutation(_, _) => 10,
            RecordKey::WriterLease(_, _) => 11,
            RecordKey::ContentMetadata(_, _) => 12,
        }
    }

    /// The filesystem the key belongs to.
    pub fn filesystem_id(&self) -> (result: FilesystemId)
        ensures
            result == key_filesystem(self@),
    {
        match self {
            RecordKey::Filesystem(f) => *f,
            RecordKey::Inode(f, _) => *f,
            RecordKey::DirectoryEntry(f, _, _) => *f,
            RecordKey::Open(f, _) => *f,
            RecordKey::OpenPin(f, _, _) => *f,
            RecordKey::Orphan(f, _) => *f,
            RecordKey::Lock(f, _, _) => *f,
            RecordKey::Xattr(f, _, _) => *f,
            RecordKey::XattrStaging(f, _) => *f,
            RecordKey::Mutation(f, _) => *f,
            RecordKey::WriterLease(f, _) => *f,
            RecordKey::ContentMetadata(f, _) => *f,
        }
    }

    /// The identity that follows the filesystem, if there is one.
    pub fn first_identity(&self) -> (result: Option<u128>)
        ensures
            result == key_first(self@),
    {
        match self {
            RecordKey::Filesystem(_) => None,
            RecordKey::Inode(_, i) => Some(i.value),
            RecordKey::DirectoryEntry(_, i, _) => Some(i.value),
            RecordKey::Open(_, o) => Some(o.value),
            RecordKey::OpenPin(_, i, _) => Some(i.value),
            RecordKey::Orphan(_, i) => Some(i.value),
            RecordKey::Lock(_, i, _) => Some(i.value),
            RecordKey::Xattr(_, i, _) => Some(i.value),
            RecordKey::XattrStaging(_, s) => Some(s.value),
            RecordKey::Mutation(_, m) => Some(m.value),
            RecordKey::WriterLease(_, s) => Some(s.value),
            RecordKey::ContentMetadata(_, c) => Some(c.value),
        }
    }

    /// A copy of the key.
    pub fn copied(&self) -> (result: Self)
        ensures
            result@ == self@,
    {
        match self {
            RecordKey::Filesystem(f) => RecordKey::Filesystem(*f),
            RecordKey::Inode(f, i) => RecordKey::Inode(*f, *i),
            RecordKey::DirectoryEntry(f, p, n) => RecordKey::DirectoryEntry(*f, *p, n.copied()),
            RecordKey::Open(f, o) => RecordKey::Open(*f, *o),
            RecordKey::OpenPin(f, i, o) => RecordKey::OpenPin(*f, *i, *o),
            RecordKey::Orphan(f, i) => RecordKey::Orphan(*f, *i),
            RecordKey::Lock(f, i, l) => RecordKey::Lock(*f, *i, *l),
            RecordKey::Xattr(f, i, n) => RecordKey::Xattr(*f, *i, n.copied()),
            RecordKey::XattrStaging(f, s) => RecordKey::XattrStaging(*f, *s),
            RecordKey::Mutation(f, m) => RecordKey::Mutation(*f, *m),
            RecordKey::WriterLease(f, s) => RecordKey::WriterLease(*f, *s),
            RecordKey::ContentMetadata(f, c) => RecordKey::ContentMetadata(*f, *c),
        }
    }

    /// Whether two keys name the same record.
    pub fn same(&self, other: &Self) -> (result: bool)
        ensures
            result == (self@ == other@),
    {
        match (self, other) {
            (RecordKey::Filesystem(a), RecordKey::Filesystem(b)) => *a == *b,
            (RecordKey::Inode(a, i), RecordKey::Inode(b, j)) => *a == *b && *i == *j,
            (RecordKey::DirectoryEntry(a, i, m), RecordKey::DirectoryEntry(b, j, n)) => *a == *b
                && *i == *j && bytes_eq(&m.bytes, &n.bytes),
            (RecordKey::Open(a, i), RecordKey::Open(b, j)) => *a == *b && *i == *j,
            (RecordKey::OpenPin(a, i, o), RecordKey::OpenPin(b, j, p)) => *a == *b && *i == *j
                && *o == *p,
            (RecordKey::Orphan(a, i), RecordKey::Orphan(b, j)) => *a == *b && *i == *j,
            (RecordKey::Lock(a, i, o), RecordKey::Lock(b, j, p)) => *a == *b && *i == *j && *o
                == *p,
            (RecordKey::Xattr(a, i, m), RecordKey::Xattr(b, j, n)) => *a == *b && *i == *j
                && bytes_eq(&m.bytes, &n.bytes),
            (RecordKey::XattrStaging(a, i), RecordKey::XattrStaging(b, j)) => *a == *b && *i == *j,
            (RecordKey::Mutation(a, i), RecordKey::Mutation(b, j)) => *a == *b && *i == *j,
            (RecordKey::WriterLease(a, i), RecordKey::WriterLease(b, j)) => *a == *b && *i == *j,
            (RecordKey::ContentMetadata(a, i), RecordKey::ContentMetadata(b, j)) => *a == *b && *i
                == *j,
            _ => false,
        }
    }

    /// Whether this key stands before another one.
    pub fn precedes(&self, other: &Self) -> (result: bool)
        ensures
            result == key_lt(self@, other@),
    {
        let left_tag: i16 = self.tag();
        let right_tag: i16 = other.tag();
        if left_tag != right_tag {
            return left_tag < right_tag;
        }
        let left_filesystem = self.filesystem_id();
        let right_filesystem = other.filesystem_id();
        if left_filesystem != right_filesystem {
            return left_filesystem.value < right_filesystem.value;
        }
        match (self.first_identity(), other.first_identity()) {
            (Some(a), Some(b)) => {
                proof {
                    bytes::lemma_id_round_trip(a);
                    bytes::lemma_id_round_trip(b);
                    bytes::lemma_id_order(a, b);
                }
                if a != b {
                    return a < b;
                }
            },
            _ => {},
        }
        match (self, other) {
            (RecordKey::DirectoryEntry(_, _, m), RecordKey::DirectoryEntry(_, _, n)) => bytes_lt(
                &m.bytes,
                &n.bytes,
            ),
            (RecordKey::Xattr(_, _, m), RecordKey::Xattr(_, _, n)) => bytes_lt(&m.bytes, &n.bytes),
            (RecordKey::OpenPin(_, _, m), RecordKey::OpenPin(_, _, n)) => {
                proof {
                    bytes::lemma_id_order(m.value, n.value);
                }
                m.value < n.value
            },
            (RecordKey::Lock(_, _, m), RecordKey::Lock(_, _, n)) => {
                proof {
                    bytes::lemma_id_order(m.value, n.value);
                }
                m.value < n.value
            },
            _ => {
                proof {
                    bytes::lemma_lex_irreflexive(component_b(self@));
                }
                false
            },
        }
    }
}

/// Each key of the sequence stands strictly before all that follow it.
pub open spec fn strictly_sorted(keys: Seq<RecordKey<Seq<u8>>>) -> bool {
    forall|i: int, j: int| 0 <= i < j < keys.len() ==> key_lt(#[trigger] keys[i], #[trigger] keys[j])
}

/// The views of a vector of keys.
pub open spec fn key_views(keys: Seq<RecordKey>) -> Seq<RecordKey<Seq<u8>>> {
    keys.map_values(|key: RecordKey| key@)
}

/// Inserts a key into a strictly sorted vector; tells whether it was new.
pub fn insert_sorted(keys: &mut Vec<RecordKey>, key: RecordKey) -> (inserted: bool)
    requires
        strictly_sorted(key_views(old(keys)@)),
    ensures
        strictly_sorted(key_views(final(keys)@)),
        key_views(final(keys)@).to_set() == key_views(old(keys)@).to_set().insert(key@),
        inserted == !key_views(old(keys)@).contains(key@),
        final(keys)@.len() == old(keys)@.len() + (if inserted {
            1int
        } else {
            0
        }),
{
    let ghost before = key_views(keys@);
    let mut index: usize = 0;
    while index < keys.len() && keys[index].precedes(&key)
        invariant
            index <= keys.len(),
            before == key_views(keys@),
            keys@ == old(keys)@,
            forall|i: int| 0 <= i < index ==> key_lt(#[trigger] before[i], key@),
        decreases keys.len() - index,
    {
        index = index + 1;
    }
    if index < keys.len() && keys[index].same(&key) {
        assert(before[index as int] == key@);
        assert(before.to_set() =~= before.to_set().insert(key@));
        return false;
    }
    proof {
        if index < keys.len() {
            lemma_key_total(before[index as int], key@);
        }
        assert forall|i: int| index <= i < before.len() implies key_lt(
            key@,
            #[trigger] before[i],
        ) by {
            if i > index {
                lemma_key_transitive(key@, before[index as int], before[i]);
            }
        }
        if before.contains(key@) {
            let at = choose|i: int| 0 <= i < before.len() && before[i] == key@;
            lemma_key_irreflexive(key@);
        }
    }
    let ghost added = key@;
    keys.insert(index, key);
    let ghost after = key_views(keys@);
    proof {
        assert(after =~= before.insert(index as int, added));
        assert forall|i: int, j: int| 0 <= i < j < after.len() implies key_lt(
            #[trigger] after[i],
            #[trigger] after[j],
        ) by {
            let from = if i < index { i } else { i - 1 };
            let to = if j < index { j } else { j - 1 };
            if i != index && j != index {
                assert(after[i] == before[from] && after[j] == before[to]);
            } else if i == index {
                assert(after[j] == before[to]);
            } else {
                assert(after[i] == before[from]);
            }
        }
        assert forall|k: RecordKey<Seq<u8>>| after.to_set().contains(k)
            == before.to_set().insert(added).contains(k) by {
            if after.contains(k) {
                let at = choose|i: int| 0 <= i < after.len() && after[i] == k;
                if at < index {
                    assert(before[at] == k);
                } else if at > index {
                    assert(before[at - 1] == k);
                }
            }
            if before.contains(k) {
                let at = choose|i: int| 0 <= i < before.len() && before[i] == k;
                if at < index {
                    assert(after[at] == k);
                } else {
                    assert(after[at + 1] == k);
                }
            }
            assert(after[index as int] == added);
        }
        assert(after.to_set() =~= before.to_set().insert(added));
    }
    true
}

} // verus!
