//! Stable SQL encoding of record keys.
use vstd::prelude::*;

use crate::bytes;
use crate::ids::{
    FilesystemId, InodeId, LockId, MutationId, OpenId, WriterScopeId, XattrStagingId,
};
use crate::key;
use crate::key::{insert_sorted, RecordKey};
use crate::limits::StateLimits;
use crate::request;
use crate::request::{MalformedCommit, StateChange};
use crate::values;
use crate::values::{BoundedValueError, EntryName, XattrName};

verus! {

/// Canonical sortable components persisted with a change.
#[derive(Clone, Debug, PartialEq, Eq, PartialOrd, Ord)]
pub struct SqlRecordKey<B = Vec<u8>> {
    /// Family number.
    pub family_tag: i16,
    /// Filesystem.
    pub filesystem_id: FilesystemId,
    /// First component, empty where the family has none.
    pub component_a: B,
    /// Second component, empty where the family has none.
    pub component_b: B,
}

impl View for SqlRecordKey<Vec<u8>> {
    type V = SqlRecordKey<Seq<u8>>;

    open spec fn view(&self) -> SqlRecordKey<Seq<u8>> {
        SqlRecordKey {
            family_tag: self.family_tag,
            filesystem_id: self.filesystem_id,
            component_a: self.component_a@,
            component_b: self.component_b@,
        }
    }
}

/// A persisted key tag or component was malformed.
#[derive(Clone, Copy, Debug, PartialEq, Eq)]
pub enum KeyCodecError {
    /// A fixed-width identity had the wrong byte count.
    FixedWidth {
        /// Component field name.
        field: &'static str,
        /// Observed byte count.
        actual: usize,
    },
    /// A family tag is not known.
    UnknownFamilyTag(i16),
    /// Components do not match the family tag.
    InvalidComponentShape {
        /// Persisted family tag.
        family_tag: i16,
    },
    /// A name broke its bounds or syntax.
    Bounded(BoundedValueError),
}

/// The components of a key.
pub open spec fn sql_key(key: RecordKey<Seq<u8>>) -> SqlRecordKey<Seq<u8>> {
    SqlRecordKey {
        family_tag: key::family_tag(key),
        filesystem_id: key::key_filesystem(key),
        component_a: key::component_a(key),
        component_b: key::component_b(key),
    }
}

/// Order of stored keys: by tag, filesystem, first and second component.
pub open spec fn sql_key_lt(left: SqlRecordKey<Seq<u8>>, right: SqlRecordKey<Seq<u8>>) -> bool {
    if left.family_tag != right.family_tag {
        left.family_tag < right.family_tag
    } else if left.filesystem_id != right.filesystem_id {
        left.filesystem_id.value < right.filesystem_id.value
    } else if left.component_a != right.component_a {
        bytes::lex_lt(left.component_a, right.component_a)
    } else {
        bytes::lex_lt(left.component_b, right.component_b)
    }
}

/// Field name of the first component of a family.
pub open spec fn field_a(tag: i16) -> &'static str {
    if tag == 3 {
        "parent_inode_id"
    } else if tag == 4 {
        "open_id"
    } else if tag == 9 {
        "staging_id"
    } else if tag == 10 {
        "mutation_id"
    } else if tag == 11 {
        "writer_scope_id"
    } else {
        "inode_id"
    }
}

/// Whether a family has a second component.
pub open spec fn has_component_b(tag: i16) -> bool {
    tag == 3 || tag == 5 || tag == 7 || tag == 8
}

/// Why bytes are not a fixed-width identity.
pub open spec fn component_failure(field: &'static str, bytes: Seq<u8>) -> Option<KeyCodecError> {
    if bytes.len() == 16 {
        None
    } else {
        Some(KeyCodecError::FixedWidth { field, actual: bytes.len() as usize })
    }
}

/// Why a second component does not fit its family.
pub open spec fn component_b_failure(sql: SqlRecordKey<Seq<u8>>, limits: StateLimits) -> Option<
    KeyCodecError,
> {
    if sql.family_tag == 5 {
        component_failure("open_id", sql.component_b)
    } else if sql.family_tag == 7 {
        component_failure("lock_id", sql.component_b)
    } else {
        let failure = if sql.family_tag == 3 {
            values::entry_name_failure(sql.component_b, limits)
        } else {
            values::xattr_name_failure(sql.component_b, limits)
        };
        match failure {
            Some(error) => Some(KeyCodecError::Bounded(error)),
            None => None,
        }
    }
}

/// Why stored components are not a key.
pub open spec fn sql_key_failure(sql: SqlRecordKey<Seq<u8>>, limits: StateLimits) -> Option<
    KeyCodecError,
> {
    let tag = sql.family_tag;
    if !(1 <= tag <= 11) {
        Some(KeyCodecError::UnknownFamilyTag(tag))
    } else if (tag == 1 && sql.component_a.len() > 0) || (!has_component_b(tag)
        && sql.component_b.len() > 0) {
        Some(KeyCodecError::InvalidComponentShape { family_tag: tag })
    } else if tag == 1 {
        None
    } else if component_failure(field_a(tag), sql.component_a) is Some {
        component_failure(field_a(tag), sql.component_a)
    } else if has_component_b(tag) {
        component_b_failure(sql, limits)
    } else {
        None
    }
}

/// The key that valid components name.
pub open spec fn sql_key_value(sql: SqlRecordKey<Seq<u8>>) -> RecordKey<Seq<u8>> {
    let tag = sql.family_tag;
    let filesystem = sql.filesystem_id;
    let a = bytes::id_value(sql.component_a);
    let b = bytes::id_value(sql.component_b);
    if tag == 1 {
        RecordKey::Filesystem(filesystem)
    } else if tag == 2 {
        RecordKey::Inode(filesystem, InodeId { value: a })
    } else if tag == 3 {
        RecordKey::DirectoryEntry(
            filesystem,
            InodeId { value: a },
            EntryName { bytes: sql.component_b },
        )
    } else if tag == 4 {
        RecordKey::Open(filesystem, OpenId { value: a })
    } else if tag == 5 {
        RecordKey::OpenPin(filesystem, InodeId { value: a }, OpenId { value: b })
    } else if tag == 6 {
        RecordKey::Orphan(filesystem, InodeId { value: a })
    } else if tag == 7 {
        RecordKey::Lock(filesystem, InodeId { value: a }, LockId { value: b })
    } else if tag == 8 {
        RecordKey::Xattr(
            filesystem,
            InodeId { value: a },
            XattrName { bytes: sql.component_b },
        )
    } else if tag == 9 {
        RecordKey::XattrStaging(filesystem, XattrStagingId { value: a })
    } else if tag == 10 {
        RecordKey::Mutation(filesystem, MutationId { value: a })
    } else {
        RecordKey::WriterLease(filesystem, WriterScopeId { value: a })
    }
}

/// The names in a key meet the limits.
pub open spec fn key_valid(key: RecordKey<Seq<u8>>, limits: StateLimits) -> bool {
    match key {
        RecordKey::DirectoryEntry(_, _, name) => values::entry_name_failure(name.bytes, limits)
            is None,
        RecordKey::Xattr(_, _, name) => values::xattr_name_failure(name.bytes, limits) is None,
        _ => true,
    }
}

/// Reads a fixed-width identity.
pub fn fixed_component(field: &'static str, bytes: &Vec<u8>) -> (result: Result<
    u128,
    KeyCodecError,
>)
    ensures
        match result {
            Ok(value) => component_failure(field, bytes@) is None && value == bytes::id_value(
                bytes@,
            ),
            Err(error) => component_failure(field, bytes@) == Some(error),
        },
{
    if bytes.len() == 16 {
        Ok(bytes::id_from_bytes(bytes))
    } else {
        Err(KeyCodecError::FixedWidth { field, actual: bytes.len() })
    }
}

fn bounded<V>(result: Result<V, BoundedValueError>) -> (outcome: Result<V, KeyCodecError>)
    ensures
        match result {
            Ok(value) => outcome == Ok::<V, KeyCodecError>(value),
            Err(error) => outcome == Err::<V, KeyCodecError>(KeyCodecError::Bounded(error)),
        },
{
    match result {
        Ok(value) => Ok(value),
        Err(error) => Err(KeyCodecError::Bounded(error)),
    }
}

impl SqlRecordKey<Vec<u8>> {
    /// The stored components of a key.
    pub fn encode(key: &RecordKey) -> (result: Self)
        ensures
            result@ == sql_key(key@),
    {
        let component_a = match key.first_identity() {
            Some(value) => bytes::id_vec(value),
            None => Vec::new(),
        };
        let component_b = match key {
            RecordKey::DirectoryEntry(_, _, name) => bytes::copy_bytes(name.as_bytes()),
            RecordKey::OpenPin(_, _, open_id) => bytes::id_vec(open_id.value),
            RecordKey::Lock(_, _, lock_id) => bytes::id_vec(lock_id.value),
            RecordKey::Xattr(_, _, name) => bytes::copy_bytes(name.as_bytes()),
            _ => Vec::new(),
        };
        proof {
            assert(component_a@ =~= key::component_a(key@));
            assert(component_b@ =~= key::component_b(key@));
        }
        SqlRecordKey {
            family_tag: key.tag(),
            filesystem_id: key.filesystem_id(),
            component_a,
            component_b,
        }
    }

    /// The key that stored components name. Content metadata has no stored key:
    /// its family number is not known here.
    pub fn decode(&self, limits: StateLimits) -> (result: Result<RecordKey, KeyCodecError>)
        ensures
            match result {
                Ok(key) => sql_key_failure(self@, limits) is None && key@ == sql_key_value(self@),
                Err(error) => sql_key_failure(self@, limits) == Some(error),
            },
    {
        let tag: i16 = self.family_tag;
        if tag < 1 || tag > 11 {
            return Err(KeyCodecError::UnknownFamilyTag(tag));
        }
        let two = tag == 3 || tag == 5 || tag == 7 || tag == 8;
        if (tag == 1 && self.component_a.len() > 0) || (!two && self.component_b.len() > 0) {
            return Err(KeyCodecError::InvalidComponentShape { family_tag: tag });
        }
        let filesystem = self.filesystem_id;
        let a = &self.component_a;
        match tag {
            1 => Ok(RecordKey::Filesystem(filesystem)),
            2 => {
                let inode: u128 = fixed_component("inode_id", a)?;
                Ok(RecordKey::Inode(filesystem, InodeId { value: inode }))
            },
            3 => {
                let parent: u128 = fixed_component("parent_inode_id", a)?;
                let name = bounded(EntryName::new(bytes::copy_bytes(&self.component_b), limits))?;
                Ok(RecordKey::DirectoryEntry(filesystem, InodeId { value: parent }, name))
            },
            4 => {
                let open: u128 = fixed_component("open_id", a)?;
                Ok(RecordKey::Open(filesystem, OpenId { value: open }))
            },
            5 => {
                let inode: u128 = fixed_component("inode_id", a)?;
                let open: u128 = fixed_component("open_id", &self.component_b)?;
                Ok(RecordKey::OpenPin(filesystem, InodeId { value: inode }, OpenId { value: open }))
            },
            6 => {
                let inode: u128 = fixed_component("inode_id", a)?;
                Ok(RecordKey::Orphan(filesystem, InodeId { value: inode }))
            },
            7 => {
                let inode: u128 = fixed_component("inode_id", a)?;
                let lock: u128 = fixed_component("lock_id", &self.component_b)?;
                Ok(RecordKey::Lock(filesystem, InodeId { value: inode }, LockId { value: lock }))
            },
            8 => {
                let inode: u128 = fixed_component("inode_id", a)?;
                let name = bounded(XattrName::new(bytes::copy_bytes(&self.component_b), limits))?;
                Ok(RecordKey::Xattr(filesystem, InodeId { value: inode }, name))
            },
            9 => {
                let staging: u128 = fixed_component("staging_id", a)?;
                Ok(RecordKey::XattrStaging(filesystem, XattrStagingId { value: staging }))
            },
            10 => {
                let mutation: u128 = fixed_component("mutation_id", a)?;
                Ok(RecordKey::Mutation(filesystem, MutationId { value: mutation }))
            },
            _ => {
                let scope: u128 = fixed_component("writer_scope_id", a)?;
                Ok(RecordKey::WriterLease(filesystem, WriterScopeId { value: scope }))
            },
        }
    }

    /// The first component as a nullable column.
    pub fn sql_component_a(&self) -> (result: Option<&Vec<u8>>)
        ensures
            self.component_a@.len() == 0 ==> result is None,
            self.component_a@.len() > 0 ==> result == Some(&self.component_a),
    {
        if self.component_a.len() == 0 {
            None
        } else {
            Some(&self.component_a)
        }
    }

    /// The second component as a nullable column.
    pub fn sql_component_b(&self) -> (result: Option<&Vec<u8>>)
        ensures
            self.component_b@.len() == 0 ==> result is None,
            self.component_b@.len() > 0 ==> result == Some(&self.component_b),
    {
        if self.component_b.len() == 0 {
            None
        } else {
            Some(&self.component_b)
        }
    }
}

/// Every key of every stored family reads back as it was stored.
pub proof fn law_key_round_trip(key: RecordKey<Seq<u8>>, limits: StateLimits)
    requires
        key_valid(key, limits),
        !(key is ContentMetadata),
    ensures
        sql_key_failure(sql_key(key), limits) is None,
        sql_key_value(sql_key(key)) == key,
{
    match key::key_first(key) {
        Some(value) => bytes::lemma_id_round_trip(value),
        None => {},
    }
    match key {
        RecordKey::OpenPin(_, _, open_id) => bytes::lemma_id_round_trip(open_id.value),
        RecordKey::Lock(_, _, lock_id) => bytes::lemma_id_round_trip(lock_id.value),
        _ => {},
    }
}

/// The key of content metadata never reads back.
pub proof fn law_content_metadata_keys_are_unknown(key: RecordKey<Seq<u8>>, limits: StateLimits)
    requires
        key is ContentMetadata,
    ensures
        sql_key_failure(sql_key(key), limits) == Some(
            KeyCodecError::UnknownFamilyTag(key::family_tag(key)),
        ),
{
}

/// Components that name a key are the components that the key is stored as.
pub proof fn law_stored_key_round_trip(sql: SqlRecordKey<Seq<u8>>, limits: StateLimits)
    requires
        sql_key_failure(sql, limits) is None,
    ensures
        sql_key(sql_key_value(sql)) == sql,
        key_valid(sql_key_value(sql), limits),
{
    if sql.family_tag != 1 {
        bytes::lemma_id_value_round_trip(sql.component_a);
    }
    if sql.family_tag == 5 || sql.family_tag == 7 {
        bytes::lemma_id_value_round_trip(sql.component_b);
    }
    assert(sql_key(sql_key_value(sql)).component_a =~= sql.component_a);
    assert(sql_key(sql_key_value(sql)).component_b =~= sql.component_b);
}

/// Stored keys stand in the order of the keys they store.
pub proof fn law_stored_order(left: RecordKey<Seq<u8>>, right: RecordKey<Seq<u8>>)
    ensures
        sql_key_lt(sql_key(left), sql_key(right)) == key::key_lt(left, right),
        sql_key(left) == sql_key(right) <==> left == right,
{
    if sql_key(left) == sql_key(right) {
        key::lemma_key_parts_injective(left, right);
    }
}

/// A change that only allocates numbers from the filesystem record.
pub open spec fn is_allocation(change: StateChange<Seq<u8>, Seq<char>>) -> bool {
    change is AdvanceDirectoryCookie || change is AdvanceQidPath
}

/// A change touches a record.
pub open spec fn touches(
    filesystem_id: FilesystemId,
    change: StateChange<Seq<u8>, Seq<char>>,
    key: RecordKey<Seq<u8>>,
) -> bool {
    request::primary_key(filesystem_id, change) == key || request::secondary_key(
        filesystem_id,
        change,
    ) == Some(key)
}

/// A change before `index` touches a record.
pub open spec fn touched_before(
    filesystem_id: FilesystemId,
    changes: Seq<StateChange<Seq<u8>, Seq<char>>>,
    index: int,
    key: RecordKey<Seq<u8>>,
) -> bool {
    exists|i: int| 0 <= i < index && touches(filesystem_id, #[trigger] changes[i], key)
}

/// A change before `index` allocates from the same counter.
pub open spec fn allocated_before(
    changes: Seq<StateChange<Seq<u8>, Seq<char>>>,
    index: int,
) -> bool {
    ||| changes[index] is AdvanceDirectoryCookie && exists|i: int|
        0 <= i < index && #[trigger] changes[i] is AdvanceDirectoryCookie
    ||| changes[index] is AdvanceQidPath && exists|i: int|
        0 <= i < index && #[trigger] changes[i] is AdvanceQidPath
}

/// A change before `index` is about a filesystem record.
pub open spec fn filesystem_before(
    filesystem_id: FilesystemId,
    changes: Seq<StateChange<Seq<u8>, Seq<char>>>,
    index: int,
) -> bool {
    exists|i: int|
        0 <= i < index && request::primary_key(filesystem_id, #[trigger] changes[i]) is Filesystem
}

/// All changes before `index` that are about a filesystem record allocate.
pub open spec fn only_allocations_before(
    filesystem_id: FilesystemId,
    changes: Seq<StateChange<Seq<u8>, Seq<char>>>,
    index: int,
) -> bool {
    forall|i: int|
        0 <= i < index && request::primary_key(filesystem_id, #[trigger] changes[i]) is Filesystem
            ==> is_allocation(changes[i])
}

/// The record that a change targets although an earlier one does. The two
/// allocations from the filesystem record may stand together.
pub open spec fn duplicate_target(
    filesystem_id: FilesystemId,
    changes: Seq<StateChange<Seq<u8>, Seq<char>>>,
    index: int,
) -> Option<RecordKey<Seq<u8>>> {
    let primary = request::primary_key(filesystem_id, changes[index]);
    let secondary = request::secondary_key(filesystem_id, changes[index]);
    if allocated_before(changes, index) {
        Some(RecordKey::Filesystem(filesystem_id))
    } else if primary is Filesystem {
        if filesystem_before(filesystem_id, changes, index) && !(is_allocation(changes[index])
            && only_allocations_before(filesystem_id, changes, index)) {
            Some(primary)
        } else {
            None
        }
    } else if touched_before(filesystem_id, changes, index, primary) {
        Some(primary)
    } else {
        match secondary {
            Some(key) => if touched_before(filesystem_id, changes, index, key) {
                Some(key)
            } else {
                None
            },
            None => None,
        }
    }
}

/// No two changes target one record.
pub open spec fn targets_once(
    filesystem_id: FilesystemId,
    changes: Seq<StateChange<Seq<u8>, Seq<char>>>,
) -> bool {
    forall|i: int|
        0 <= i < changes.len() ==> #[trigger] duplicate_target(filesystem_id, changes, i) is None
}

/// The change at an index is the first to target a record again, and this is
/// the record.
pub open spec fn first_duplicate(
    filesystem_id: FilesystemId,
    changes: Seq<StateChange<Seq<u8>, Seq<char>>>,
    index: int,
    target: RecordKey<Seq<u8>>,
) -> bool {
    &&& 0 <= index < changes.len()
    &&& duplicate_target(filesystem_id, changes, index) == Some(target)
    &&& forall|j: int|
        0 <= j < index ==> #[trigger] duplicate_target(filesystem_id, changes, j) is None
}

/// The records that changes touch, in key order, each once; the first change
/// that targets an already targeted record is refused.
pub fn canonical_affected_keys(filesystem_id: FilesystemId, changes: &Vec<StateChange>) -> (result:
    Result<Vec<RecordKey>, MalformedCommit>)
    ensures
        match result {
            Ok(keys) => {
                &&& key::strictly_sorted(key::key_views(keys@))
                &&& forall|k: RecordKey<Seq<u8>>| #[trigger]
                    key::key_views(keys@).contains(k) <==> touched_before(
                        filesystem_id,
                        request::change_views(changes@),
                        changes@.len() as int,
                        k,
                    )
                &&& targets_once(filesystem_id, request::change_views(changes@))
            },
            Err(error) => exists|i: int, target: RecordKey<Seq<u8>>| #[trigger]
                first_duplicate(filesystem_id, request::change_views(changes@), i, target)
                    && error@ == MalformedCommit::DuplicateChangeTarget(target),
        },
{
    let ghost views = request::change_views(changes@);
    let mut keys: Vec<RecordKey> = Vec::new();
    let mut filesystem_seen = false;
    let mut only_allocations = true;
    let mut directory_seen = false;
    let mut qid_seen = false;
    let mut index: usize = 0;
    while index < changes.len()
        invariant
            index <= changes.len(),
            views == request::change_views(changes@),
            key::strictly_sorted(key::key_views(keys@)),
            forall|k: RecordKey<Seq<u8>>| #[trigger]
                key::key_views(keys@).to_set().contains(k) <==> touched_before(
                    filesystem_id,
                    views,
                    index as int,
                    k,
                ),
            filesystem_seen == filesystem_before(filesystem_id, views, index as int),
            only_allocations == only_allocations_before(filesystem_id, views, index as int),
            directory_seen == exists|i: int|
                0 <= i < index && #[trigger] views[i] is AdvanceDirectoryCookie,
            qid_seen == exists|i: int| 0 <= i < index && #[trigger] views[i] is AdvanceQidPath,
            forall|i: int|
                0 <= i < index ==> #[trigger] duplicate_target(filesystem_id, views, i) is None,
        decreases changes.len() - index,
    {
        let change = &changes[index];
        let ghost at = index as int;
        assert(views[at] == change@);
        let directory = matches!(change, StateChange::AdvanceDirectoryCookie { .. });
        let qid = matches!(change, StateChange::AdvanceQidPath { .. });
        if (directory && directory_seen) || (qid && qid_seen) {
            assert(first_duplicate(
                filesystem_id,
                views,
                at,
                RecordKey::Filesystem(filesystem_id),
            ));
            return Err(
                MalformedCommit::DuplicateChangeTarget(RecordKey::Filesystem(filesystem_id)),
            );
        }
        let allocation = directory || qid;
        let primary = change.primary_key(filesystem_id);
        let about_filesystem = matches!(primary, RecordKey::Filesystem(_));
        let ghost before = key::key_views(keys@).to_set();
        let ghost primary_view = primary@;
        assert(before.contains(primary_view) == key::key_views(keys@).contains(primary_view));
        let inserted = insert_sorted(&mut keys, primary.copied());
        let ghost middle = key::key_views(keys@).to_set();
        if about_filesystem {
            if filesystem_seen && !(allocation && only_allocations) {
                assert(first_duplicate(filesystem_id, views, at, primary_view));
                return Err(MalformedCommit::DuplicateChangeTarget(primary));
            }
        } else if !inserted {
            assert(first_duplicate(filesystem_id, views, at, primary_view));
            return Err(MalformedCommit::DuplicateChangeTarget(primary));
        }
        match change.secondary_key(filesystem_id) {
            Some(secondary) => {
                assert(middle.contains(secondary@) == key::key_views(keys@).contains(secondary@));
                let fresh = insert_sorted(&mut keys, secondary.copied());
                if !fresh {
                    assert(first_duplicate(filesystem_id, views, at, secondary@));
                    return Err(MalformedCommit::DuplicateChangeTarget(secondary));
                }
            },
            None => {},
        }
        assert(duplicate_target(filesystem_id, views, at) is None);
        proof {
            let after = key::key_views(keys@).to_set();
            assert forall|k: RecordKey<Seq<u8>>| #[trigger] after.contains(k) <==> touched_before(
                filesystem_id,
                views,
                at + 1,
                k,
            ) by {
                if touched_before(filesystem_id, views, at, k) {
                    let i = choose|i: int|
                        0 <= i < at && touches(filesystem_id, #[trigger] views[i], k);
                    assert(0 <= i < at + 1 && touches(filesystem_id, views[i], k));
                }
                if touches(filesystem_id, views[at], k) {
                    assert(touched_before(filesystem_id, views, at + 1, k));
                }
                assert(before.contains(k) == touched_before(filesystem_id, views, at, k));
            }
            if about_filesystem {
                assert(filesystem_before(filesystem_id, views, at + 1));
            }
            if filesystem_seen {
                let i = choose|i: int|
                    0 <= i < at && request::primary_key(
                        filesystem_id,
                        #[trigger] views[i],
                    ) is Filesystem;
                assert(request::primary_key(filesystem_id, views[i]) is Filesystem);
                assert(filesystem_before(filesystem_id, views, at + 1));
            }
        }
        filesystem_seen = filesystem_seen || about_filesystem;
        only_allocations = only_allocations && (!about_filesystem || allocation);
        directory_seen = directory_seen || directory;
        qid_seen = qid_seen || qid;
        index = index + 1;
        proof {
            assert(views[at] is AdvanceDirectoryCookie == directory);
            assert(views[at] is AdvanceQidPath == qid);
        }
    }
    proof {
        let all = key::key_views(keys@);
        assert forall|k: RecordKey<Seq<u8>>| #[trigger] all.contains(k) <==> touched_before(
            filesystem_id,
            views,
            changes@.len() as int,
            k,
        ) by {
            assert(all.to_set().contains(k) == all.contains(k));
        }
    }
    Ok(keys)
}

} // verus!
