//! The locked records that a commit reads, by key.
use vstd::prelude::*;

use crate::ids::{FilesystemId, InodeId};
use crate::key::RecordKey;
use crate::record::{InodeRecord, StateRecord};

verus! {

/// What is known of records, by key: a record, or that there is none.
pub type Records = Map<RecordKey<Seq<u8>>, Option<StateRecord<Seq<u8>, Seq<char>>>>;

/// The record under a key, if it is known to be there.
pub open spec fn present(records: Records, key: RecordKey<Seq<u8>>) -> Option<
    StateRecord<Seq<u8>, Seq<char>>,
> {
    if records.dom().contains(key) {
        records[key]
    } else {
        None
    }
}

/// The inode with an identity, if it is known to be there.
pub open spec fn inode_at(
    records: Records,
    filesystem_id: FilesystemId,
    inode_id: InodeId,
) -> Option<InodeRecord<Seq<u8>, Seq<char>>> {
    match present(records, RecordKey::Inode(filesystem_id, inode_id)) {
        Some(StateRecord::Inode(inode)) => Some(inode),
        _ => None,
    }
}

/// A table of records, at most one for each key.
pub struct RecordTable {
    entries: Vec<(RecordKey, Option<StateRecord>)>,
}

spec fn distinct(entries: Seq<(RecordKey, Option<StateRecord>)>) -> bool {
    forall|i: int, j: int|
        0 <= i < j < entries.len() ==> (#[trigger] entries[i]).0@ != (#[trigger] entries[j]).0@
}

spec fn has_key(entries: Seq<(RecordKey, Option<StateRecord>)>, key: RecordKey<Seq<u8>>) -> bool {
    exists|i: int| 0 <= i < entries.len() && (#[trigger] entries[i]).0@ == key
}

spec fn record_view(record: Option<StateRecord>) -> Option<StateRecord<Seq<u8>, Seq<char>>> {
    match record {
        Some(record) => Some(record@),
        None => None,
    }
}

spec fn value_at(entries: Seq<(RecordKey, Option<StateRecord>)>, key: RecordKey<Seq<u8>>) -> Option<
    StateRecord<Seq<u8>, Seq<char>>,
> {
    let i = choose|i: int| 0 <= i < entries.len() && (#[trigger] entries[i]).0@ == key;
    record_view(entries[i].1)
}

spec fn entry_map(entries: Seq<(RecordKey, Option<StateRecord>)>) -> Records {
    Map::new(
        |key: RecordKey<Seq<u8>>| has_key(entries, key),
        |key: RecordKey<Seq<u8>>| value_at(entries, key),
    )
}

proof fn lemma_value_at(entries: Seq<(RecordKey, Option<StateRecord>)>, index: int)
    requires
        distinct(entries),
        0 <= index < entries.len(),
    ensures
        has_key(entries, entries[index].0@),
        value_at(entries, entries[index].0@) == record_view(entries[index].1),
{
}

impl View for RecordTable {
    type V = Records;

    closed spec fn view(&self) -> Records {
        entry_map(self.entries@)
    }
}

impl RecordTable {
    #[verifier::type_invariant]
    spec fn well_formed(self) -> bool {
        distinct(self.entries@)
    }

    /// A table that knows nothing.
    pub fn new() -> (result: Self)
        ensures
            result@ == Map::<
                RecordKey<Seq<u8>>,
                Option<StateRecord<Seq<u8>, Seq<char>>>,
            >::empty(),
    {
        let result = RecordTable { entries: Vec::new() };
        assert(result@ =~= Map::empty());
        result
    }

    /// Notes what stands under a key.
    pub fn insert(&mut self, key: RecordKey, record: Option<StateRecord>)
        ensures
            final(self)@ == old(self)@.insert(
                key@,
                match record {
                    Some(record) => Some(record@),
                    None => None,
                },
            ),
    {
        proof {
            use_type_invariant(&*self);
        }
        let mut entries: Vec<(RecordKey, Option<StateRecord>)> = Vec::new();
        std::mem::swap(&mut entries, &mut self.entries);
        let ghost before = entries@;
        let mut index: usize = 0;
        while index < entries.len() && !entries[index].0.same(&key)
            invariant
                index <= entries@.len(),
                entries@ == before,
                forall|i: int| 0 <= i < index ==> (#[trigger] before[i]).0@ != key@,
            decreases entries@.len() - index,
        {
            index = index + 1;
        }
        let ghost added = (key, record);
        if index < entries.len() {
            entries.set(index, (key, record));
        } else {
            entries.push((key, record));
        }
        let ghost after = entries@;
        proof {
            let at = index as int;
            assert(after[at] == added);
            assert(distinct(after));
            assert forall|k: RecordKey<Seq<u8>>| has_key(after, k) == (has_key(before, k) || k
                == added.0@) by {
                if has_key(before, k) {
                    let i = choose|i: int|
                        0 <= i < before.len() && (#[trigger] before[i]).0@ == k;
                    if i != at {
                        assert(after[i].0@ == k);
                    }
                }
                if has_key(after, k) {
                    let i = choose|i: int| 0 <= i < after.len() && (#[trigger] after[i]).0@ == k;
                    if i != at {
                        assert(before[i].0@ == k);
                    }
                }
                assert(after[at].0@ == added.0@);
            }
            let expected = entry_map(before).insert(added.0@, record_view(added.1));
            assert forall|k: RecordKey<Seq<u8>>| has_key(after, k) implies value_at(after, k)
                == expected[k] by {
                let i = choose|i: int| 0 <= i < after.len() && (#[trigger] after[i]).0@ == k;
                lemma_value_at(after, i);
                if i != at {
                    assert(before[i] == after[i]);
                    lemma_value_at(before, i);
                    assert(after[at].0@ != k);
                }
            }
            assert(entry_map(after) =~= expected);
        }
        self.entries = entries;
    }

    /// The record under a key, if it is known to be there.
    pub fn get(&self, key: &RecordKey) -> (result: Option<&StateRecord>)
        ensures
            match result {
                Some(record) => present(self@, key@) == Some(record@),
                None => present(self@, key@) is None,
            },
    {
        proof {
            use_type_invariant(&*self);
        }
        let mut index: usize = 0;
        while index < self.entries.len()
            invariant
                index <= self.entries@.len(),
                distinct(self.entries@),
                forall|i: int| 0 <= i < index ==> (#[trigger] self.entries@[i]).0@ != key@,
            decreases self.entries@.len() - index,
        {
            if self.entries[index].0.same(key) {
                proof {
                    lemma_value_at(self.entries@, index as int);
                }
                return match &self.entries[index].1 {
                    Some(record) => Some(record),
                    None => None,
                };
            }
            index = index + 1;
        }
        assert(!has_key(self.entries@, key@));
        None
    }

    /// The inode with an identity, if it is known to be there.
    pub fn inode(&self, filesystem_id: FilesystemId, inode_id: InodeId) -> (result: Option<
        &InodeRecord,
    >)
        ensures
            match result {
                Some(inode) => inode_at(self@, filesystem_id, inode_id) == Some(inode@),
                None => inode_at(self@, filesystem_id, inode_id) is None,
            },
    {
        match self.get(&RecordKey::Inode(filesystem_id, inode_id)) {
            Some(StateRecord::Inode(inode)) => Some(inode),
            _ => None,
        }
    }
}

} // verus!
