//! Fixed-width identities and checked counters.
use vstd::prelude::*;

use crate::bytes;
use crate::bytes::{id_array, id_from_array, id_vec};

verus! {

/// A checked number or timestamp left its domain.
#[derive(Clone, Copy, Debug, PartialEq, Eq, Structural)]
pub enum InvalidValue {
    /// A nonzero number was zero.
    Zero,
    /// Advancing a number would leave the `u64` range.
    Exhausted,
    /// A timestamp holds a whole second or more of nanoseconds.
    Nanoseconds,
}

/// Stable identity of one filesystem authority.
#[derive(Clone, Copy, Debug, PartialEq, Eq, PartialOrd, Ord, Hash, Structural)]
pub struct FilesystemId {
    /// The sixteen persisted bytes, read as a big-endian number.
    pub value: u128,
}

impl FilesystemId {
    /// The identity with exactly these bytes.
    pub fn new(bytes: [u8; 16]) -> (result: Self)
        ensures
            bytes::id_bytes(result.value) == bytes@,
    {
        FilesystemId { value: id_from_array(bytes) }
    }

    /// The identity with the big-endian bytes of a number.
    pub fn from_u128(value: u128) -> (result: Self)
        ensures
            result.value == value,
    {
        FilesystemId { value }
    }

    /// The exact persisted bytes.
    pub fn as_bytes(&self) -> (result: [u8; 16])
        ensures
            result@ == bytes::id_bytes(self.value),
    {
        id_array(self.value)
    }

    /// The exact persisted bytes as an owned byte string.
    pub fn to_vec(&self) -> (result: Vec<u8>)
        ensures
            result@ == bytes::id_bytes(self.value),
    {
        id_vec(self.value)
    }
}

/// Stable identity of one inode.
#[derive(Clone, Copy, Debug, PartialEq, Eq, PartialOrd, Ord, Hash, Structural)]
pub struct InodeId {
    /// The sixteen persisted bytes, read as a big-endian number.
    pub value: u128,
}

impl InodeId {
    /// The identity with exactly these bytes.
    pub fn new(bytes: [u8; 16]) -> (result: Self)
        ensures
            bytes::id_bytes(result.value) == bytes@,
    {
        InodeId { value: id_from_array(bytes) }
    }

    /// The identity with the big-endian bytes of a number.
    pub fn from_u128(value: u128) -> (result: Self)
        ensures
            result.value == value,
    {
        InodeId { value }
    }

    /// The exact persisted bytes.
    pub fn as_bytes(&self) -> (result: [u8; 16])
        ensures
            result@ == bytes::id_bytes(self.value),
    {
        id_array(self.value)
    }

    /// The exact persisted bytes as an owned byte string.
    pub fn to_vec(&self) -> (result: Vec<u8>)
        ensures
            result@ == bytes::id_bytes(self.value),
    {
        id_vec(self.value)
    }
}

/// Stable identity of one open file handle.
#[derive(Clone, Copy, Debug, PartialEq, Eq, PartialOrd, Ord, Hash, Structural)]
pub struct OpenId {
    /// The sixteen persisted bytes, read as a big-endian number.
    pub value: u128,
}

impl OpenId {
    /// The identity with exactly these bytes.
    pub fn new(bytes: [u8; 16]) -> (result: Self)
        ensures
            bytes::id_bytes(result.value) == bytes@,
    {
        OpenId { value: id_from_array(bytes) }
    }

    /// The identity with the big-endian bytes of a number.
    pub fn from_u128(value: u128) -> (result: Self)
        ensures
            result.value == value,
    {
        OpenId { value }
    }

    /// The exact persisted bytes.
    pub fn as_bytes(&self) -> (result: [u8; 16])
        ensures
            result@ == bytes::id_bytes(self.value),
    {
        id_array(self.value)
    }

    /// The exact persisted bytes as an owned byte string.
    pub fn to_vec(&self) -> (result: Vec<u8>)
        ensures
            result@ == bytes::id_bytes(self.value),
    {
        id_vec(self.value)
    }
}

/// Stable identity of one byte-range lock.
#[derive(Clone, Copy, Debug, PartialEq, Eq, PartialOrd, Ord, Hash, Structural)]
pub struct LockId {
    /// The sixteen persisted bytes, read as a big-endian number.
    pub value: u128,
}

impl LockId {
    /// The identity with exactly these bytes.
    pub fn new(bytes: [u8; 16]) -> (result: Self)
        ensures
            bytes::id_bytes(result.value) == bytes@,
    {
        LockId { value: id_from_array(bytes) }
    }

    /// The identity with the big-endian bytes of a number.
    pub fn from_u128(value: u128) -> (result: Self)
        ensures
            result.value == value,
    {
        LockId { value }
    }

    /// The exact persisted bytes.
    pub fn as_bytes(&self) -> (result: [u8; 16])
        ensures
            result@ == bytes::id_bytes(self.value),
    {
        id_array(self.value)
    }

    /// The exact persisted bytes as an owned byte string.
    pub fn to_vec(&self) -> (result: Vec<u8>)
        ensures
            result@ == bytes::id_bytes(self.value),
    {
        id_vec(self.value)
    }
}

/// Stable identity of one client incarnation.
#[derive(Clone, Copy, Debug, PartialEq, Eq, PartialOrd, Ord, Hash, Structural)]
pub struct ClientIncarnationId {
    /// The sixteen persisted bytes, read as a big-endian number.
    pub value: u128,
}

impl ClientIncarnationId {
    /// The identity with exactly these bytes.
    pub fn new(bytes: [u8; 16]) -> (result: Self)
        ensures
            bytes::id_bytes(result.value) == bytes@,
    {
        ClientIncarnationId { value: id_from_array(bytes) }
    }

    /// The identity with the big-endian bytes of a number.
    pub fn from_u128(value: u128) -> (result: Self)
        ensures
            result.value == value,
    {
        ClientIncarnationId { value }
    }

    /// The exact persisted bytes.
    pub fn as_bytes(&self) -> (result: [u8; 16])
        ensures
            result@ == bytes::id_bytes(self.value),
    {
        id_array(self.value)
    }

    /// The exact persisted bytes as an owned byte string.
    pub fn to_vec(&self) -> (result: Vec<u8>)
        ensures
            result@ == bytes::id_bytes(self.value),
    {
        id_vec(self.value)
    }
}

/// Stable identity of one writer scope.
#[derive(Clone, Copy, Debug, PartialEq, Eq, PartialOrd, Ord, Hash, Structural)]
pub struct WriterScopeId {
    /// The sixteen persisted bytes, read as a big-endian number.
    pub value: u128,
}

impl WriterScopeId {
    /// The identity with exactly these bytes.
    pub fn new(bytes: [u8; 16]) -> (result: Self)
        ensures
            bytes::id_bytes(result.value) == bytes@,
    {
        WriterScopeId { value: id_from_array(bytes) }
    }

    /// The identity with the big-endian bytes of a number.
    pub fn from_u128(value: u128) -> (result: Self)
        ensures
            result.value == value,
    {
        WriterScopeId { value }
    }

    /// The exact persisted bytes.
    pub fn as_bytes(&self) -> (result: [u8; 16])
        ensures
            result@ == bytes::id_bytes(self.value),
    {
        id_array(self.value)
    }

    /// The exact persisted bytes as an owned byte string.
    pub fn to_vec(&self) -> (result: Vec<u8>)
        ensures
            result@ == bytes::id_bytes(self.value),
    {
        id_vec(self.value)
    }
}

/// Stable identity of one writer incarnation.
#[derive(Clone, Copy, Debug, PartialEq, Eq, PartialOrd, Ord, Hash, Structural)]
pub struct WriterIncarnationId {
    /// The sixteen persisted bytes, read as a big-endian number.
    pub value: u128,
}

impl WriterIncarnationId {
    /// The identity with exactly these bytes.
    pub fn new(bytes: [u8; 16]) -> (result: Self)
        ensures
            bytes::id_bytes(result.value) == bytes@,
    {
        WriterIncarnationId { value: id_from_array(bytes) }
    }

    /// The identity with the big-endian bytes of a number.
    pub fn from_u128(value: u128) -> (result: Self)
        ensures
            result.value == value,
    {
        WriterIncarnationId { value }
    }

    /// The exact persisted bytes.
    pub fn as_bytes(&self) -> (result: [u8; 16])
        ensures
            result@ == bytes::id_bytes(self.value),
    {
        id_array(self.value)
    }

    /// The exact persisted bytes as an owned byte string.
    pub fn to_vec(&self) -> (result: Vec<u8>)
        ensures
            result@ == bytes::id_bytes(self.value),
    {
        id_vec(self.value)
    }
}

/// Stable identity of one writer lease.
#[derive(Clone, Copy, Debug, PartialEq, Eq, PartialOrd, Ord, Hash, Structural)]
pub struct LeaseId {
    /// The sixteen persisted bytes, read as a big-endian number.
    pub value: u128,
}

impl LeaseId {
    /// The identity with exactly these bytes.
    pub fn new(bytes: [u8; 16]) -> (result: Self)
        ensures
            bytes::id_bytes(result.value) == bytes@,
    {
        LeaseId { value: id_from_array(bytes) }
    }

    /// The identity with the big-endian bytes of a number.
    pub fn from_u128(value: u128) -> (result: Self)
        ensures
            result.value == value,
    {
        LeaseId { value }
    }

    /// The exact persisted bytes.
    pub fn as_bytes(&self) -> (result: [u8; 16])
        ensures
            result@ == bytes::id_bytes(self.value),
    {
        id_array(self.value)
    }

    /// The exact persisted bytes as an owned byte string.
    pub fn to_vec(&self) -> (result: Vec<u8>)
        ensures
            result@ == bytes::id_bytes(self.value),
    {
        id_vec(self.value)
    }
}

/// Stable identity of one lease operation.
#[derive(Clone, Copy, Debug, PartialEq, Eq, PartialOrd, Ord, Hash, Structural)]
pub struct LeaseOperationId {
    /// The sixteen persisted bytes, read as a big-endian number.
    pub value: u128,
}

impl LeaseOperationId {
    /// The identity with exactly these bytes.
    pub fn new(bytes: [u8; 16]) -> (result: Self)
        ensures
            bytes::id_bytes(result.value) == bytes@,
    {
        LeaseOperationId { value: id_from_array(bytes) }
    }

    /// The identity with the big-endian bytes of a number.
    pub fn from_u128(value: u128) -> (result: Self)
        ensures
            result.value == value,
    {
        LeaseOperationId { value }
    }

    /// The exact persisted bytes.
    pub fn as_bytes(&self) -> (result: [u8; 16])
        ensures
            result@ == bytes::id_bytes(self.value),
    {
        id_array(self.value)
    }

    /// The exact persisted bytes as an owned byte string.
    pub fn to_vec(&self) -> (result: Vec<u8>)
        ensures
            result@ == bytes::id_bytes(self.value),
    {
        id_vec(self.value)
    }
}

/// Stable identity of one staged extended attribute.
#[derive(Clone, Copy, Debug, PartialEq, Eq, PartialOrd, Ord, Hash, Structural)]
pub struct XattrStagingId {
    /// The sixteen persisted bytes, read as a big-endian number.
    pub value: u128,
}

impl XattrStagingId {
    /// The identity with exactly these bytes.
    pub fn new(bytes: [u8; 16]) -> (result: Self)
        ensures
            bytes::id_bytes(result.value) == bytes@,
    {
        XattrStagingId { value: id_from_array(bytes) }
    }

    /// The identity with the big-endian bytes of a number.
    pub fn from_u128(value: u128) -> (result: Self)
        ensures
            result.value == value,
    {
        XattrStagingId { value }
    }

    /// The exact persisted bytes.
    pub fn as_bytes(&self) -> (result: [u8; 16])
        ensures
            result@ == bytes::id_bytes(self.value),
    {
        id_array(self.value)
    }

    /// The exact persisted bytes as an owned byte string.
    pub fn to_vec(&self) -> (result: Vec<u8>)
        ensures
            result@ == bytes::id_bytes(self.value),
    {
        id_vec(self.value)
    }
}

/// Stable identity of one mutation.
#[derive(Clone, Copy, Debug, PartialEq, Eq, PartialOrd, Ord, Hash, Structural)]
pub struct MutationId {
    /// The sixteen persisted bytes, read as a big-endian number.
    pub value: u128,
}

impl MutationId {
    /// The identity with exactly these bytes.
    pub fn new(bytes: [u8; 16]) -> (result: Self)
        ensures
            bytes::id_bytes(result.value) == bytes@,
    {
        MutationId { value: id_from_array(bytes) }
    }

    /// The identity with the big-endian bytes of a number.
    pub fn from_u128(value: u128) -> (result: Self)
        ensures
            result.value == value,
    {
        MutationId { value }
    }

    /// The exact persisted bytes.
    pub fn as_bytes(&self) -> (result: [u8; 16])
        ensures
            result@ == bytes::id_bytes(self.value),
    {
        id_array(self.value)
    }

    /// The exact persisted bytes as an owned byte string.
    pub fn to_vec(&self) -> (result: Vec<u8>)
        ensures
            result@ == bytes::id_bytes(self.value),
    {
        id_vec(self.value)
    }
}

/// Stable identity of one content file.
#[derive(Clone, Copy, Debug, PartialEq, Eq, PartialOrd, Ord, Hash, Structural)]
pub struct FileId {
    /// The sixteen persisted bytes, read as a big-endian number.
    pub value: u128,
}

impl FileId {
    /// The identity with exactly these bytes.
    pub fn new(bytes: [u8; 16]) -> (result: Self)
        ensures
            bytes::id_bytes(result.value) == bytes@,
    {
        FileId { value: id_from_array(bytes) }
    }

    /// The identity with the big-endian bytes of a number.
    pub fn from_u128(value: u128) -> (result: Self)
        ensures
            result.value == value,
    {
        FileId { value }
    }

    /// The exact persisted bytes.
    pub fn as_bytes(&self) -> (result: [u8; 16])
        ensures
            result@ == bytes::id_bytes(self.value),
    {
        id_array(self.value)
    }

    /// The exact persisted bytes as an owned byte string.
    pub fn to_vec(&self) -> (result: Vec<u8>)
        ensures
            result@ == bytes::id_bytes(self.value),
    {
        id_vec(self.value)
    }
}

/// Stable identity of one content context.
#[derive(Clone, Copy, Debug, PartialEq, Eq, PartialOrd, Ord, Hash, Structural)]
pub struct ContentContextId {
    /// The sixteen persisted bytes, read as a big-endian number.
    pub value: u128,
}

impl ContentContextId {
    /// The identity with exactly these bytes.
    pub fn new(bytes: [u8; 16]) -> (result: Self)
        ensures
            bytes::id_bytes(result.value) == bytes@,
    {
        ContentContextId { value: id_from_array(bytes) }
    }

    /// The identity with the big-endian bytes of a number.
    pub fn from_u128(value: u128) -> (result: Self)
        ensures
            result.value == value,
    {
        ContentContextId { value }
    }

    /// The exact persisted bytes.
    pub fn as_bytes(&self) -> (result: [u8; 16])
        ensures
            result@ == bytes::id_bytes(self.value),
    {
        id_array(self.value)
    }

    /// The exact persisted bytes as an owned byte string.
    pub fn to_vec(&self) -> (result: Vec<u8>)
        ensures
            result@ == bytes::id_bytes(self.value),
    {
        id_vec(self.value)
    }
}

/// Revision of the whole authority; never zero.
#[derive(Clone, Copy, Debug, PartialEq, Eq, PartialOrd, Ord, Hash, Structural)]
pub struct StateRevision {
    /// The number.
    pub value: u64,
}

impl StateRevision {
    /// The number is in its domain.
    pub open spec fn valid(self) -> bool {
        self.value != 0
    }

    /// Accepts every number but zero.
    pub fn new(value: u64) -> (result: Result<Self, InvalidValue>)
        ensures
            result == (if value == 0 {
                Err(InvalidValue::Zero)
            } else {
                Ok(StateRevision { value })
            }),
    {
        if value == 0 {
            Err(InvalidValue::Zero)
        } else {
            Ok(StateRevision { value })
        }
    }

    /// The number itself.
    pub fn get(&self) -> (result: u64)
        ensures
            result == self.value,
    {
        self.value
    }

    /// The following number, if there is one.
    pub open spec fn next(self) -> Option<Self> {
        if self.value < u64::MAX {
            Some(StateRevision { value: (self.value + 1) as u64 })
        } else {
            None
        }
    }

    /// Steps to the following number.
    pub fn checked_next(&self) -> (result: Result<Self, InvalidValue>)
        ensures
            match result {
                Ok(next) => self.next() == Some(next),
                Err(error) => self.next() is None && error == InvalidValue::Exhausted,
            },
    {
        if self.value < u64::MAX {
            Ok(StateRevision { value: self.value + 1 })
        } else {
            Err(InvalidValue::Exhausted)
        }
    }
}

/// Revision at which a record was written; never zero.
#[derive(Clone, Copy, Debug, PartialEq, Eq, PartialOrd, Ord, Hash, Structural)]
pub struct RecordRevision {
    /// The number.
    pub value: u64,
}

impl RecordRevision {
    /// The number is in its domain.
    pub open spec fn valid(self) -> bool {
        self.value != 0
    }

    /// Accepts every number but zero.
    pub fn new(value: u64) -> (result: Result<Self, InvalidValue>)
        ensures
            result == (if value == 0 {
                Err(InvalidValue::Zero)
            } else {
                Ok(RecordRevision { value })
            }),
    {
        if value == 0 {
            Err(InvalidValue::Zero)
        } else {
            Ok(RecordRevision { value })
        }
    }

    /// The number itself.
    pub fn get(&self) -> (result: u64)
        ensures
            result == self.value,
    {
        self.value
    }

    /// The following number, if there is one.
    pub open spec fn next(self) -> Option<Self> {
        if self.value < u64::MAX {
            Some(RecordRevision { value: (self.value + 1) as u64 })
        } else {
            None
        }
    }

    /// Steps to the following number.
    pub fn checked_next(&self) -> (result: Result<Self, InvalidValue>)
        ensures
            match result {
                Ok(next) => self.next() == Some(next),
                Err(error) => self.next() is None && error == InvalidValue::Exhausted,
            },
    {
        if self.value < u64::MAX {
            Ok(RecordRevision { value: self.value + 1 })
        } else {
            Err(InvalidValue::Exhausted)
        }
    }
}

/// Token that fences stale writers; never zero.
#[derive(Clone, Copy, Debug, PartialEq, Eq, PartialOrd, Ord, Hash, Structural)]
pub struct FencingToken {
    /// The number.
    pub value: u64,
}

impl FencingToken {
    /// The number is in its domain.
    pub open spec fn valid(self) -> bool {
        self.value != 0
    }

    /// Accepts every number but zero.
    pub fn new(value: u64) -> (result: Result<Self, InvalidValue>)
        ensures
            result == (if value == 0 {
                Err(InvalidValue::Zero)
            } else {
                Ok(FencingToken { value })
            }),
    {
        if value == 0 {
            Err(InvalidValue::Zero)
        } else {
            Ok(FencingToken { value })
        }
    }

    /// The number itself.
    pub fn get(&self) -> (result: u64)
        ensures
            result == self.value,
    {
        self.value
    }

    /// The following number, if there is one.
    pub open spec fn next(self) -> Option<Self> {
        if self.value < u64::MAX {
            Some(FencingToken { value: (self.value + 1) as u64 })
        } else {
            None
        }
    }

    /// Steps to the following number.
    pub fn checked_next(&self) -> (result: Result<Self, InvalidValue>)
        ensures
            match result {
                Ok(next) => self.next() == Some(next),
                Err(error) => self.next() is None && error == InvalidValue::Exhausted,
            },
    {
        if self.value < u64::MAX {
            Ok(FencingToken { value: self.value + 1 })
        } else {
            Err(InvalidValue::Exhausted)
        }
    }
}

/// Generation of inode metadata; never zero.
#[derive(Clone, Copy, Debug, PartialEq, Eq, PartialOrd, Ord, Hash, Structural)]
pub struct InodeGeneration {
    /// The number.
    pub value: u64,
}

impl InodeGeneration {
    /// The number is in its domain.
    pub open spec fn valid(self) -> bool {
        self.value != 0
    }

    /// Accepts every number but zero.
    pub fn new(value: u64) -> (result: Result<Self, InvalidValue>)
        ensures
            result == (if value == 0 {
                Err(InvalidValue::Zero)
            } else {
                Ok(InodeGeneration { value })
            }),
    {
        if value == 0 {
            Err(InvalidValue::Zero)
        } else {
            Ok(InodeGeneration { value })
        }
    }

    /// The number itself.
    pub fn get(&self) -> (result: u64)
        ensures
            result == self.value,
    {
        self.value
    }

    /// The following number, if there is one.
    pub open spec fn next(self) -> Option<Self> {
        if self.value < u64::MAX {
            Some(InodeGeneration { value: (self.value + 1) as u64 })
        } else {
            None
        }
    }

    /// Steps to the following number.
    pub fn checked_next(&self) -> (result: Result<Self, InvalidValue>)
        ensures
            match result {
                Ok(next) => self.next() == Some(next),
                Err(error) => self.next() is None && error == InvalidValue::Exhausted,
            },
    {
        if self.value < u64::MAX {
            Ok(InodeGeneration { value: self.value + 1 })
        } else {
            Err(InvalidValue::Exhausted)
        }
    }
}

/// Namespace-wide inode path number; never zero.
#[derive(Clone, Copy, Debug, PartialEq, Eq, PartialOrd, Ord, Hash, Structural)]
pub struct QidPath {
    /// The number.
    pub value: u64,
}

impl QidPath {
    /// The number is in its domain.
    pub open spec fn valid(self) -> bool {
        self.value != 0
    }

    /// Accepts every number but zero.
    pub fn new(value: u64) -> (result: Result<Self, InvalidValue>)
        ensures
            result == (if value == 0 {
                Err(InvalidValue::Zero)
            } else {
                Ok(QidPath { value })
            }),
    {
        if value == 0 {
            Err(InvalidValue::Zero)
        } else {
            Ok(QidPath { value })
        }
    }

    /// The number itself.
    pub fn get(&self) -> (result: u64)
        ensures
            result == self.value,
    {
        self.value
    }

    /// The following number, if there is one.
    pub open spec fn next(self) -> Option<Self> {
        if self.value < u64::MAX {
            Some(QidPath { value: (self.value + 1) as u64 })
        } else {
            None
        }
    }

    /// Steps to the following number.
    pub fn checked_next(&self) -> (result: Result<Self, InvalidValue>)
        ensures
            match result {
                Ok(next) => self.next() == Some(next),
                Err(error) => self.next() is None && error == InvalidValue::Exhausted,
            },
    {
        if self.value < u64::MAX {
            Ok(QidPath { value: self.value + 1 })
        } else {
            Err(InvalidValue::Exhausted)
        }
    }
}

/// Generation of directory content; never zero.
#[derive(Clone, Copy, Debug, PartialEq, Eq, PartialOrd, Ord, Hash, Structural)]
pub struct DirectoryGeneration {
    /// The number.
    pub value: u64,
}

impl DirectoryGeneration {
    /// The number is in its domain.
    pub open spec fn valid(self) -> bool {
        self.value != 0
    }

    /// Accepts every number but zero.
    pub fn new(value: u64) -> (result: Result<Self, InvalidValue>)
        ensures
            result == (if value == 0 {
                Err(InvalidValue::Zero)
            } else {
                Ok(DirectoryGeneration { value })
            }),
    {
        if value == 0 {
            Err(InvalidValue::Zero)
        } else {
            Ok(DirectoryGeneration { value })
        }
    }

    /// The number itself.
    pub fn get(&self) -> (result: u64)
        ensures
            result == self.value,
    {
        self.value
    }

    /// The following number, if there is one.
    pub open spec fn next(self) -> Option<Self> {
        if self.value < u64::MAX {
            Some(DirectoryGeneration { value: (self.value + 1) as u64 })
        } else {
            None
        }
    }

    /// Steps to the following number.
    pub fn checked_next(&self) -> (result: Result<Self, InvalidValue>)
        ensures
            match result {
                Ok(next) => self.next() == Some(next),
                Err(error) => self.next() is None && error == InvalidValue::Exhausted,
            },
    {
        if self.value < u64::MAX {
            Ok(DirectoryGeneration { value: self.value + 1 })
        } else {
            Err(InvalidValue::Exhausted)
        }
    }
}

/// Generation of one lock; never zero.
#[derive(Clone, Copy, Debug, PartialEq, Eq, PartialOrd, Ord, Hash, Structural)]
pub struct LockGeneration {
    /// The number.
    pub value: u64,
}

impl LockGeneration {
    /// The number is in its domain.
    pub open spec fn valid(self) -> bool {
        self.value != 0
    }

    /// Accepts every number but zero.
    pub fn new(value: u64) -> (result: Result<Self, InvalidValue>)
        ensures
            result == (if value == 0 {
                Err(InvalidValue::Zero)
            } else {
                Ok(LockGeneration { value })
            }),
    {
        if value == 0 {
            Err(InvalidValue::Zero)
        } else {
            Ok(LockGeneration { value })
        }
    }

    /// The number itself.
    pub fn get(&self) -> (result: u64)
        ensures
            result == self.value,
    {
        self.value
    }

    /// The following number, if there is one.
    pub open spec fn next(self) -> Option<Self> {
        if self.value < u64::MAX {
            Some(LockGeneration { value: (self.value + 1) as u64 })
        } else {
            None
        }
    }

    /// Steps to the following number.
    pub fn checked_next(&self) -> (result: Result<Self, InvalidValue>)
        ensures
            match result {
                Ok(next) => self.next() == Some(next),
                Err(error) => self.next() is None && error == InvalidValue::Exhausted,
            },
    {
        if self.value < u64::MAX {
            Ok(LockGeneration { value: self.value + 1 })
        } else {
            Err(InvalidValue::Exhausted)
        }
    }
}

impl QidPath {
    /// Advances by a count of allocated paths.
    pub fn checked_advance(&self, count: u64) -> (result: Result<Self, InvalidValue>)
        ensures
            match result {
                Ok(next) => next.value == self.value + count,
                Err(error) => self.value + count > u64::MAX && error == InvalidValue::Exhausted,
            },
    {
        match self.value.checked_add(count) {
            Some(value) => Ok(QidPath { value }),
            None => Err(InvalidValue::Exhausted),
        }
    }
}

/// Position of an entry inside its directory; zero stands before every entry.
#[derive(Clone, Copy, Debug, PartialEq, Eq, PartialOrd, Ord, Hash, Structural)]
pub struct DirectoryCookie {
    /// The number.
    pub value: u64,
}

impl DirectoryCookie {
    /// The cookie that stands before every directory entry.
    pub fn start() -> (result: Self)
        ensures
            result.value == 0,
    {
        DirectoryCookie { value: 0 }
    }

    /// The cookie with this number.
    pub fn new(value: u64) -> (result: Self)
        ensures
            result.value == value,
    {
        DirectoryCookie { value }
    }

    /// The number itself.
    pub fn get(&self) -> (result: u64)
        ensures
            result == self.value,
    {
        self.value
    }

    /// The following cookie, if there is one.
    pub open spec fn next(self) -> Option<Self> {
        if self.value < u64::MAX {
            Some(DirectoryCookie { value: (self.value + 1) as u64 })
        } else {
            None
        }
    }

    /// Steps to the following cookie.
    pub fn checked_next(&self) -> (result: Result<Self, InvalidValue>)
        ensures
            match result {
                Ok(next) => self.next() == Some(next),
                Err(error) => self.next() is None && error == InvalidValue::Exhausted,
            },
    {
        if self.value < u64::MAX {
            Ok(DirectoryCookie { value: self.value + 1 })
        } else {
            Err(InvalidValue::Exhausted)
        }
    }

    /// Advances by a count of allocated cookies.
    pub fn checked_advance(&self, count: u64) -> (result: Result<Self, InvalidValue>)
        ensures
            match result {
                Ok(next) => next.value == self.value + count,
                Err(error) => self.value + count > u64::MAX && error == InvalidValue::Exhausted,
            },
    {
        match self.value.checked_add(count) {
            Some(value) => Ok(DirectoryCookie { value }),
            None => Err(InvalidValue::Exhausted),
        }
    }
}

/// Instant of the authoritative lease clock, in ticks.
#[derive(Clone, Copy, Debug, PartialEq, Eq, PartialOrd, Ord, Hash, Structural)]
pub struct LeaseDeadline {
    /// Ticks since the clock's epoch.
    pub value: u64,
}

impl LeaseDeadline {
    /// The instant with this tick.
    pub fn new(value: u64) -> (result: Self)
        ensures
            result.value == value,
    {
        LeaseDeadline { value }
    }

    /// The tick.
    pub fn ticks(&self) -> (result: u64)
        ensures
            result == self.value,
    {
        self.value
    }
}

/// Horizon until which a mutation result is retained.
#[derive(Clone, Copy, Debug, PartialEq, Eq, Structural)]
pub struct MutationRetention {
    /// The horizon.
    pub value: u64,
}

impl MutationRetention {
    /// The retention with this horizon.
    pub fn new(value: u64) -> (result: Self)
        ensures
            result.value == value,
    {
        MutationRetention { value }
    }
}

/// Instant in seconds and nanoseconds since the Unix epoch.
#[derive(Clone, Copy, Debug, PartialEq, Eq, Structural)]
pub struct UnixTimestamp {
    /// Whole seconds, negative before the epoch.
    pub seconds: i64,
    /// Nanoseconds within the second.
    pub nanoseconds: u32,
}

/// Nanoseconds in one second.
pub const NANOSECONDS_PER_SECOND: u32 = 1_000_000_000;

impl UnixTimestamp {
    /// The nanoseconds stay below one second.
    pub open spec fn valid(self) -> bool {
        self.nanoseconds < NANOSECONDS_PER_SECOND
    }

    /// Accepts nanoseconds below one second.
    pub fn new(seconds: i64, nanoseconds: u32) -> (result: Result<Self, InvalidValue>)
        ensures
            result == (if nanoseconds < NANOSECONDS_PER_SECOND {
                Ok(UnixTimestamp { seconds, nanoseconds })
            } else {
                Err(InvalidValue::Nanoseconds)
            }),
    {
        if nanoseconds < NANOSECONDS_PER_SECOND {
            Ok(UnixTimestamp { seconds, nanoseconds })
        } else {
            Err(InvalidValue::Nanoseconds)
        }
    }
}

/// Fingerprint of one request: thirty-two bytes, read as two big-endian halves.
#[derive(Clone, Copy, Debug, PartialEq, Eq, Structural)]
pub struct RequestFingerprint {
    /// The first sixteen bytes.
    pub high: u128,
    /// The last sixteen bytes.
    pub low: u128,
}

impl RequestFingerprint {
    /// The thirty-two bytes.
    pub open spec fn bytes(self) -> Seq<u8> {
        bytes::id_bytes(self.high) + bytes::id_bytes(self.low)
    }

    /// The value with exactly these bytes.
    pub fn new(bytes: [u8; 32]) -> (result: Self)
        ensures
            result.bytes() == bytes@,
    {
        let high: [u8; 16] = [
            bytes[0], bytes[1], bytes[2], bytes[3], bytes[4], bytes[5], bytes[6], bytes[7],
            bytes[8], bytes[9], bytes[10], bytes[11], bytes[12], bytes[13], bytes[14], bytes[15],
        ];
        let low: [u8; 16] = [
            bytes[16], bytes[17], bytes[18], bytes[19], bytes[20], bytes[21], bytes[22], bytes[23],
            bytes[24], bytes[25], bytes[26], bytes[27], bytes[28], bytes[29], bytes[30], bytes[31],
        ];
        let result = RequestFingerprint { high: id_from_array(high), low: id_from_array(low) };
        assert(high@ + low@ =~= bytes@);
        result
    }

    /// The thirty-two bytes as an owned byte string.
    pub fn to_vec(&self) -> (result: Vec<u8>)
        ensures
            result@ == self.bytes(),
    {
        let mut result = id_vec(self.high);
        let mut low = id_vec(self.low);
        result.append(&mut low);
        result
    }
}

/// Digest of one stored object: thirty-two bytes, read as two big-endian halves.
#[derive(Clone, Copy, Debug, PartialEq, Eq, Structural)]
pub struct Digest {
    /// The first sixteen bytes.
    pub high: u128,
    /// The last sixteen bytes.
    pub low: u128,
}

impl Digest {
    /// The thirty-two bytes.
    pub open spec fn bytes(self) -> Seq<u8> {
        bytes::id_bytes(self.high) + bytes::id_bytes(self.low)
    }

    /// The value with exactly these bytes.
    pub fn new(bytes: [u8; 32]) -> (result: Self)
        ensures
            result.bytes() == bytes@,
    {
        let high: [u8; 16] = [
            bytes[0], bytes[1], bytes[2], bytes[3], bytes[4], bytes[5], bytes[6], bytes[7],
            bytes[8], bytes[9], bytes[10], bytes[11], bytes[12], bytes[13], bytes[14], bytes[15],
        ];
        let low: [u8; 16] = [
            bytes[16], bytes[17], bytes[18], bytes[19], bytes[20], bytes[21], bytes[22], bytes[23],
            bytes[24], bytes[25], bytes[26], bytes[27], bytes[28], bytes[29], bytes[30], bytes[31],
        ];
        let result = Digest { high: id_from_array(high), low: id_from_array(low) };
        assert(high@ + low@ =~= bytes@);
        result
    }

    /// The thirty-two bytes as an owned byte string.
    pub fn to_vec(&self) -> (result: Vec<u8>)
        ensures
            result@ == self.bytes(),
    {
        let mut result = id_vec(self.high);
        let mut low = id_vec(self.low);
        result.append(&mut low);
        result
    }
}

} // verus!
