//! Bounded byte-exact values: names, principals, targets and attribute bytes.
use vstd::prelude::*;

use crate::limits::{require_bytes, StateLimitError, StateLimitKind, StateLimits};

verus! {

/// A bounded value was empty, too long or held forbidden bytes.
#[derive(Clone, Copy, Debug, PartialEq, Eq, Structural)]
pub enum BoundedValueError {
    /// The value must not be empty.
    Empty,
    /// The value holds a NUL byte.
    Nul,
    /// A directory-entry name holds a path separator.
    Separator,
    /// A directory-entry name is `.` or `..`.
    Reserved,
    /// A nonzero code was zero.
    Zero,
    /// The value is longer than its limit.
    Limit(StateLimitError),
}

/// The first of two failures, in checking order.
pub open spec fn first_failure<E>(first: Option<E>, second: Option<E>) -> Option<E> {
    match first {
        Some(error) => Some(error),
        None => second,
    }
}

/// The failure of an empty value.
pub open spec fn empty_failure(bytes: Seq<u8>) -> Option<BoundedValueError> {
    if bytes.len() == 0 {
        Some(BoundedValueError::Empty)
    } else {
        None
    }
}

/// The failure of an overlong value.
pub open spec fn length_failure(
    kind: StateLimitKind,
    bytes: Seq<u8>,
    maximum: usize,
) -> Option<BoundedValueError> {
    match crate::limits::limit_failure(kind, bytes.len(), maximum as nat) {
        Some(error) => Some(BoundedValueError::Limit(error)),
        None => None,
    }
}

/// The failure of a value that holds a NUL byte.
pub open spec fn nul_failure(bytes: Seq<u8>) -> Option<BoundedValueError> {
    if bytes.contains(0u8) {
        Some(BoundedValueError::Nul)
    } else {
        None
    }
}

/// The failure of a name that cannot stand in a directory.
pub open spec fn path_failure(bytes: Seq<u8>) -> Option<BoundedValueError> {
    if bytes.contains(47u8) {
        Some(BoundedValueError::Separator)
    } else if bytes == seq![46u8] || bytes == seq![46u8, 46u8] {
        Some(BoundedValueError::Reserved)
    } else {
        None
    }
}

fn contains_byte(bytes: &Vec<u8>, byte: u8) -> (result: bool)
    ensures
        result == bytes@.contains(byte),
{
    let mut index: usize = 0;
    while index < bytes.len()
        invariant
            index <= bytes.len(),
            forall|i: int| 0 <= i < index ==> bytes@[i] != byte,
        decreases bytes.len() - index,
    {
        if bytes[index] == byte {
            assert(bytes@.contains(byte));
            return true;
        }
        index = index + 1;
    }
    false
}

fn check_length(kind: StateLimitKind, bytes: &Vec<u8>, maximum: usize) -> (result: Result<
    (),
    BoundedValueError,
>)
    ensures
        result == (match length_failure(kind, bytes@, maximum) {
            Some(error) => Err::<(), BoundedValueError>(error),
            None => Ok(()),
        }),
{
    match require_bytes(kind, bytes.len(), maximum) {
        Ok(()) => Ok(()),
        Err(error) => Err(BoundedValueError::Limit(error)),
    }
}

/// Byte-exact directory-entry name.
#[derive(Clone, Debug, PartialEq, Eq, PartialOrd, Ord, Hash)]
pub struct EntryName<B = Vec<u8>> {
    /// The bytes.
    pub bytes: B,
}

impl View for EntryName<Vec<u8>> {
    type V = EntryName<Seq<u8>>;

    open spec fn view(&self) -> EntryName<Seq<u8>> {
        EntryName { bytes: self.bytes@ }
    }
}

/// Why bytes cannot be a [`EntryName`].
pub open spec fn entry_name_failure(bytes: Seq<u8>, limits: StateLimits) -> Option<BoundedValueError> {
    first_failure(empty_failure(bytes), first_failure(length_failure(StateLimitKind::EntryName, bytes, limits.values.max_entry_name_bytes), first_failure(nul_failure(bytes), path_failure(bytes))))
}

impl EntryName<Vec<u8>> {
    /// Accepts bytes within the limits and without forbidden content.
    pub fn new(bytes: Vec<u8>, limits: StateLimits) -> (result: Result<Self, BoundedValueError>)
        ensures
            match result {
                Ok(value) => entry_name_failure(bytes@, limits) is None && value.bytes@ == bytes@,
                Err(error) => entry_name_failure(bytes@, limits) == Some(error),
            },
    {
        if bytes.len() == 0 {
            return Err(BoundedValueError::Empty);
        }
        match check_length(StateLimitKind::EntryName, &bytes, limits.values.max_entry_name_bytes) {
            Ok(()) => {},
            Err(error) => {
                return Err(error);
            },
        }
        if contains_byte(&bytes, 0) {
            return Err(BoundedValueError::Nul);
        }
        if contains_byte(&bytes, 47) {
            return Err(BoundedValueError::Separator);
        }
        if bytes.len() == 1 && bytes[0] == 46 {
            assert(bytes@ =~= seq![46u8]);
            return Err(BoundedValueError::Reserved);
        }
        if bytes.len() == 2 && bytes[0] == 46 && bytes[1] == 46 {
            assert(bytes@ =~= seq![46u8, 46u8]);
            return Err(BoundedValueError::Reserved);
        }
        Ok(EntryName { bytes })
    }

    /// The bytes.
    pub fn as_bytes(&self) -> (result: &Vec<u8>)
        ensures
            result@ == self.bytes@,
    {
        &self.bytes
    }

    /// A copy of the value.
    pub fn copied(&self) -> (result: Self)
        ensures
            result@ == self@,
    {
        EntryName { bytes: crate::bytes::copy_bytes(&self.bytes) }
    }
}

/// Byte-exact extended-attribute name.
#[derive(Clone, Debug, PartialEq, Eq, PartialOrd, Ord, Hash)]
pub struct XattrName<B = Vec<u8>> {
    /// The bytes.
    pub bytes: B,
}

impl View for XattrName<Vec<u8>> {
    type V = XattrName<Seq<u8>>;

    open spec fn view(&self) -> XattrName<Seq<u8>> {
        XattrName { bytes: self.bytes@ }
    }
}

/// Why bytes cannot be a [`XattrName`].
pub open spec fn xattr_name_failure(bytes: Seq<u8>, limits: StateLimits) -> Option<BoundedValueError> {
    first_failure(empty_failure(bytes), first_failure(length_failure(StateLimitKind::XattrName, bytes, limits.values.max_xattr_name_bytes), nul_failure(bytes)))
}

impl XattrName<Vec<u8>> {
    /// Accepts bytes within the limits and without forbidden content.
    pub fn new(bytes: Vec<u8>, limits: StateLimits) -> (result: Result<Self, BoundedValueError>)
        ensures
            match result {
                Ok(value) => xattr_name_failure(bytes@, limits) is None && value.bytes@ == bytes@,
                Err(error) => xattr_name_failure(bytes@, limits) == Some(error),
            },
    {
        if bytes.len() == 0 {
            return Err(BoundedValueError::Empty);
        }
        match check_length(StateLimitKind::XattrName, &bytes, limits.values.max_xattr_name_bytes) {
            Ok(()) => {},
            Err(error) => {
                return Err(error);
            },
        }
        if contains_byte(&bytes, 0) {
            return Err(BoundedValueError::Nul);
        }
        Ok(XattrName { bytes })
    }

    /// The bytes.
    pub fn as_bytes(&self) -> (result: &Vec<u8>)
        ensures
            result@ == self.bytes@,
    {
        &self.bytes
    }

    /// A copy of the value.
    pub fn copied(&self) -> (result: Self)
        ensures
            result@ == self@,
    {
        XattrName { bytes: crate::bytes::copy_bytes(&self.bytes) }
    }
}

/// Extended-attribute value bytes.
#[derive(Clone, Debug, PartialEq, Eq, PartialOrd, Ord, Hash)]
pub struct XattrValue<B = Vec<u8>> {
    /// The bytes.
    pub bytes: B,
}

impl View for XattrValue<Vec<u8>> {
    type V = XattrValue<Seq<u8>>;

    open spec fn view(&self) -> XattrValue<Seq<u8>> {
        XattrValue { bytes: self.bytes@ }
    }
}

/// Why bytes cannot be a [`XattrValue`].
pub open spec fn xattr_value_failure(bytes: Seq<u8>, limits: StateLimits) -> Option<BoundedValueError> {
    length_failure(StateLimitKind::XattrValue, bytes, limits.values.max_xattr_value_bytes)
}

impl XattrValue<Vec<u8>> {
    /// Accepts bytes within the limits.
    pub fn new(bytes: Vec<u8>, limits: StateLimits) -> (result: Result<Self, BoundedValueError>)
        ensures
            match result {
                Ok(value) => xattr_value_failure(bytes@, limits) is None && value.bytes@ == bytes@,
                Err(error) => xattr_value_failure(bytes@, limits) == Some(error),
            },
    {
        match check_length(StateLimitKind::XattrValue, &bytes, limits.values.max_xattr_value_bytes) {
            Ok(()) => {},
            Err(error) => {
                return Err(error);
            },
        }
        Ok(XattrValue { bytes })
    }

    /// The bytes.
    pub fn as_bytes(&self) -> (result: &Vec<u8>)
        ensures
            result@ == self.bytes@,
    {
        &self.bytes
    }

    /// A copy of the value.
    pub fn copied(&self) -> (result: Self)
        ensures
            result@ == self@,
    {
        XattrValue { bytes: crate::bytes::copy_bytes(&self.bytes) }
    }
}

/// Byte-exact owner identity.
#[derive(Clone, Debug, PartialEq, Eq, PartialOrd, Ord, Hash)]
pub struct PrincipalId<B = Vec<u8>> {
    /// The bytes.
    pub bytes: B,
}

impl View for PrincipalId<Vec<u8>> {
    type V = PrincipalId<Seq<u8>>;

    open spec fn view(&self) -> PrincipalId<Seq<u8>> {
        PrincipalId { bytes: self.bytes@ }
    }
}

/// Why bytes cannot be a [`PrincipalId`].
pub open spec fn principal_id_failure(bytes: Seq<u8>, limits: StateLimits) -> Option<BoundedValueError> {
    first_failure(empty_failure(bytes), first_failure(length_failure(StateLimitKind::Principal, bytes, limits.values.max_principal_bytes), nul_failure(bytes)))
}

impl PrincipalId<Vec<u8>> {
    /// Accepts bytes within the limits and without forbidden content.
    pub fn new(bytes: Vec<u8>, limits: StateLimits) -> (result: Result<Self, BoundedValueError>)
        ensures
            match result {
                Ok(value) => principal_id_failure(bytes@, limits) is None && value.bytes@ == bytes@,
                Err(error) => principal_id_failure(bytes@, limits) == Some(error),
            },
    {
        if bytes.len() == 0 {
            return Err(BoundedValueError::Empty);
        }
        match check_length(StateLimitKind::Principal, &bytes, limits.values.max_principal_bytes) {
            Ok(()) => {},
            Err(error) => {
                return Err(error);
            },
        }
        if contains_byte(&bytes, 0) {
            return Err(BoundedValueError::Nul);
        }
        Ok(PrincipalId { bytes })
    }

    /// The bytes.
    pub fn as_bytes(&self) -> (result: &Vec<u8>)
        ensures
            result@ == self.bytes@,
    {
        &self.bytes
    }

    /// A copy of the value.
    pub fn copied(&self) -> (result: Self)
        ensures
            result@ == self@,
    {
        PrincipalId { bytes: crate::bytes::copy_bytes(&self.bytes) }
    }
}

/// Byte-exact group identity.
#[derive(Clone, Debug, PartialEq, Eq, PartialOrd, Ord, Hash)]
pub struct GroupId<B = Vec<u8>> {
    /// The bytes.
    pub bytes: B,
}

impl View for GroupId<Vec<u8>> {
    type V = GroupId<Seq<u8>>;

    open spec fn view(&self) -> GroupId<Seq<u8>> {
        GroupId { bytes: self.bytes@ }
    }
}

/// Why bytes cannot be a [`GroupId`].
pub open spec fn group_id_failure(bytes: Seq<u8>, limits: StateLimits) -> Option<BoundedValueError> {
    first_failure(empty_failure(bytes), first_failure(length_failure(StateLimitKind::Group, bytes, limits.values.max_group_bytes), nul_failure(bytes)))
}

impl GroupId<Vec<u8>> {
    /// Accepts bytes within the limits and without forbidden content.
    pub fn new(bytes: Vec<u8>, limits: StateLimits) -> (result: Result<Self, BoundedValueError>)
        ensures
            match result {
                Ok(value) => group_id_failure(bytes@, limits) is None && value.bytes@ == bytes@,
                Err(error) => group_id_failure(bytes@, limits) == Some(error),
            },
    {
        if bytes.len() == 0 {
            return Err(BoundedValueError::Empty);
        }
        match check_length(StateLimitKind::Group, &bytes, limits.values.max_group_bytes) {
            Ok(()) => {},
            Err(error) => {
                return Err(error);
            },
        }
        if contains_byte(&bytes, 0) {
            return Err(BoundedValueError::Nul);
        }
        Ok(GroupId { bytes })
    }

    /// The bytes.
    pub fn as_bytes(&self) -> (result: &Vec<u8>)
        ensures
            result@ == self.bytes@,
    {
        &self.bytes
    }

    /// A copy of the value.
    pub fn copied(&self) -> (result: Self)
        ensures
            result@ == self@,
    {
        GroupId { bytes: crate::bytes::copy_bytes(&self.bytes) }
    }
}

/// Byte-exact symbolic-link target.
#[derive(Clone, Debug, PartialEq, Eq, PartialOrd, Ord, Hash)]
pub struct SymlinkTarget<B = Vec<u8>> {
    /// The bytes.
    pub bytes: B,
}

impl View for SymlinkTarget<Vec<u8>> {
    type V = SymlinkTarget<Seq<u8>>;

    open spec fn view(&self) -> SymlinkTarget<Seq<u8>> {
        SymlinkTarget { bytes: self.bytes@ }
    }
}

/// Why bytes cannot be a [`SymlinkTarget`].
pub open spec fn symlink_target_failure(bytes: Seq<u8>, limits: StateLimits) -> Option<BoundedValueError> {
    first_failure(empty_failure(bytes), first_failure(length_failure(StateLimitKind::Symlink, bytes, limits.values.max_symlink_bytes), nul_failure(bytes)))
}

impl SymlinkTarget<Vec<u8>> {
    /// Accepts bytes within the limits and without forbidden content.
    pub fn new(bytes: Vec<u8>, limits: StateLimits) -> (result: Result<Self, BoundedValueError>)
        ensures
            match result {
                Ok(value) => symlink_target_failure(bytes@, limits) is None && value.bytes@ == bytes@,
                Err(error) => symlink_target_failure(bytes@, limits) == Some(error),
            },
    {
        if bytes.len() == 0 {
            return Err(BoundedValueError::Empty);
        }
        match check_length(StateLimitKind::Symlink, &bytes, limits.values.max_symlink_bytes) {
            Ok(()) => {},
            Err(error) => {
                return Err(error);
            },
        }
        if contains_byte(&bytes, 0) {
            return Err(BoundedValueError::Nul);
        }
        Ok(SymlinkTarget { bytes })
    }

    /// The bytes.
    pub fn as_bytes(&self) -> (result: &Vec<u8>)
        ensures
            result@ == self.bytes@,
    {
        &self.bytes
    }

    /// A copy of the value.
    pub fn copied(&self) -> (result: Self)
        ensures
            result@ == self@,
    {
        SymlinkTarget { bytes: crate::bytes::copy_bytes(&self.bytes) }
    }
}

} // verus!
