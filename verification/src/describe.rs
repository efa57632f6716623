//! Texts of keys, positions and the rules that values break.
use vstd::prelude::*;

use crate::bytes;
use crate::bytes::id_vec;
use crate::ids::InvalidValue;
use crate::key;
use crate::key::RecordKey;
use crate::key_codec::SqlRecordKey;
use crate::limits::{StateLimitError, StateLimitKind};
use crate::numeric;
use crate::numeric::encode_u64;
use crate::query;
use crate::query::ScanResume;
use crate::record::{InvalidContentRef, InvalidObjectKey, RecordValidationError};
use crate::request::{MalformedCommit, PublishContentError};
use crate::text;
use crate::text::{copy_text, hexadecimal_text};
use crate::values::BoundedValueError;

verus! {

/// What is wrong with a number.
pub open spec fn invalid_value_text(value: InvalidValue) -> &'static str {
    match value {
        InvalidValue::Zero => "value must be nonzero",
        InvalidValue::Exhausted => "value exhausted its u64 range",
        InvalidValue::Nanoseconds => "nanoseconds must be below one second",
    }
}

impl InvalidValue {
    /// What is wrong with the number.
    pub fn text(self) -> (result: &'static str)
        ensures
            result == invalid_value_text(self),
    {
        match self {
            InvalidValue::Zero => "value must be nonzero",
            InvalidValue::Exhausted => "value exhausted its u64 range",
            InvalidValue::Nanoseconds => "nanoseconds must be below one second",
        }
    }
}

/// Name of a limited quantity.
pub open spec fn quantity_name(value: StateLimitKind) -> &'static str {
    match value {
        StateLimitKind::EntryName => "EntryName",
        StateLimitKind::XattrName => "XattrName",
        StateLimitKind::XattrValue => "XattrValue",
        StateLimitKind::Principal => "Principal",
        StateLimitKind::Group => "Group",
        StateLimitKind::Symlink => "Symlink",
        StateLimitKind::MutationResult => "MutationResult",
        StateLimitKind::ReadQueries => "ReadQueries",
        StateLimitKind::ScanItems => "ScanItems",
        StateLimitKind::ScanBytes => "ScanBytes",
        StateLimitKind::TransactionBytes => "TransactionBytes",
        StateLimitKind::Changes => "Changes",
        StateLimitKind::ChangeKeys => "ChangeKeys",
        StateLimitKind::ContentMetadata => "ContentMetadata",
    }
}

impl StateLimitKind {
    /// The name of the quantity.
    pub fn name(self) -> (result: &'static str)
        ensures
            result == quantity_name(self),
    {
        match self {
            StateLimitKind::EntryName => "EntryName",
            StateLimitKind::XattrName => "XattrName",
            StateLimitKind::XattrValue => "XattrValue",
            StateLimitKind::Principal => "Principal",
            StateLimitKind::Group => "Group",
            StateLimitKind::Symlink => "Symlink",
            StateLimitKind::MutationResult => "MutationResult",
            StateLimitKind::ReadQueries => "ReadQueries",
            StateLimitKind::ScanItems => "ScanItems",
            StateLimitKind::ScanBytes => "ScanBytes",
            StateLimitKind::TransactionBytes => "TransactionBytes",
            StateLimitKind::Changes => "Changes",
            StateLimitKind::ChangeKeys => "ChangeKeys",
            StateLimitKind::ContentMetadata => "ContentMetadata",
        }
    }
}

/// Text of an exceeded limit.
pub open spec fn limit_text(error: StateLimitError) -> Seq<char> {
    quantity_name(error.kind)@ + " value "@ + numeric::decimal(error.actual as nat)
        + " exceeds limit "@ + numeric::decimal(error.maximum as nat)
}

impl StateLimitError {
    /// The text of the failure.
    pub fn text(&self) -> (result: String)
        ensures
            result@ == limit_text(*self),
    {
        copy_text(self.kind.name()).concat(" value ").concat(
            encode_u64(self.actual).as_str(),
        ).concat(" exceeds limit ").concat(encode_u64(self.maximum).as_str())
    }
}

/// Text of a bounded value out of bounds.
pub open spec fn bounded_text(error: BoundedValueError) -> Seq<char> {
    match error {
        BoundedValueError::Empty => "value must not be empty"@,
        BoundedValueError::Nul => "value holds a NUL byte"@,
        BoundedValueError::Separator => "name holds a path separator"@,
        BoundedValueError::Reserved => "name is reserved"@,
        BoundedValueError::Zero => "code must be nonzero"@,
        BoundedValueError::Limit(error) => limit_text(error),
    }
}

impl BoundedValueError {
    /// The text of the failure.
    pub fn text(&self) -> (result: String)
        ensures
            result@ == bounded_text(*self),
    {
        match self {
            BoundedValueError::Empty => copy_text("value must not be empty"),
            BoundedValueError::Nul => copy_text("value holds a NUL byte"),
            BoundedValueError::Separator => copy_text("name holds a path separator"),
            BoundedValueError::Reserved => copy_text("name is reserved"),
            BoundedValueError::Zero => copy_text("code must be nonzero"),
            BoundedValueError::Limit(error) => error.text(),
        }
    }
}

/// What is wrong with an object key.
pub open spec fn object_key_text(value: InvalidObjectKey) -> &'static str {
    match value {
        InvalidObjectKey::Empty => "object key must not be empty",
        InvalidObjectKey::ControlCharacter => "object key holds a control character",
    }
}

impl InvalidObjectKey {
    /// What is wrong with the object key.
    pub fn text(self) -> (result: &'static str)
        ensures
            result == object_key_text(self),
    {
        match self {
            InvalidObjectKey::Empty => "object key must not be empty",
            InvalidObjectKey::ControlCharacter => "object key holds a control character",
        }
    }
}

/// What is wrong with a content reference.
pub open spec fn content_ref_text(value: InvalidContentRef) -> &'static str {
    match value {
        InvalidContentRef::ZeroGeneration => "content generation must be nonzero",
    }
}

impl InvalidContentRef {
    /// What is wrong with the content reference.
    pub fn text(self) -> (result: &'static str)
        ensures
            result == content_ref_text(self),
    {
        match self {
            InvalidContentRef::ZeroGeneration => "content generation must be nonzero",
        }
    }
}

/// Why prepared content cannot be published.
pub open spec fn publication_text(error: PublishContentError) -> Seq<char> {
    match error {
        PublishContentError::ContentContextMismatch => "content is bound to another context"@,
        PublishContentError::Rejected { code } => {
            "content does not follow the current inode: rule "@ + numeric::decimal(code as nat)
        },
    }
}

impl PublishContentError {
    /// Why the content cannot be published.
    pub fn text(&self) -> (result: String)
        ensures
            result@ == publication_text(*self),
    {
        match self {
            PublishContentError::ContentContextMismatch => copy_text(
                "content is bound to another context",
            ),
            PublishContentError::Rejected { code } => copy_text(
                "content does not follow the current inode: rule ",
            ).concat(encode_u64(*code as u64).as_str()),
        }
    }
}

/// Text of a record that breaks its own rules.
pub open spec fn record_text(error: RecordValidationError) -> Seq<char> {
    match error {
        RecordValidationError::KeyFamilyMismatch => "record and key belong to different families"@,
        RecordValidationError::KeyIdentityMismatch => "record and key carry different identities"@,
        RecordValidationError::ContentGenerationMismatch => "content generation differs from data generation"@,
        RecordValidationError::ContentFileMismatch => "content belongs to another file"@,
        RecordValidationError::ContentPresence => "content and data generation are not present together"@,
        RecordValidationError::ContentContext => "content context does not fit the inode kind"@,
        RecordValidationError::ZeroDirectoryCookie => "directory cookie must be nonzero"@,
        RecordValidationError::ZeroPolicyGeneration => "policy generation must be nonzero"@,
        RecordValidationError::ZeroOpenPins => "orphan has no open pins"@,
        RecordValidationError::EmptyLockRange => "lock range is empty"@,
        RecordValidationError::XattrStagingSize => "staged attribute exceeds its size"@,
        RecordValidationError::InvalidMode { mode } => {
            "invalid mode bits "@ + numeric::decimal(mode as nat)
        },
        RecordValidationError::LogicalSizeMismatch { expected, actual } => {
            "logical size "@ + numeric::decimal(actual as nat) + ", expected "@
                + numeric::decimal(expected as nat)
        },
        RecordValidationError::ContentSizeMismatch { inode, content } => {
            "logical size "@ + numeric::decimal(inode as nat) + " differs from content size "@
                + numeric::decimal(content as nat)
        },
        RecordValidationError::MissingRelatedRecord { relation } => {
            "missing related record: "@ + relation@
        },
        RecordValidationError::InvalidRelatedRecord { relation } => {
            "invalid related record: "@ + relation@
        },
        RecordValidationError::DirectoryCycle { inode_id } => {
            "directory cycle through inode "@ + text::hexadecimal(bytes::id_bytes(inode_id.value))
        },
        RecordValidationError::DirectoryAncestorLimit { maximum } => {
            "directory ancestry exceeds "@ + numeric::decimal(maximum as nat) + " edges"@
        },
    }
}

impl RecordValidationError {
    /// The text of the failure.
    pub fn text(&self) -> (result: String)
        ensures
            result@ == record_text(*self),
    {
        match self {
            RecordValidationError::KeyFamilyMismatch => copy_text("record and key belong to different families"),
            RecordValidationError::KeyIdentityMismatch => copy_text("record and key carry different identities"),
            RecordValidationError::ContentGenerationMismatch => copy_text("content generation differs from data generation"),
            RecordValidationError::ContentFileMismatch => copy_text("content belongs to another file"),
            RecordValidationError::ContentPresence => copy_text("content and data generation are not present together"),
            RecordValidationError::ContentContext => copy_text("content context does not fit the inode kind"),
            RecordValidationError::ZeroDirectoryCookie => copy_text("directory cookie must be nonzero"),
            RecordValidationError::ZeroPolicyGeneration => copy_text("policy generation must be nonzero"),
            RecordValidationError::ZeroOpenPins => copy_text("orphan has no open pins"),
            RecordValidationError::EmptyLockRange => copy_text("lock range is empty"),
            RecordValidationError::XattrStagingSize => copy_text("staged attribute exceeds its size"),
            RecordValidationError::InvalidMode { mode } => copy_text("invalid mode bits ").concat(
                encode_u64(*mode as u64).as_str(),
            ),
            RecordValidationError::LogicalSizeMismatch { expected, actual } => copy_text(
                "logical size ",
            ).concat(encode_u64(*actual).as_str()).concat(", expected ").concat(
                encode_u64(*expected).as_str(),
            ),
            RecordValidationError::ContentSizeMismatch { inode, content } => copy_text(
                "logical size ",
            ).concat(encode_u64(*inode).as_str()).concat(" differs from content size ").concat(
                encode_u64(*content).as_str(),
            ),
            RecordValidationError::MissingRelatedRecord { relation } => copy_text(
                "missing related record: ",
            ).concat(relation),
            RecordValidationError::InvalidRelatedRecord { relation } => copy_text(
                "invalid related record: ",
            ).concat(relation),
            RecordValidationError::DirectoryCycle { inode_id } => copy_text(
                "directory cycle through inode ",
            ).concat(hexadecimal_text(&id_vec(inode_id.value)).as_str()),
            RecordValidationError::DirectoryAncestorLimit { maximum } => copy_text(
                "directory ancestry exceeds ",
            ).concat(encode_u64(*maximum as u64).as_str()).concat(" edges"),
        }
    }
}

/// Name of the record family with a number.
pub open spec fn family_name(tag: i16) -> &'static str {
    if tag == 1 {
        "Filesystem"
    } else if tag == 2 {
        "Inode"
    } else if tag == 3 {
        "DirectoryEntry"
    } else if tag == 4 {
        "Open"
    } else if tag == 5 {
        "OpenPin"
    } else if tag == 6 {
        "Orphan"
    } else if tag == 7 {
        "Lock"
    } else if tag == 8 {
        "Xattr"
    } else if tag == 9 {
        "XattrStaging"
    } else if tag == 10 {
        "Mutation"
    } else if tag == 11 {
        "WriterLease"
    } else {
        "ContentMetadata"
    }
}

fn family_text(tag: i16) -> (result: &'static str)
    ensures
        result == family_name(tag),
{
    if tag == 1 {
        "Filesystem"
    } else if tag == 2 {
        "Inode"
    } else if tag == 3 {
        "DirectoryEntry"
    } else if tag == 4 {
        "Open"
    } else if tag == 5 {
        "OpenPin"
    } else if tag == 6 {
        "Orphan"
    } else if tag == 7 {
        "Lock"
    } else if tag == 8 {
        "Xattr"
    } else if tag == 9 {
        "XattrStaging"
    } else if tag == 10 {
        "Mutation"
    } else if tag == 11 {
        "WriterLease"
    } else {
        "ContentMetadata"
    }
}

/// Text of a key: its family, filesystem and components in hexadecimal.
pub open spec fn record_key_text(k: RecordKey<Seq<u8>>) -> Seq<char> {
    family_name(key::family_tag(k))@ + "("@ + text::hexadecimal(
        bytes::id_bytes(key::key_filesystem(k).value),
    ) + ", "@ + text::hexadecimal(key::component_a(k)) + ", "@ + text::hexadecimal(
        key::component_b(k),
    ) + ")"@
}

impl RecordKey {
    /// The text of the key.
    pub fn text(&self) -> (result: String)
        ensures
            result@ == record_key_text(self@),
    {
        let stored = SqlRecordKey::encode(self);
        copy_text(family_text(stored.family_tag)).concat("(").concat(
            hexadecimal_text(&id_vec(stored.filesystem_id.value)).as_str(),
        ).concat(", ").concat(hexadecimal_text(&stored.component_a).as_str()).concat(", ").concat(
            hexadecimal_text(&stored.component_b).as_str(),
        ).concat(")")
    }
}

/// Text of a position: its family, numbers and name in hexadecimal.
pub open spec fn position_text(position: ScanResume<Seq<u8>>) -> Seq<char> {
    family_name(query::resume_family(position))@ + "("@ + text::hexadecimal(
        bytes::id_bytes(query::resume_first(position)),
    ) + ", "@ + text::hexadecimal(bytes::id_bytes(query::resume_second(position))) + ", "@
        + text::hexadecimal(query::resume_name(position)) + ")"@
}

impl ScanResume {
    /// The text of the position.
    pub fn text(&self) -> (result: String)
        ensures
            result@ == position_text(self@),
    {
        let (first, second) = self.numbers();
        let name = match self {
            ScanResume::Xattr(cursor) => hexadecimal_text(&cursor.name.bytes),
            _ => hexadecimal_text(&Vec::new()),
        };
        copy_text(family_text(self.family())).concat("(").concat(
            hexadecimal_text(&id_vec(first)).as_str(),
        ).concat(", ").concat(hexadecimal_text(&id_vec(second)).as_str()).concat(", ").concat(
            name.as_str(),
        ).concat(")")
    }
}

/// Text of a request that contradicts itself.
pub open spec fn malformed_text(error: MalformedCommit<Seq<u8>>) -> Seq<char> {
    match error {
        MalformedCommit::DuplicateChangeTarget(k) => {
            "changes target one record twice: "@ + record_key_text(k)
        },
        MalformedCommit::Arithmetic => "arithmetic left its range"@,
        MalformedCommit::DirectoryCookieAllocation => "directory cookies are not allocated in order"@,
        MalformedCommit::QidPathAllocation => "path numbers are not allocated in order"@,
        MalformedCommit::NamespaceGeneration => "changed directory keeps its namespace generation"@,
        MalformedCommit::NonMonotonicTransition => "replacement goes backwards"@,
        MalformedCommit::InvalidXattrStaging => "staged attribute is missing, incomplete or another one"@,
        MalformedCommit::XattrPublicationRequired => "staged attribute must be published"@,
        MalformedCommit::ContentReplacementRequiresPreparedPublication => "content changes only by publication"@,
        MalformedCommit::InvalidContentMetadataRewrap => "wrapped content key cannot be replaced"@,
        MalformedCommit::InvalidPublication(error) => publication_text(error),
        MalformedCommit::InvalidRecord(error) => record_text(error),
        MalformedCommit::Limit(error) => limit_text(error),
    }
}

impl MalformedCommit {
    /// The text of the failure.
    pub fn text(&self) -> (result: String)
        ensures
            result@ == malformed_text(self@),
    {
        match self {
            MalformedCommit::DuplicateChangeTarget(k) => copy_text(
                "changes target one record twice: ",
            ).concat(k.text().as_str()),
            MalformedCommit::Arithmetic => copy_text("arithmetic left its range"),
            MalformedCommit::DirectoryCookieAllocation => copy_text(
                "directory cookies are not allocated in order",
            ),
            MalformedCommit::QidPathAllocation => copy_text(
                "path numbers are not allocated in order",
            ),
            MalformedCommit::NamespaceGeneration => copy_text(
                "changed directory keeps its namespace generation",
            ),
            MalformedCommit::NonMonotonicTransition => copy_text("replacement goes backwards"),
            MalformedCommit::InvalidXattrStaging => copy_text(
                "staged attribute is missing, incomplete or another one",
            ),
            MalformedCommit::XattrPublicationRequired => copy_text(
                "staged attribute must be published",
            ),
            MalformedCommit::ContentReplacementRequiresPreparedPublication => copy_text(
                "content changes only by publication",
            ),
            MalformedCommit::InvalidContentMetadataRewrap => copy_text(
                "wrapped content key cannot be replaced",
            ),
            MalformedCommit::InvalidPublication(error) => error.text(),
            MalformedCommit::InvalidRecord(error) => error.text(),
            MalformedCommit::Limit(error) => error.text(),
        }
    }
}

} // verus!
