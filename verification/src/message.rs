//! Texts of failures.
use vstd::prelude::*;

use crate::config::{PostgresConfigError, SchemaLimit};
use crate::describe;
use crate::failure::{
    AdapterFailureKind, FailureCause, FailureDetail, PostgresStateError, StateFailure,
    StateStoreOperation,
};
use crate::key_codec::KeyCodecError;
use crate::numeric;
use crate::numeric::{encode_u64, NumericCodecError};
use crate::record_write::RecordWritePrepareError;
use crate::row_codec::RowCodecError;
use crate::text::{copy_text, str_eq};

verus! {

/// The text of a character string as `Debug` writes it.
pub uninterp spec fn quoted(text: Seq<char>) -> Seq<char>;

/// The text that `<str as std::fmt::Debug>::fmt` writes. Which characters it
/// escapes is left unsaid; the text depends on the string alone.
#[verifier::external_body]
pub(crate) fn quoted_text(text: &str) -> (result: String)
    ensures
        result@ == quoted(text@),
{
    format!("{:?}", text)
}

/// Shortest decimal text of a signed number.
pub open spec fn signed_decimal(value: int) -> Seq<char> {
    if value < 0 {
        "-"@ + numeric::decimal((-value) as nat)
    } else {
        numeric::decimal(value as nat)
    }
}

/// Shortest decimal text of a signed number.
pub fn signed_text(value: i64) -> (result: String)
    ensures
        result@ == signed_decimal(value as int),
{
    if value < 0 {
        let magnitude: u64 = (-(value as i128)) as u64;
        copy_text("-").concat(encode_u64(magnitude).as_str())
    } else {
        encode_u64(value as u64)
    }
}

/// Text of a number that is not canonical.
pub open spec fn numeric_text(error: NumericCodecError<Seq<char>>) -> Seq<char> {
    error.field@ + " value "@ + quoted(error.value) + " is not canonical unsigned decimal"@
}

impl NumericCodecError {
    /// The text of the failure.
    pub fn text(&self) -> (result: String)
        ensures
            result@ == numeric_text(self@),
    {
        copy_text(self.field).concat(" value ").concat(
            quoted_text(self.value.as_str()).as_str(),
        ).concat(" is not canonical unsigned decimal")
    }
}

/// Text of a malformed stored key.
pub open spec fn key_text(error: KeyCodecError) -> Seq<char> {
    match error {
        KeyCodecError::FixedWidth { field, actual } => {
            field@ + " has "@ + numeric::decimal(actual as nat) + " bytes, expected 16"@
        },
        KeyCodecError::UnknownFamilyTag(tag) => {
            "unknown record family tag "@ + signed_decimal(tag as int)
        },
        KeyCodecError::InvalidComponentShape { family_tag } => {
            "invalid component shape for family tag "@ + signed_decimal(family_tag as int)
        },
        KeyCodecError::Bounded(error) => describe::bounded_text(error),
    }
}

impl KeyCodecError {
    /// The text of the failure.
    pub fn text(&self) -> (result: String)
        ensures
            result@ == key_text(*self),
    {
        match self {
            KeyCodecError::FixedWidth { field, actual } => copy_text(field).concat(" has ").concat(
                encode_u64(*actual as u64).as_str(),
            ).concat(" bytes, expected 16"),
            KeyCodecError::UnknownFamilyTag(tag) => copy_text(
                "unknown record family tag ",
            ).concat(signed_text(*tag as i64).as_str()),
            KeyCodecError::InvalidComponentShape { family_tag } => copy_text(
                "invalid component shape for family tag ",
            ).concat(signed_text(*family_tag as i64).as_str()),
            KeyCodecError::Bounded(error) => error.text(),
        }
    }
}

/// Text of a row that is no record.
pub open spec fn row_text(error: RowCodecError<Seq<char>>) -> Seq<char> {
    match error {
        RowCodecError::FixedWidth { field, expected, actual } => {
            field@ + " has "@ + numeric::decimal(actual as nat) + " bytes, expected "@
                + numeric::decimal(expected as nat)
        },
        RowCodecError::IntegerRange { field, value } => {
            field@ + " value "@ + signed_decimal(value as int)
                + " is outside its unsigned range"@
        },
        RowCodecError::UnknownTag { field, tag } => {
            "unknown "@ + field@ + " tag "@ + signed_decimal(tag as int)
        },
        RowCodecError::MissingField { record, field } => {
            record@ + " row is missing "@ + field@
        },
        RowCodecError::InvalidShape { record, detail } => {
            "invalid "@ + record@ + " row shape: "@ + detail@
        },
        RowCodecError::Numeric(error) => numeric_text(error),
        RowCodecError::Bounded(error) => describe::bounded_text(error),
        RowCodecError::InvalidValue(error) => describe::invalid_value_text(error)@,
        RowCodecError::InvalidObjectKey(error) => describe::object_key_text(error)@,
        RowCodecError::InvalidContentRef(error) => describe::content_ref_text(error)@,
        RowCodecError::InvalidRecord(error) => describe::record_text(error),
        RowCodecError::Limit(error) => describe::limit_text(error),
    }
}

impl RowCodecError {
    /// The text of the failure.
    pub fn text(&self) -> (result: String)
        ensures
            result@ == row_text(self@),
    {
        match self {
            RowCodecError::FixedWidth { field, expected, actual } => copy_text(field).concat(
                " has ",
            ).concat(encode_u64(*actual as u64).as_str()).concat(" bytes, expected ").concat(
                encode_u64(*expected as u64).as_str(),
            ),
            RowCodecError::IntegerRange { field, value } => copy_text(field).concat(
                " value ",
            ).concat(signed_text(*value).as_str()).concat(" is outside its unsigned range"),
            RowCodecError::UnknownTag { field, tag } => copy_text("unknown ").concat(field).concat(
                " tag ",
            ).concat(signed_text(*tag as i64).as_str()),
            RowCodecError::MissingField { record, field } => copy_text(record).concat(
                " row is missing ",
            ).concat(field),
            RowCodecError::InvalidShape { record, detail } => copy_text("invalid ").concat(
                record,
            ).concat(" row shape: ").concat(detail),
            RowCodecError::Numeric(error) => error.text(),
            RowCodecError::Bounded(error) => error.text(),
            RowCodecError::InvalidValue(error) => copy_text(error.text()),
            RowCodecError::InvalidObjectKey(error) => copy_text(error.text()),
            RowCodecError::InvalidContentRef(error) => copy_text(error.text()),
            RowCodecError::InvalidRecord(error) => error.text(),
            RowCodecError::Limit(error) => error.text(),
        }
    }
}

/// Text of a refused write.
pub open spec fn prepare_text(error: RecordWritePrepareError<Seq<char>>) -> Seq<char> {
    match error {
        RecordWritePrepareError::ProtectedRecordFamily => {
            "mutation and writer-lease records require their dedicated persistence protocol"@
        },
        RecordWritePrepareError::MutationKeyMismatch => {
            "mutation record did not encode as a mutation row"@
        },
        RecordWritePrepareError::Codec(error) => {
            "record codec rejected write: "@ + row_text(error)
        },
    }
}

impl RecordWritePrepareError {
    /// The text of the refusal.
    pub fn text(&self) -> (result: String)
        ensures
            result@ == prepare_text(self@),
    {
        match self {
            RecordWritePrepareError::ProtectedRecordFamily => copy_text(
                "mutation and writer-lease records require their dedicated persistence protocol",
            ),
            RecordWritePrepareError::MutationKeyMismatch => copy_text(
                "mutation record did not encode as a mutation row",
            ),
            RecordWritePrepareError::Codec(error) => copy_text(
                "record codec rejected write: ",
            ).concat(error.text().as_str()),
        }
    }
}

/// Name of a limit.
pub open spec fn limit_name(limit: SchemaLimit) -> &'static str {
    match limit {
        SchemaLimit::EntryNameBytes => "EntryNameBytes",
        SchemaLimit::XattrNameBytes => "XattrNameBytes",
        SchemaLimit::XattrValueBytes => "XattrValueBytes",
        SchemaLimit::PrincipalBytes => "PrincipalBytes",
        SchemaLimit::GroupBytes => "GroupBytes",
        SchemaLimit::SymlinkBytes => "SymlinkBytes",
        SchemaLimit::MutationResultBytes => "MutationResultBytes",
        SchemaLimit::ReadQueries => "ReadQueries",
        SchemaLimit::DirectoryAncestorDepth => "DirectoryAncestorDepth",
        SchemaLimit::ScanItems => "ScanItems",
        SchemaLimit::ScanBytes => "ScanBytes",
        SchemaLimit::Preconditions => "Preconditions",
        SchemaLimit::Changes => "Changes",
        SchemaLimit::ChangeKeys => "ChangeKeys",
        SchemaLimit::TransactionBytes => "TransactionBytes",
        SchemaLimit::Locks => "Locks",
        SchemaLimit::OpenPins => "OpenPins",
        SchemaLimit::Xattrs => "Xattrs",
        SchemaLimit::LeaseDurationTicks => "LeaseDurationTicks",
        SchemaLimit::LeaseOperationHistory => "LeaseOperationHistory",
        SchemaLimit::ChangeHistoryCommits => "ChangeHistoryCommits",
    }
}

impl SchemaLimit {
    /// The name of the limit.
    pub fn name(self) -> (result: &'static str)
        ensures
            result == limit_name(self),
    {
        match self {
            SchemaLimit::EntryNameBytes => "EntryNameBytes",
            SchemaLimit::XattrNameBytes => "XattrNameBytes",
            SchemaLimit::XattrValueBytes => "XattrValueBytes",
            SchemaLimit::PrincipalBytes => "PrincipalBytes",
            SchemaLimit::GroupBytes => "GroupBytes",
            SchemaLimit::SymlinkBytes => "SymlinkBytes",
            SchemaLimit::MutationResultBytes => "MutationResultBytes",
            SchemaLimit::ReadQueries => "ReadQueries",
            SchemaLimit::DirectoryAncestorDepth => "DirectoryAncestorDepth",
            SchemaLimit::ScanItems => "ScanItems",
            SchemaLimit::ScanBytes => "ScanBytes",
            SchemaLimit::Preconditions => "Preconditions",
            SchemaLimit::Changes => "Changes",
            SchemaLimit::ChangeKeys => "ChangeKeys",
            SchemaLimit::TransactionBytes => "TransactionBytes",
            SchemaLimit::Locks => "Locks",
            SchemaLimit::OpenPins => "OpenPins",
            SchemaLimit::Xattrs => "Xattrs",
            SchemaLimit::LeaseDurationTicks => "LeaseDurationTicks",
            SchemaLimit::LeaseOperationHistory => "LeaseOperationHistory",
            SchemaLimit::ChangeHistoryCommits => "ChangeHistoryCommits",
        }
    }
}

/// Name of a kind of failure.
pub open spec fn kind_name(kind: AdapterFailureKind) -> &'static str {
    match kind {
        AdapterFailureKind::Serialization => "Serialization",
        AdapterFailureKind::Timeout => "Timeout",
        AdapterFailureKind::Unavailable => "Unavailable",
        AdapterFailureKind::Unsupported => "Unsupported",
        AdapterFailureKind::Corruption => "Corruption",
        AdapterFailureKind::Internal => "Internal",
    }
}

impl AdapterFailureKind {
    /// The name of the kind.
    pub fn name(self) -> (result: &'static str)
        ensures
            result == kind_name(self),
    {
        match self {
            AdapterFailureKind::Serialization => "Serialization",
            AdapterFailureKind::Timeout => "Timeout",
            AdapterFailureKind::Unavailable => "Unavailable",
            AdapterFailureKind::Unsupported => "Unsupported",
            AdapterFailureKind::Corruption => "Corruption",
            AdapterFailureKind::Internal => "Internal",
        }
    }
}

/// Name of an operation.
pub open spec fn operation_name(operation: StateStoreOperation) -> &'static str {
    match operation {
        StateStoreOperation::Read => "Read",
        StateStoreOperation::Commit => "Commit",
        StateStoreOperation::PollChanges => "PollChanges",
        StateStoreOperation::AcquireLease => "AcquireLease",
        StateStoreOperation::RenewLease => "RenewLease",
        StateStoreOperation::ReleaseLease => "ReleaseLease",
    }
}

impl StateStoreOperation {
    /// The name of the operation.
    pub fn name(self) -> (result: &'static str)
        ensures
            result == operation_name(self),
    {
        match self {
            StateStoreOperation::Read => "Read",
            StateStoreOperation::Commit => "Commit",
            StateStoreOperation::PollChanges => "PollChanges",
            StateStoreOperation::AcquireLease => "AcquireLease",
            StateStoreOperation::RenewLease => "RenewLease",
            StateStoreOperation::ReleaseLease => "ReleaseLease",
        }
    }
}

/// Text of the cause of a failure.
pub open spec fn cause_text(cause: FailureCause<Seq<u8>, Seq<char>>) -> Seq<char> {
    match cause {
        FailureCause::Plain => ""@,
        FailureCause::Word(word) => word@,
        FailureCause::Count(count) => numeric::decimal(count as nat),
        FailureCause::Signed(value) => signed_decimal(value as int),
        FailureCause::Ending(value) => signed_decimal(value as int),
        FailureCause::Width { field, actual } => {
            field@ + " has "@ + numeric::decimal(actual as nat) + " bytes, expected 16"@
        },
        FailureCause::GrantWidth { field, actual } => {
            field@ + " has width "@ + numeric::decimal(actual as nat) + ", expected 16"@
        },
        FailureCause::InodeWidth(actual) => {
            "inode identity has "@ + numeric::decimal(actual as nat) + " bytes instead of 16"@
        },
        FailureCause::Gap { after, found } => {
            "noncontiguous change history after revision "@ + numeric::decimal(after as nat)
                + ": found "@ + numeric::decimal(found as nat)
        },
        FailureCause::HistoryEnd { last, current } => {
            "change history ends at revision "@ + numeric::decimal(last as nat)
                + " before current revision "@ + numeric::decimal(current as nat)
        },
        FailureCause::FewerKeys { revision, count } => {
            "change revision "@ + numeric::decimal(revision as nat) + " has fewer than "@
                + numeric::decimal(count as nat) + " keys"@
        },
        FailureCause::UnexpectedKey { revision, ordinal } => {
            "unexpected change key at revision "@ + numeric::decimal(revision as nat)
                + " ordinal "@ + numeric::decimal(ordinal as nat)
        },
        FailureCause::PointWrite(rows) => {
            "point record write affected "@ + numeric::decimal(rows as nat) + " rows"@
        },
        FailureCause::OneRow { action, affected } => {
            action@ + " affected "@ + numeric::decimal(affected as nat) + " rows, expected one"@
        },
        FailureCause::Numeric(error) => numeric_text(error),
        FailureCause::Value(error) => describe::invalid_value_text(error)@,
        FailureCause::Bounded(error) => describe::bounded_text(error),
        FailureCause::Row(error) => row_text(error),
        FailureCause::Key(error) => key_text(error),
        FailureCause::Record(k) => "key "@ + describe::record_key_text(k),
        FailureCause::Path { path, actual } => {
            "query "@ + numeric::decimal(path.value as nat) + ", decoded "@
                + describe::record_key_text(actual)
        },
        FailureCause::Mismatch { expected, actual } => {
            "expected "@ + describe::record_key_text(expected) + ", decoded "@
                + describe::record_key_text(actual)
        },
        FailureCause::Estimate { key, stored, decoded } => {
            "key "@ + describe::record_key_text(key) + ": SQL "@ + numeric::decimal(stored as nat)
                + ", decoded "@ + numeric::decimal(decoded as nat)
        },
        FailureCause::Order { previous, next } => {
            "previous "@ + describe::position_text(previous) + ", next "@
                + describe::position_text(next)
        },
        FailureCause::Malformed(error) => describe::malformed_text(error),
        FailureCause::Database(text) => text,
        FailureCause::Control(text) => text,
        FailureCause::Refusal(text) => text,
    }
}

impl FailureCause {
    /// The text of the cause.
    pub fn text(&self) -> (result: String)
        ensures
            result@ == cause_text(self@),
    {
        match self {
            FailureCause::Plain => copy_text(""),
            FailureCause::Word(word) => copy_text(word),
            FailureCause::Count(count) => encode_u64(*count),
            FailureCause::Signed(value) => signed_text(*value),
            FailureCause::Ending(value) => signed_text(*value),
            FailureCause::Width { field, actual } => copy_text(field).concat(" has ").concat(
                encode_u64(*actual as u64).as_str(),
            ).concat(" bytes, expected 16"),
            FailureCause::GrantWidth { field, actual } => copy_text(field).concat(" has width ").concat(
                encode_u64(*actual as u64).as_str(),
            ).concat(", expected 16"),
            FailureCause::InodeWidth(actual) => copy_text("inode identity has ").concat(
                encode_u64(*actual as u64).as_str(),
            ).concat(" bytes instead of 16"),
            FailureCause::Gap { after, found } => copy_text(
                "noncontiguous change history after revision ",
            ).concat(encode_u64(*after).as_str()).concat(": found ").concat(
                encode_u64(*found).as_str(),
            ),
            FailureCause::HistoryEnd { last, current } => copy_text(
                "change history ends at revision ",
            ).concat(encode_u64(*last).as_str()).concat(" before current revision ").concat(
                encode_u64(*current).as_str(),
            ),
            FailureCause::FewerKeys { revision, count } => copy_text("change revision ").concat(
                encode_u64(*revision).as_str(),
            ).concat(" has fewer than ").concat(encode_u64(*count as u64).as_str()).concat(
                " keys",
            ),
            FailureCause::UnexpectedKey { revision, ordinal } => copy_text(
                "unexpected change key at revision ",
            ).concat(encode_u64(*revision).as_str()).concat(" ordinal ").concat(
                encode_u64(*ordinal as u64).as_str(),
            ),
            FailureCause::PointWrite(rows) => copy_text("point record write affected ").concat(
                encode_u64(*rows).as_str(),
            ).concat(" rows"),
            FailureCause::OneRow { action, affected } => copy_text(action).concat(" affected ").concat(
                encode_u64(*affected).as_str(),
            ).concat(" rows, expected one"),
            FailureCause::Numeric(error) => error.text(),
            FailureCause::Value(error) => copy_text(error.text()),
            FailureCause::Bounded(error) => error.text(),
            FailureCause::Row(error) => error.text(),
            FailureCause::Key(error) => error.text(),
            FailureCause::Record(k) => copy_text("key ").concat(k.text().as_str()),
            FailureCause::Path { path, actual } => copy_text("query ").concat(
                encode_u64(path.value).as_str(),
            ).concat(", decoded ").concat(actual.text().as_str()),
            FailureCause::Mismatch { expected, actual } => copy_text("expected ").concat(
                expected.text().as_str(),
            ).concat(", decoded ").concat(actual.text().as_str()),
            FailureCause::Estimate { key, stored, decoded } => copy_text("key ").concat(
                key.text().as_str(),
            ).concat(": SQL ").concat(encode_u64(*stored as u64).as_str()).concat(", decoded ").concat(
                encode_u64(*decoded as u64).as_str(),
            ),
            FailureCause::Order { previous, next } => copy_text("previous ").concat(
                previous.text().as_str(),
            ).concat(", next ").concat(next.text().as_str()),
            FailureCause::Malformed(error) => error.text(),
            FailureCause::Database(text) => copy_text(text.as_str()),
            FailureCause::Control(text) => copy_text(text.as_str()),
            FailureCause::Refusal(text) => copy_text(text.as_str()),
        }
    }
}

/// Text of the detail of a failure: the context and the cause, or the one of
/// them that says all.
pub open spec fn detail_text(detail: FailureDetail<Seq<u8>, Seq<char>>) -> Seq<char> {
    match detail.cause {
        FailureCause::Plain => detail.context@,
        FailureCause::Ending(_) => detail.context@ + " "@ + cause_text(detail.cause),
        _ => if detail.context@ == ""@ {
            cause_text(detail.cause)
        } else {
            detail.context@ + ": "@ + cause_text(detail.cause)
        },
    }
}

impl FailureDetail {
    /// The text of the detail.
    pub fn text(&self) -> (result: String)
        ensures
            result@ == detail_text(self@),
    {
        match &self.cause {
            FailureCause::Plain => copy_text(self.context),
            FailureCause::Ending(_) => copy_text(self.context).concat(" ").concat(
                self.cause.text().as_str(),
            ),
            _ => if str_eq(self.context, "") {
                self.cause.text()
            } else {
                copy_text(self.context).concat(": ").concat(self.cause.text().as_str())
            },
        }
    }
}

/// Text of a failed operation: its kind, the operation and the detail.
pub open spec fn state_text(failure: StateFailure) -> Seq<char> {
    "PostgreSQL "@ + kind_name(failure.kind)@ + " failure during "@ + operation_name(
        failure.operation,
    )@ + ": "@ + detail_text(failure.detail)
}

impl PostgresStateError {
    /// The text of the failure.
    pub fn text(&self) -> (result: String)
        ensures
            result@ == state_text(self@),
    {
        copy_text("PostgreSQL ").concat(self.kind.name()).concat(" failure during ").concat(
            self.operation.name(),
        ).concat(": ").concat(self.detail.text().as_str())
    }
}

/// Text of an invalid configuration.
pub open spec fn config_text(error: PostgresConfigError) -> Seq<char> {
    match error {
        PostgresConfigError::Zero { field } => field@ + " must be nonzero"@,
        PostgresConfigError::TimeoutTooLarge { field, milliseconds } => {
            field@ + " value "@ + numeric::decimal(milliseconds as nat)
                + "ms exceeds PostgreSQL adapter maximum"@
        },
        PostgresConfigError::TimeoutBelowOneMillisecond { field } => {
            field@ + " must be at least one millisecond"@
        },
        PostgresConfigError::LockTimeoutExceedsStatementTimeout => {
            "lock_timeout must not exceed statement_timeout"@
        },
        PostgresConfigError::RetryBoundTooLarge { field, actual, maximum } => {
            field@ + " value "@ + numeric::decimal(actual as nat) + " exceeds maximum "@
                + numeric::decimal(maximum as nat)
        },
        PostgresConfigError::StateLimitExceedsSchema { limit, actual, maximum } => {
            "state limit "@ + limit_name(limit)@ + " value "@ + numeric::decimal(actual as nat)
                + " exceeds schema maximum "@ + numeric::decimal(maximum as nat)
        },
    }
}

impl PostgresConfigError {
    /// The text of the failure.
    pub fn text(&self) -> (result: String)
        ensures
            result@ == config_text(*self),
    {
        match self {
            PostgresConfigError::Zero { field } => copy_text(field).concat(" must be nonzero"),
            PostgresConfigError::TimeoutTooLarge { field, milliseconds } => copy_text(
                field,
            ).concat(" value ").concat(encode_u64(*milliseconds).as_str()).concat(
                "ms exceeds PostgreSQL adapter maximum",
            ),
            PostgresConfigError::TimeoutBelowOneMillisecond { field } => copy_text(field).concat(
                " must be at least one millisecond",
            ),
            PostgresConfigError::LockTimeoutExceedsStatementTimeout => copy_text(
                "lock_timeout must not exceed statement_timeout",
            ),
            PostgresConfigError::RetryBoundTooLarge { field, actual, maximum } => copy_text(
                field,
            ).concat(" value ").concat(encode_u64(*actual as u64).as_str()).concat(
                " exceeds maximum ",
            ).concat(encode_u64(*maximum as u64).as_str()),
            PostgresConfigError::StateLimitExceedsSchema { limit, actual, maximum } => copy_text(
                "state limit ",
            ).concat(limit.name()).concat(" value ").concat(encode_u64(*actual).as_str()).concat(
                " exceeds schema maximum ",
            ).concat(encode_u64(*maximum).as_str()),
        }
    }
}

} // verus!
