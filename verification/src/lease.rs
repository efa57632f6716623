//! Idempotent writer-lease operations.
use vstd::prelude::*;

use crate::bytes;
use crate::bytes::{bytes_eq, copy_bytes};
use crate::failure;
use crate::failure::{
    AdapterFailureKind, FailureCause, PostgresStateError, StateFailure, StateStoreOperation,
};
use crate::ids::{
    FencingToken, FilesystemId, InvalidValue, LeaseDeadline, LeaseId, LeaseOperationId,
    RequestFingerprint, WriterIncarnationId, WriterScopeId,
};
use crate::limits::StateLimits;
use crate::numeric;
use crate::numeric::{decode_u64, NumericCodecError};
use crate::request::WriterFence;

verus! {

/// Tag of acquisitions.
pub const ACQUIRE_KIND: i16 = 1;

/// Tag of renewals.
pub const RENEW_KIND: i16 = 2;

/// Tag of releases.
pub const RELEASE_KIND: i16 = 3;

/// Tag of successes.
pub const SUCCESS_TAG: i16 = 1;

/// Tag of an acquisition of a busy scope.
pub const ACQUIRE_BUSY_TAG: i16 = 2;

/// Tag of an acquisition of an invalid scope.
pub const ACQUIRE_INVALID_SCOPE_TAG: i16 = 3;

/// Tag of an acquisition for an invalid duration.
pub const ACQUIRE_INVALID_DURATION_TAG: i16 = 4;

/// Tag of an acquisition without a fencing token left.
pub const ACQUIRE_FENCE_EXHAUSTED_TAG: i16 = 5;

/// Tag of a renewal with a stale fence.
pub const RENEW_STALE_TAG: i16 = 2;

/// Tag of a renewal of an expired lease.
pub const RENEW_EXPIRED_TAG: i16 = 3;

/// Tag of a renewal in an invalid scope.
pub const RENEW_INVALID_SCOPE_TAG: i16 = 4;

/// Tag of a renewal for an invalid duration.
pub const RENEW_INVALID_DURATION_TAG: i16 = 5;

/// Tag of a release with a stale fence.
pub const RELEASE_STALE_TAG: i16 = 2;

/// Tag of a release of an expired lease.
pub const RELEASE_EXPIRED_TAG: i16 = 3;

/// Tag of a release in an invalid scope.
pub const RELEASE_INVALID_SCOPE_TAG: i16 = 4;

/// Tag of changes that a lease operation made.
pub const LEASE_CHANGE_ORIGIN_KIND: i16 = 2;

/// Family number of writer leases.
pub const WRITER_LEASE_FAMILY_TAG: i16 = 11;

/// Request for a lease.
#[derive(Clone, Copy, Debug, PartialEq, Eq, Structural)]
pub struct AcquireWriterLease {
    /// Authority.
    pub filesystem_id: FilesystemId,
    /// Identity of the operation.
    pub operation_id: LeaseOperationId,
    /// Scope.
    pub scope: WriterScopeId,
    /// Holder.
    pub holder: WriterIncarnationId,
    /// Identity of the lease.
    pub lease_id: LeaseId,
    /// Duration in ticks.
    pub duration: u64,
    /// Fingerprint of the request.
    pub fingerprint: RequestFingerprint,
}

/// Request for a longer lease.
#[derive(Clone, Copy, Debug, PartialEq, Eq, Structural)]
pub struct RenewWriterLease {
    /// Authority.
    pub filesystem_id: FilesystemId,
    /// Identity of the operation.
    pub operation_id: LeaseOperationId,
    /// Fence of the lease.
    pub fence: WriterFence,
    /// Duration in ticks.
    pub duration: u64,
    /// Fingerprint of the request.
    pub fingerprint: RequestFingerprint,
}

/// Request to end a lease.
#[derive(Clone, Copy, Debug, PartialEq, Eq, Structural)]
pub struct ReleaseWriterLease {
    /// Authority.
    pub filesystem_id: FilesystemId,
    /// Identity of the operation.
    pub operation_id: LeaseOperationId,
    /// Fence of the lease.
    pub fence: WriterFence,
    /// Fingerprint of the request.
    pub fingerprint: RequestFingerprint,
}

/// A granted lease.
#[derive(Clone, Copy, Debug, PartialEq, Eq, Structural)]
pub struct WriterLeaseGrant {
    /// Fence.
    pub fence: WriterFence,
    /// Instant at which it expires.
    pub deadline: LeaseDeadline,
}

/// Why a lease operation is rejected.
#[derive(Clone, Copy, Debug, PartialEq, Eq, Structural)]
pub enum LeaseRejection {
    /// Another lease is current.
    Busy(WriterLeaseGrant),
    /// The fence is not current.
    StaleFence,
    /// The lease has expired.
    Expired,
    /// The scope cannot be leased.
    InvalidWriterScope,
    /// The duration is out of bounds.
    InvalidDuration,
    /// No fencing token is left.
    FencingTokenExhausted,
    /// The identity belongs to another operation.
    OperationMismatch,
    /// No further operation can be retained.
    OperationHistoryFull,
}

/// What became of an acquisition.
#[derive(Clone, Copy, Debug, PartialEq, Eq, Structural)]
pub enum AcquireLeaseOutcome {
    /// Granted now.
    Granted(WriterLeaseGrant),
    /// Granted before, to the same operation.
    AlreadyApplied(WriterLeaseGrant),
    /// Rejected.
    Rejected(LeaseRejection),
}

/// What became of a renewal.
#[derive(Clone, Copy, Debug, PartialEq, Eq, Structural)]
pub enum RenewLeaseOutcome {
    /// Renewed now.
    Renewed(WriterLeaseGrant),
    /// Renewed before, by the same operation.
    AlreadyApplied(WriterLeaseGrant),
    /// Rejected.
    Rejected(LeaseRejection),
}

/// What became of a release.
#[derive(Clone, Copy, Debug, PartialEq, Eq, Structural)]
pub enum ReleaseLeaseOutcome {
    /// Released now.
    Released,
    /// Released before, by the same operation.
    AlreadyApplied,
    /// Rejected.
    Rejected(LeaseRejection),
}

/// A lease operation.
#[derive(Clone, Copy, Debug, PartialEq, Eq, Structural)]
pub enum LeaseRequest {
    /// Acquisition.
    Acquire(AcquireWriterLease),
    /// Renewal.
    Renew(RenewWriterLease),
    /// Release.
    Release(ReleaseWriterLease),
}

/// What became of a lease operation.
#[derive(Clone, Copy, Debug, PartialEq, Eq, Structural)]
pub enum LeaseOperationOutcome {
    /// Acquisition.
    Acquire(AcquireLeaseOutcome),
    /// Renewal.
    Renew(RenewLeaseOutcome),
    /// Release.
    Release(ReleaseLeaseOutcome),
}

impl LeaseRequest {
    /// The operation that the request asks for.
    pub open spec fn operation_of(self) -> StateStoreOperation {
        match self {
            LeaseRequest::Acquire(_) => StateStoreOperation::AcquireLease,
            LeaseRequest::Renew(_) => StateStoreOperation::RenewLease,
            LeaseRequest::Release(_) => StateStoreOperation::ReleaseLease,
        }
    }

    /// The authority.
    pub open spec fn authority(self) -> FilesystemId {
        match self {
            LeaseRequest::Acquire(request) => request.filesystem_id,
            LeaseRequest::Renew(request) => request.filesystem_id,
            LeaseRequest::Release(request) => request.filesystem_id,
        }
    }

    /// The identity of the operation.
    pub open spec fn identity(self) -> LeaseOperationId {
        match self {
            LeaseRequest::Acquire(request) => request.operation_id,
            LeaseRequest::Renew(request) => request.operation_id,
            LeaseRequest::Release(request) => request.operation_id,
        }
    }

    /// The scope.
    pub open spec fn scope_of(self) -> WriterScopeId {
        match self {
            LeaseRequest::Acquire(request) => request.scope,
            LeaseRequest::Renew(request) => request.fence.scope,
            LeaseRequest::Release(request) => request.fence.scope,
        }
    }

    /// The fingerprint.
    pub open spec fn fingerprint_of(self) -> RequestFingerprint {
        match self {
            LeaseRequest::Acquire(request) => request.fingerprint,
            LeaseRequest::Renew(request) => request.fingerprint,
            LeaseRequest::Release(request) => request.fingerprint,
        }
    }

    /// The tag of the kind of request.
    pub open spec fn kind_of(self) -> i16 {
        match self {
            LeaseRequest::Acquire(_) => ACQUIRE_KIND,
            LeaseRequest::Renew(_) => RENEW_KIND,
            LeaseRequest::Release(_) => RELEASE_KIND,
        }
    }

    /// The request is rejected.
    pub open spec fn rejected(self, rejection: LeaseRejection) -> LeaseOperationOutcome {
        match self {
            LeaseRequest::Acquire(_) => LeaseOperationOutcome::Acquire(
                AcquireLeaseOutcome::Rejected(rejection),
            ),
            LeaseRequest::Renew(_) => LeaseOperationOutcome::Renew(
                RenewLeaseOutcome::Rejected(rejection),
            ),
            LeaseRequest::Release(_) => LeaseOperationOutcome::Release(
                ReleaseLeaseOutcome::Rejected(rejection),
            ),
        }
    }

    /// The duration that the request asks for, if it asks for one.
    pub open spec fn duration_of(self) -> Option<u64> {
        match self {
            LeaseRequest::Acquire(request) => Some(request.duration),
            LeaseRequest::Renew(request) => Some(request.duration),
            LeaseRequest::Release(_) => None,
        }
    }

    /// The operation that the request asks for.
    pub fn operation(self) -> (result: StateStoreOperation)
        ensures
            result == self.operation_of(),
    {
        match self {
            LeaseRequest::Acquire(_) => StateStoreOperation::AcquireLease,
            LeaseRequest::Renew(_) => StateStoreOperation::RenewLease,
            LeaseRequest::Release(_) => StateStoreOperation::ReleaseLease,
        }
    }

    /// The authority.
    pub fn filesystem_id(self) -> (result: FilesystemId)
        ensures
            result == self.authority(),
    {
        match self {
            LeaseRequest::Acquire(request) => request.filesystem_id,
            LeaseRequest::Renew(request) => request.filesystem_id,
            LeaseRequest::Release(request) => request.filesystem_id,
        }
    }

    /// The identity of the operation.
    pub fn operation_id(self) -> (result: LeaseOperationId)
        ensures
            result == self.identity(),
    {
        match self {
            LeaseRequest::Acquire(request) => request.operation_id,
            LeaseRequest::Renew(request) => request.operation_id,
            LeaseRequest::Release(request) => request.operation_id,
        }
    }

    /// The scope.
    pub fn scope(self) -> (result: WriterScopeId)
        ensures
            result == self.scope_of(),
    {
        match self {
            LeaseRequest::Acquire(request) => request.scope,
            LeaseRequest::Renew(request) => request.fence.scope,
            LeaseRequest::Release(request) => request.fence.scope,
        }
    }

    /// The fingerprint.
    pub fn fingerprint(self) -> (result: RequestFingerprint)
        ensures
            result == self.fingerprint_of(),
    {
        match self {
            LeaseRequest::Acquire(request) => request.fingerprint,
            LeaseRequest::Renew(request) => request.fingerprint,
            LeaseRequest::Release(request) => request.fingerprint,
        }
    }

    /// The tag of the kind of request.
    pub fn kind(self) -> (result: i16)
        ensures
            result == self.kind_of(),
    {
        match self {
            LeaseRequest::Acquire(_) => ACQUIRE_KIND,
            LeaseRequest::Renew(_) => RENEW_KIND,
            LeaseRequest::Release(_) => RELEASE_KIND,
        }
    }

    fn reject(self, rejection: LeaseRejection) -> (result: LeaseOperationOutcome)
        ensures
            result == self.rejected(rejection),
    {
        match self {
            LeaseRequest::Acquire(_) => LeaseOperationOutcome::Acquire(
                AcquireLeaseOutcome::Rejected(rejection),
            ),
            LeaseRequest::Renew(_) => LeaseOperationOutcome::Renew(
                RenewLeaseOutcome::Rejected(rejection),
            ),
            LeaseRequest::Release(_) => LeaseOperationOutcome::Release(
                ReleaseLeaseOutcome::Rejected(rejection),
            ),
        }
    }

    /// Rejects a duration of zero or beyond the receiver's limit.
    pub fn validate_receiver_limits(self, limits: StateLimits) -> (result: Option<
        LeaseOperationOutcome,
    >)
        ensures
            result == (match self.duration_of() {
                Some(duration) => if 1 <= duration <= limits.values.max_lease_duration_ticks {
                    None
                } else {
                    Some(self.rejected(LeaseRejection::InvalidDuration))
                },
                None => None,
            }),
    {
        let duration: u64 = match self {
            LeaseRequest::Acquire(request) => request.duration,
            LeaseRequest::Renew(request) => request.duration,
            LeaseRequest::Release(_) => {
                return None;
            },
        };
        if 1 <= duration && duration <= limits.values.max_lease_duration_ticks {
            None
        } else {
            Some(self.reject(LeaseRejection::InvalidDuration))
        }
    }

    /// The rejection of an identity that belongs to another operation.
    pub fn operation_mismatch(self) -> (result: LeaseOperationOutcome)
        ensures
            result == self.rejected(LeaseRejection::OperationMismatch),
    {
        self.reject(LeaseRejection::OperationMismatch)
    }

    /// The rejection of an operation that cannot be retained.
    pub fn history_full(self) -> (result: LeaseOperationOutcome)
        ensures
            result == self.rejected(LeaseRejection::OperationHistoryFull),
    {
        self.reject(LeaseRejection::OperationHistoryFull)
    }
}

/// A retained lease operation.
#[derive(Clone, Debug, PartialEq, Eq)]
pub struct StoredLeaseOperation {
    /// Tag of the kind.
    pub kind: i16,
    /// Fingerprint of the request.
    pub fingerprint: Vec<u8>,
    /// Tag of the outcome.
    pub outcome_tag: i16,
    /// Grant of the outcome.
    pub grant: Option<WriterLeaseGrant>,
}

/// What a retained operation holds of an outcome.
#[derive(Clone, Copy, Debug, PartialEq, Eq, Structural)]
pub struct RetainedOutcome {
    /// Tag.
    pub tag: i16,
    /// Grant.
    pub grant: Option<WriterLeaseGrant>,
}

/// The outcome that a retained tag and grant of an acquisition stand for.
pub open spec fn replayed_acquire(tag: i16, grant: Option<WriterLeaseGrant>) -> Option<
    AcquireLeaseOutcome,
> {
    match grant {
        Some(grant) => if tag == SUCCESS_TAG {
            Some(AcquireLeaseOutcome::AlreadyApplied(grant))
        } else if tag == ACQUIRE_BUSY_TAG {
            Some(AcquireLeaseOutcome::Rejected(LeaseRejection::Busy(grant)))
        } else {
            None
        },
        None => if tag == ACQUIRE_INVALID_SCOPE_TAG {
            Some(AcquireLeaseOutcome::Rejected(LeaseRejection::InvalidWriterScope))
        } else if tag == ACQUIRE_INVALID_DURATION_TAG {
            Some(AcquireLeaseOutcome::Rejected(LeaseRejection::InvalidDuration))
        } else if tag == ACQUIRE_FENCE_EXHAUSTED_TAG {
            Some(AcquireLeaseOutcome::Rejected(LeaseRejection::FencingTokenExhausted))
        } else {
            None
        },
    }
}

/// The outcome that a retained tag and grant of a renewal stand for.
pub open spec fn replayed_renew(tag: i16, grant: Option<WriterLeaseGrant>) -> Option<
    RenewLeaseOutcome,
> {
    match grant {
        Some(grant) => if tag == SUCCESS_TAG {
            Some(RenewLeaseOutcome::AlreadyApplied(grant))
        } else {
            None
        },
        None => if tag == RENEW_STALE_TAG {
            Some(RenewLeaseOutcome::Rejected(LeaseRejection::StaleFence))
        } else if tag == RENEW_EXPIRED_TAG {
            Some(RenewLeaseOutcome::Rejected(LeaseRejection::Expired))
        } else if tag == RENEW_INVALID_SCOPE_TAG {
            Some(RenewLeaseOutcome::Rejected(LeaseRejection::InvalidWriterScope))
        } else if tag == RENEW_INVALID_DURATION_TAG {
            Some(RenewLeaseOutcome::Rejected(LeaseRejection::InvalidDuration))
        } else {
            None
        },
    }
}

/// The outcome that a retained tag and grant of a release stand for.
pub open spec fn replayed_release(tag: i16, grant: Option<WriterLeaseGrant>) -> Option<
    ReleaseLeaseOutcome,
> {
    if grant is Some {
        None
    } else if tag == SUCCESS_TAG {
        Some(ReleaseLeaseOutcome::AlreadyApplied)
    } else if tag == RELEASE_STALE_TAG {
        Some(ReleaseLeaseOutcome::Rejected(LeaseRejection::StaleFence))
    } else if tag == RELEASE_EXPIRED_TAG {
        Some(ReleaseLeaseOutcome::Rejected(LeaseRejection::Expired))
    } else if tag == RELEASE_INVALID_SCOPE_TAG {
        Some(ReleaseLeaseOutcome::Rejected(LeaseRejection::InvalidWriterScope))
    } else {
        None
    }
}

/// What a retained operation answers to a request under its identity.
pub open spec fn replayed(
    request: LeaseRequest,
    kind: i16,
    fingerprint: Seq<u8>,
    tag: i16,
    grant: Option<WriterLeaseGrant>,
) -> Result<LeaseOperationOutcome, &'static str> {
    if kind != request.kind_of() || fingerprint != request.fingerprint_of().bytes() {
        Ok(request.rejected(LeaseRejection::OperationMismatch))
    } else {
        match request {
            LeaseRequest::Acquire(_) => match replayed_acquire(tag, grant) {
                Some(outcome) => Ok(LeaseOperationOutcome::Acquire(outcome)),
                None => Err("stored acquire outcome has an invalid tag or grant shape"),
            },
            LeaseRequest::Renew(_) => match replayed_renew(tag, grant) {
                Some(outcome) => Ok(LeaseOperationOutcome::Renew(outcome)),
                None => Err("stored renew outcome has an invalid tag or grant shape"),
            },
            LeaseRequest::Release(_) => match replayed_release(tag, grant) {
                Some(outcome) => Ok(LeaseOperationOutcome::Release(outcome)),
                None => Err("stored release outcome has an invalid tag or grant shape"),
            },
        }
    }
}

/// Answers a request from the operation that is retained under its identity.
pub fn replay_stored_operation(request: LeaseRequest, stored: &StoredLeaseOperation) -> (result:
    Result<LeaseOperationOutcome, &'static str>)
    ensures
        result == replayed(
            request,
            stored.kind,
            stored.fingerprint@,
            stored.outcome_tag,
            stored.grant,
        ),
{
    if stored.kind != request.kind() || !bytes_eq(
        &stored.fingerprint,
        &request.fingerprint().to_vec(),
    ) {
        return Ok(request.operation_mismatch());
    }
    let tag: i16 = stored.outcome_tag;
    match request {
        LeaseRequest::Acquire(_) => {
            let outcome = match stored.grant {
                Some(grant) => if tag == SUCCESS_TAG {
                    AcquireLeaseOutcome::AlreadyApplied(grant)
                } else if tag == ACQUIRE_BUSY_TAG {
                    AcquireLeaseOutcome::Rejected(LeaseRejection::Busy(grant))
                } else {
                    return Err("stored acquire outcome has an invalid tag or grant shape");
                },
                None => if tag == ACQUIRE_INVALID_SCOPE_TAG {
                    AcquireLeaseOutcome::Rejected(LeaseRejection::InvalidWriterScope)
                } else if tag == ACQUIRE_INVALID_DURATION_TAG {
                    AcquireLeaseOutcome::Rejected(LeaseRejection::InvalidDuration)
                } else if tag == ACQUIRE_FENCE_EXHAUSTED_TAG {
                    AcquireLeaseOutcome::Rejected(LeaseRejection::FencingTokenExhausted)
                } else {
                    return Err("stored acquire outcome has an invalid tag or grant shape");
                },
            };
            Ok(LeaseOperationOutcome::Acquire(outcome))
        },
        LeaseRequest::Renew(_) => {
            let outcome = match stored.grant {
                Some(grant) => if tag == SUCCESS_TAG {
                    RenewLeaseOutcome::AlreadyApplied(grant)
                } else {
                    return Err("stored renew outcome has an invalid tag or grant shape");
                },
                None => if tag == RENEW_STALE_TAG {
                    RenewLeaseOutcome::Rejected(LeaseRejection::StaleFence)
                } else if tag == RENEW_EXPIRED_TAG {
                    RenewLeaseOutcome::Rejected(LeaseRejection::Expired)
                } else if tag == RENEW_INVALID_SCOPE_TAG {
                    RenewLeaseOutcome::Rejected(LeaseRejection::InvalidWriterScope)
                } else if tag == RENEW_INVALID_DURATION_TAG {
                    RenewLeaseOutcome::Rejected(LeaseRejection::InvalidDuration)
                } else {
                    return Err("stored renew outcome has an invalid tag or grant shape");
                },
            };
            Ok(LeaseOperationOutcome::Renew(outcome))
        },
        LeaseRequest::Release(_) => {
            if stored.grant.is_some() {
                return Err("stored release outcome has an invalid tag or grant shape");
            }
            let outcome = if tag == SUCCESS_TAG {
                ReleaseLeaseOutcome::AlreadyApplied
            } else if tag == RELEASE_STALE_TAG {
                ReleaseLeaseOutcome::Rejected(LeaseRejection::StaleFence)
            } else if tag == RELEASE_EXPIRED_TAG {
                ReleaseLeaseOutcome::Rejected(LeaseRejection::Expired)
            } else if tag == RELEASE_INVALID_SCOPE_TAG {
                ReleaseLeaseOutcome::Rejected(LeaseRejection::InvalidWriterScope)
            } else {
                return Err("stored release outcome has an invalid tag or grant shape");
            };
            Ok(LeaseOperationOutcome::Release(outcome))
        },
    }
}

/// What is retained of an acquisition.
pub open spec fn retained_acquire(outcome: AcquireLeaseOutcome) -> Option<RetainedOutcome> {
    match outcome {
        AcquireLeaseOutcome::Granted(grant) => Some(
            RetainedOutcome { tag: SUCCESS_TAG, grant: Some(grant) },
        ),
        AcquireLeaseOutcome::Rejected(LeaseRejection::Busy(grant)) => Some(
            RetainedOutcome { tag: ACQUIRE_BUSY_TAG, grant: Some(grant) },
        ),
        AcquireLeaseOutcome::Rejected(LeaseRejection::InvalidWriterScope) => Some(
            RetainedOutcome { tag: ACQUIRE_INVALID_SCOPE_TAG, grant: None },
        ),
        AcquireLeaseOutcome::Rejected(LeaseRejection::InvalidDuration) => Some(
            RetainedOutcome { tag: ACQUIRE_INVALID_DURATION_TAG, grant: None },
        ),
        AcquireLeaseOutcome::Rejected(LeaseRejection::FencingTokenExhausted) => Some(
            RetainedOutcome { tag: ACQUIRE_FENCE_EXHAUSTED_TAG, grant: None },
        ),
        _ => None,
    }
}

/// What is retained of a renewal.
pub open spec fn retained_renew(outcome: RenewLeaseOutcome) -> Option<RetainedOutcome> {
    match outcome {
        RenewLeaseOutcome::Renewed(grant) => Some(
            RetainedOutcome { tag: SUCCESS_TAG, grant: Some(grant) },
        ),
        RenewLeaseOutcome::Rejected(LeaseRejection::StaleFence) => Some(
            RetainedOutcome { tag: RENEW_STALE_TAG, grant: None },
        ),
        RenewLeaseOutcome::Rejected(LeaseRejection::Expired) => Some(
            RetainedOutcome { tag: RENEW_EXPIRED_TAG, grant: None },
        ),
        RenewLeaseOutcome::Rejected(LeaseRejection::InvalidWriterScope) => Some(
            RetainedOutcome { tag: RENEW_INVALID_SCOPE_TAG, grant: None },
        ),
        RenewLeaseOutcome::Rejected(LeaseRejection::InvalidDuration) => Some(
            RetainedOutcome { tag: RENEW_INVALID_DURATION_TAG, grant: None },
        ),
        _ => None,
    }
}

/// What is retained of a release.
pub open spec fn retained_release(outcome: ReleaseLeaseOutcome) -> Option<RetainedOutcome> {
    match outcome {
        ReleaseLeaseOutcome::Released => Some(RetainedOutcome { tag: SUCCESS_TAG, grant: None }),
        ReleaseLeaseOutcome::Rejected(LeaseRejection::StaleFence) => Some(
            RetainedOutcome { tag: RELEASE_STALE_TAG, grant: None },
        ),
        ReleaseLeaseOutcome::Rejected(LeaseRejection::Expired) => Some(
            RetainedOutcome { tag: RELEASE_EXPIRED_TAG, grant: None },
        ),
        ReleaseLeaseOutcome::Rejected(LeaseRejection::InvalidWriterScope) => Some(
            RetainedOutcome { tag: RELEASE_INVALID_SCOPE_TAG, grant: None },
        ),
        _ => None,
    }
}

/// What is retained of an outcome of a request, or why nothing can be.
pub open spec fn retained(request: LeaseRequest, outcome: LeaseOperationOutcome) -> Result<
    RetainedOutcome,
    &'static str,
> {
    match (request, outcome) {
        (LeaseRequest::Acquire(_), LeaseOperationOutcome::Acquire(outcome)) => {
            match retained_acquire(outcome) {
                Some(retained) => Ok(retained),
                None => Err("attempted to retain an invalid acquire outcome"),
            }
        },
        (LeaseRequest::Renew(_), LeaseOperationOutcome::Renew(outcome)) => {
            match retained_renew(outcome) {
                Some(retained) => Ok(retained),
                None => Err("attempted to retain an invalid renew outcome"),
            }
        },
        (LeaseRequest::Release(_), LeaseOperationOutcome::Release(outcome)) => {
            match retained_release(outcome) {
                Some(retained) => Ok(retained),
                None => Err("attempted to retain an invalid release outcome"),
            }
        },
        _ => Err("lease request and outcome families differ"),
    }
}

/// What is retained of an outcome of a request.
pub fn retained_outcome(request: LeaseRequest, outcome: LeaseOperationOutcome) -> (result: Result<
    RetainedOutcome,
    &'static str,
>)
    ensures
        result == retained(request, outcome),
{
    match (request, outcome) {
        (LeaseRequest::Acquire(_), LeaseOperationOutcome::Acquire(outcome)) => match outcome {
            AcquireLeaseOutcome::Granted(grant) => Ok(
                RetainedOutcome { tag: SUCCESS_TAG, grant: Some(grant) },
            ),
            AcquireLeaseOutcome::Rejected(LeaseRejection::Busy(grant)) => Ok(
                RetainedOutcome { tag: ACQUIRE_BUSY_TAG, grant: Some(grant) },
            ),
            AcquireLeaseOutcome::Rejected(LeaseRejection::InvalidWriterScope) => Ok(
                RetainedOutcome { tag: ACQUIRE_INVALID_SCOPE_TAG, grant: None },
            ),
            AcquireLeaseOutcome::Rejected(LeaseRejection::InvalidDuration) => Ok(
                RetainedOutcome { tag: ACQUIRE_INVALID_DURATION_TAG, grant: None },
            ),
            AcquireLeaseOutcome::Rejected(LeaseRejection::FencingTokenExhausted) => Ok(
                RetainedOutcome { tag: ACQUIRE_FENCE_EXHAUSTED_TAG, grant: None },
            ),
            _ => Err("attempted to retain an invalid acquire outcome"),
        },
        (LeaseRequest::Renew(_), LeaseOperationOutcome::Renew(outcome)) => match outcome {
            RenewLeaseOutcome::Renewed(grant) => Ok(
                RetainedOutcome { tag: SUCCESS_TAG, grant: Some(grant) },
            ),
            RenewLeaseOutcome::Rejected(LeaseRejection::StaleFence) => Ok(
                RetainedOutcome { tag: RENEW_STALE_TAG, grant: None },
            ),
            RenewLeaseOutcome::Rejected(LeaseRejection::Expired) => Ok(
                RetainedOutcome { tag: RENEW_EXPIRED_TAG, grant: None },
            ),
            RenewLeaseOutcome::Rejected(LeaseRejection::InvalidWriterScope) => Ok(
                RetainedOutcome { tag: RENEW_INVALID_SCOPE_TAG, grant: None },
            ),
            RenewLeaseOutcome::Rejected(LeaseRejection::InvalidDuration) => Ok(
                RetainedOutcome { tag: RENEW_INVALID_DURATION_TAG, grant: None },
            ),
            _ => Err("attempted to retain an invalid renew outcome"),
        },
        (LeaseRequest::Release(_), LeaseOperationOutcome::Release(outcome)) => match outcome {
            ReleaseLeaseOutcome::Released => Ok(RetainedOutcome { tag: SUCCESS_TAG, grant: None }),
            ReleaseLeaseOutcome::Rejected(LeaseRejection::StaleFence) => Ok(
                RetainedOutcome { tag: RELEASE_STALE_TAG, grant: None },
            ),
            ReleaseLeaseOutcome::Rejected(LeaseRejection::Expired) => Ok(
                RetainedOutcome { tag: RELEASE_EXPIRED_TAG, grant: None },
            ),
            ReleaseLeaseOutcome::Rejected(LeaseRejection::InvalidWriterScope) => Ok(
                RetainedOutcome { tag: RELEASE_INVALID_SCOPE_TAG, grant: None },
            ),
            _ => Err("attempted to retain an invalid release outcome"),
        },
        _ => Err("lease request and outcome families differ"),
    }
}

/// The answer to the repetition of an operation that had an outcome.
pub open spec fn repeated(outcome: LeaseOperationOutcome) -> LeaseOperationOutcome {
    match outcome {
        LeaseOperationOutcome::Acquire(AcquireLeaseOutcome::Granted(grant)) =>
            LeaseOperationOutcome::Acquire(AcquireLeaseOutcome::AlreadyApplied(grant)),
        LeaseOperationOutcome::Renew(RenewLeaseOutcome::Renewed(grant)) =>
            LeaseOperationOutcome::Renew(RenewLeaseOutcome::AlreadyApplied(grant)),
        LeaseOperationOutcome::Release(ReleaseLeaseOutcome::Released) =>
            LeaseOperationOutcome::Release(ReleaseLeaseOutcome::AlreadyApplied),
        other => other,
    }
}

/// A retained operation answers its own repetition with the same grant or the
/// same rejection.
pub proof fn law_retained_operations_replay(request: LeaseRequest, outcome: LeaseOperationOutcome)
    requires
        retained(request, outcome) is Ok,
    ensures
        replayed(
            request,
            request.kind_of(),
            request.fingerprint_of().bytes(),
            retained(request, outcome)->Ok_0.tag,
            retained(request, outcome)->Ok_0.grant,
        ) == Ok::<LeaseOperationOutcome, &'static str>(repeated(outcome)),
{
}

/// One identity serves one operation: under another kind or fingerprint it is
/// rejected, whatever was retained.
pub proof fn law_identities_are_not_reused(
    request: LeaseRequest,
    kind: i16,
    fingerprint: Seq<u8>,
    tag: i16,
    grant: Option<WriterLeaseGrant>,
)
    requires
        kind != request.kind_of() || fingerprint != request.fingerprint_of().bytes(),
    ensures
        replayed(request, kind, fingerprint, tag, grant) == Ok::<
            LeaseOperationOutcome,
            &'static str,
        >(request.rejected(LeaseRejection::OperationMismatch)),
{
}

/// Columns of a retained operation.
#[derive(Clone, Debug, PartialEq, Eq)]
pub struct StoredOperationRow {
    /// Column `operation_kind`.
    pub kind: i16,
    /// Column `request_fingerprint`.
    pub fingerprint: Vec<u8>,
    /// Column `outcome_tag`.
    pub outcome_tag: i16,
    /// Column `grant_scope_id`.
    pub scope: Option<Vec<u8>>,
    /// Column `grant_holder_id`.
    pub holder: Option<Vec<u8>>,
    /// Column `grant_lease_id`.
    pub lease: Option<Vec<u8>>,
    /// Column `grant_deadline_tick`.
    pub deadline: Option<String>,
    /// Column `grant_fencing_token`.
    pub token: Option<String>,
}

/// Persisted lease state is corrupt.
pub open spec fn lease_corruption(
    operation: StateStoreOperation,
    context: &'static str,
    cause: FailureCause<Seq<u8>, Seq<char>>,
) -> StateFailure {
    failure::plain_failure(operation, AdapterFailureKind::Corruption, context, cause)
}

pub(crate) fn corruption(operation: StateStoreOperation, context: &'static str, cause: FailureCause) -> (result:
    PostgresStateError)
    ensures
        result@ == lease_corruption(operation, context, cause@),
{
    PostgresStateError::new(operation, AdapterFailureKind::Corruption, context, cause)
}

pub(crate) fn internal(operation: StateStoreOperation, context: &'static str, cause: FailureCause) -> (result:
    PostgresStateError)
    ensures
        result@ == failure::plain_failure(
            operation,
            AdapterFailureKind::Internal,
            context,
            cause@,
        ),
{
    PostgresStateError::new(operation, AdapterFailureKind::Internal, context, cause)
}

/// The failure of bytes that are no identity.
pub open spec fn width_cause(field: &'static str, bytes: Seq<u8>) -> Option<
    FailureCause<Seq<u8>, Seq<char>>,
> {
    if bytes.len() == 16 {
        None
    } else {
        Some(FailureCause::GrantWidth { field, actual: bytes.len() as usize })
    }
}

/// The failure of text that is no number.
pub open spec fn number_cause(field: &'static str, text: Seq<char>) -> Option<
    FailureCause<Seq<u8>, Seq<char>>,
> {
    if numeric::parses(text) {
        None
    } else {
        Some(FailureCause::Numeric(NumericCodecError { field, value: text }))
    }
}

/// The failure of text that is no number other than zero.
pub open spec fn nonzero_cause(field: &'static str, text: Seq<char>) -> Option<
    FailureCause<Seq<u8>, Seq<char>>,
> {
    if !numeric::parses(text) {
        number_cause(field, text)
    } else if numeric::parsed(text) == 0 {
        Some(FailureCause::Value(InvalidValue::Zero))
    } else {
        None
    }
}

/// Reads a fixed-width identity.
pub fn fixed_16(field: &'static str, bytes: &Vec<u8>) -> (result: Result<u128, FailureCause>)
    ensures
        match result {
            Ok(value) => width_cause(field, bytes@) is None && value == bytes::id_value(bytes@),
            Err(cause) => width_cause(field, bytes@) == Some(cause@),
        },
{
    if bytes.len() == 16 {
        Ok(bytes::id_from_bytes(bytes))
    } else {
        Err(FailureCause::GrantWidth { field, actual: bytes.len() })
    }
}

fn number(field: &'static str, text: &String) -> (result: Result<u64, FailureCause>)
    ensures
        match result {
            Ok(value) => number_cause(field, text@) is None && value == numeric::parsed(text@),
            Err(cause) => number_cause(field, text@) == Some(cause@),
        },
{
    match decode_u64(field, text.as_str()) {
        Ok(value) => Ok(value),
        Err(error) => Err(FailureCause::Numeric(error)),
    }
}

fn nonzero(field: &'static str, text: &String) -> (result: Result<u64, FailureCause>)
    ensures
        match result {
            Ok(value) => nonzero_cause(field, text@) is None && value == numeric::parsed(text@)
                && value != 0,
            Err(cause) => nonzero_cause(field, text@) == Some(cause@),
        },
{
    let value: u64 = number(field, text)?;
    if value == 0 {
        return Err(FailureCause::Value(InvalidValue::Zero));
    }
    Ok(value)
}

/// The first of two failures.
pub open spec fn first_cause(
    first: Option<FailureCause<Seq<u8>, Seq<char>>>,
    second: Option<FailureCause<Seq<u8>, Seq<char>>>,
) -> Option<FailureCause<Seq<u8>, Seq<char>>> {
    match first {
        Some(cause) => Some(cause),
        None => second,
    }
}

/// Why columns are no grant.
pub open spec fn grant_cause(
    scope: Seq<u8>,
    holder: Seq<u8>,
    lease: Seq<u8>,
    deadline: Seq<char>,
    token: Seq<char>,
) -> Option<FailureCause<Seq<u8>, Seq<char>>> {
    first_cause(
        width_cause("grant_scope_id", scope),
        first_cause(
            width_cause("grant_holder_id", holder),
            first_cause(
                width_cause("grant_lease_id", lease),
                first_cause(
                    number_cause("grant_deadline_tick", deadline),
                    nonzero_cause("grant_fencing_token", token),
                ),
            ),
        ),
    )
}

/// The grant that columns spell.
pub open spec fn grant_of(
    scope: Seq<u8>,
    holder: Seq<u8>,
    lease: Seq<u8>,
    deadline: Seq<char>,
    token: Seq<char>,
) -> WriterLeaseGrant {
    WriterLeaseGrant {
        fence: WriterFence {
            scope: WriterScopeId { value: bytes::id_value(scope) },
            holder: WriterIncarnationId { value: bytes::id_value(holder) },
            lease_id: LeaseId { value: bytes::id_value(lease) },
            fencing_token: FencingToken { value: numeric::parsed(token) },
        },
        deadline: LeaseDeadline { value: numeric::parsed(deadline) },
    }
}

/// Reads a retained grant.
pub fn decode_grant(
    scope: &Vec<u8>,
    holder: &Vec<u8>,
    lease: &Vec<u8>,
    deadline: &String,
    token: &String,
) -> (result: Result<WriterLeaseGrant, FailureCause>)
    ensures
        match result {
            Ok(grant) => grant_cause(scope@, holder@, lease@, deadline@, token@) is None && grant
                == grant_of(scope@, holder@, lease@, deadline@, token@),
            Err(cause) => grant_cause(scope@, holder@, lease@, deadline@, token@) == Some(cause@),
        },
{
    let scope: u128 = fixed_16("grant_scope_id", scope)?;
    let holder: u128 = fixed_16("grant_holder_id", holder)?;
    let lease: u128 = fixed_16("grant_lease_id", lease)?;
    let deadline: u64 = number("grant_deadline_tick", deadline)?;
    let token: u64 = nonzero("grant_fencing_token", token)?;
    Ok(
        WriterLeaseGrant {
            fence: WriterFence {
                scope: WriterScopeId { value: scope },
                holder: WriterIncarnationId { value: holder },
                lease_id: LeaseId { value: lease },
                fencing_token: FencingToken { value: token },
            },
            deadline: LeaseDeadline { value: deadline },
        },
    )
}

/// The columns of a grant, if all are there.
pub open spec fn grant_columns(row: StoredOperationRow) -> Option<
    (Seq<u8>, Seq<u8>, Seq<u8>, Seq<char>, Seq<char>),
> {
    match (row.scope, row.holder, row.lease, row.deadline, row.token) {
        (Some(scope), Some(holder), Some(lease), Some(deadline), Some(token)) => Some(
            (scope@, holder@, lease@, deadline@, token@),
        ),
        _ => None,
    }
}

/// Why a row is no retained operation.
pub open spec fn stored_failure(row: StoredOperationRow, operation: StateStoreOperation) -> Option<
    StateFailure,
> {
    if !(ACQUIRE_KIND <= row.kind <= RELEASE_KIND) {
        Some(
            lease_corruption(
                operation,
                "stored lease operation has unknown kind tag",
                FailureCause::Ending(row.kind as i64),
            ),
        )
    } else if row.fingerprint@.len() != 32 {
        Some(
            lease_corruption(
                operation,
                "stored lease-operation fingerprint has the wrong width",
                FailureCause::Plain,
            ),
        )
    } else if row.scope is None && row.holder is None && row.lease is None && row.deadline is None
        && row.token is None {
        None
    } else {
        match grant_columns(row) {
            None => Some(
                lease_corruption(
                    operation,
                    "stored lease-operation grant fields are only partially present",
                    FailureCause::Plain,
                ),
            ),
            Some(columns) => match grant_cause(
                columns.0,
                columns.1,
                columns.2,
                columns.3,
                columns.4,
            ) {
                Some(cause) => Some(lease_corruption(operation, "", cause)),
                None => None,
            },
        }
    }
}

/// The grant of a retained operation.
pub open spec fn stored_grant(row: StoredOperationRow) -> Option<WriterLeaseGrant> {
    match grant_columns(row) {
        Some(columns) => Some(
            grant_of(columns.0, columns.1, columns.2, columns.3, columns.4),
        ),
        None => None,
    }
}

/// Reads a retained operation.
pub fn decode_stored_operation(row: &StoredOperationRow, operation: StateStoreOperation) -> (result:
    Result<StoredLeaseOperation, PostgresStateError>)
    ensures
        match result {
            Ok(stored) => {
                &&& stored_failure(*row, operation) is None
                &&& stored.kind == row.kind
                &&& stored.fingerprint@ == row.fingerprint@
                &&& stored.outcome_tag == row.outcome_tag
                &&& stored.grant == stored_grant(*row)
            },
            Err(error) => stored_failure(*row, operation) == Some(error@),
        },
{
    if row.kind < ACQUIRE_KIND || row.kind > RELEASE_KIND {
        return Err(
            corruption(
                operation,
                "stored lease operation has unknown kind tag",
                FailureCause::Ending(row.kind as i64),
            ),
        );
    }
    if row.fingerprint.len() != 32 {
        return Err(
            corruption(
                operation,
                "stored lease-operation fingerprint has the wrong width",
                FailureCause::Plain,
            ),
        );
    }
    let grant = match (&row.scope, &row.holder, &row.lease, &row.deadline, &row.token) {
        (None, None, None, None, None) => None,
        (Some(scope), Some(holder), Some(lease), Some(deadline), Some(token)) => match decode_grant(
            scope,
            holder,
            lease,
            deadline,
            token,
        ) {
            Ok(grant) => Some(grant),
            Err(cause) => {
                return Err(corruption(operation, "", cause));
            },
        },
        _ => {
            return Err(
                corruption(
                    operation,
                    "stored lease-operation grant fields are only partially present",
                    FailureCause::Plain,
                ),
            );
        },
    };
    Ok(
        StoredLeaseOperation {
            kind: row.kind,
            fingerprint: copy_bytes(&row.fingerprint),
            outcome_tag: row.outcome_tag,
            grant,
        },
    )
}

} // verus!
