//! Disputes against settled streams and their resolution by the operator.
use vstd::prelude::*;
use crate::types::{Address, Dispute, PlatformState, Stream, StreamError, ViewerData};
use crate::events::{DisputeOpened, DisputeResolved};
use crate::attestation::{check_attestation, may_own_seeded, verifier_said};

verus! {

/// Longest dispute reason, in bytes, that a dispute record holds.
pub const MAX_REASON_LEN: usize = 100;

/// Longest evidence, in bytes, that a dispute record holds.
pub const MAX_EVIDENCE_LEN: usize = 200;

/// Longest resolution text, in bytes, that a dispute record holds.
pub const MAX_RESOLUTION_LEN: usize = 100;

/// Byte length of a text in UTF-8.
pub open spec fn text_len(t: Seq<char>) -> nat {
    vstd::utf8::encode_utf8(t).len()
}

/// The error that opening a dispute fails with, if any.
pub open spec fn open_error(stream: Stream, reason: Seq<char>, evidence: Seq<char>) -> Option<
    StreamError,
> {
    if stream.is_active {
        Some(StreamError::StreamStillActive)
    } else if text_len(reason) > MAX_REASON_LEN {
        Some(StreamError::DisputeReasonTooLong)
    } else if text_len(evidence) > MAX_EVIDENCE_LEN {
        Some(StreamError::EvidenceTooLong)
    } else {
        None
    }
}

/// Opens a dispute of a claimant against a stream. Only a settled stream
/// can be disputed, and the reason and evidence must fit in the record.
pub fn open_dispute(
    stream: &Stream,
    stream_key: Address,
    claimant: Address,
    dispute_reason: String,
    evidence: String,
    now: i64,
) -> (r: Result<(Dispute, DisputeOpened), StreamError>)
    ensures
        open_error(*stream, dispute_reason@, evidence@) matches Some(e) ==> r == Err::<
            (Dispute, DisputeOpened),
            StreamError,
        >(e),
        open_error(*stream, dispute_reason@, evidence@) is None ==> r is Ok,
        r matches Ok((d, opened)) ==> {
            &&& d.stream == stream_key
            &&& d.claimant == claimant
            &&& d.reason@ == dispute_reason@
            &&& d.evidence@ == evidence@
            &&& !d.is_resolved
            &&& d.resolution@ == Seq::<char>::empty()
            &&& d.resolved_at == 0
            &&& d.timestamp == now
            &&& opened.stream_id@ == stream.id@
            &&& opened.claimant == claimant
            &&& opened.timestamp == now
        },
{
    if stream.is_active {
        return Err(StreamError::StreamStillActive);
    }
    if dispute_reason.as_str().as_bytes().len() > MAX_REASON_LEN {
        return Err(StreamError::DisputeReasonTooLong);
    }
    if evidence.as_str().as_bytes().len() > MAX_EVIDENCE_LEN {
        return Err(StreamError::EvidenceTooLong);
    }
    let dispute = Dispute {
        stream: stream_key,
        claimant,
        reason: dispute_reason,
        evidence,
        is_resolved: false,
        resolution: String::new(),
        resolved_at: 0,
        resolver: Address { bytes: [0u8; 32] },
        timestamp: now,
    };
    let opened = DisputeOpened { stream_id: stream.id.clone(), claimant, timestamp: now };
    Ok((dispute, opened))
}

/// The error that resolving a dispute fails with before any signature is
/// looked at, if any.
pub open spec fn resolve_error(
    platform: PlatformState,
    dispute: Dispute,
    authority: Address,
    resolution: Seq<char>,
) -> Option<StreamError> {
    if dispute.is_resolved {
        Some(StreamError::DisputeAlreadyResolved)
    } else if authority != platform.authority {
        Some(StreamError::UnauthorizedAccess)
    } else if text_len(resolution) > MAX_RESOLUTION_LEN {
        Some(StreamError::ResolutionTooLong)
    } else {
        None
    }
}

/// Resolves a dispute, by the platform operator only and only once, with a
/// resolution text that fits in the record. Where
/// corrected attestations come with it, the backend's signature over them
/// must check; the corrections change no reward record.
pub fn resolve_dispute<F: Fn(&Address, &Vec<u8>, &[u8; 64]) -> bool>(
    platform: &PlatformState,
    stream: &Stream,
    dispute: &mut Dispute,
    dispute_key: Address,
    authority: Address,
    resolution: String,
    viewer_data_corrections: Option<Vec<ViewerData>>,
    backend_signature: &[u8; 64],
    verify: &F,
    now: i64,
) -> (r: Result<DisputeResolved, StreamError>)
    requires
        forall|k: &Address, m: &Vec<u8>, s: &[u8; 64]| verify.requires((k, m, s)),
    ensures
        r is Err ==> *final(dispute) == *old(dispute),
        resolve_error(*platform, *old(dispute), authority, resolution@) matches Some(e) ==> r == Err::<
            DisputeResolved,
            StreamError,
        >(e),
        resolve_error(*platform, *old(dispute), authority, resolution@) is None
            && viewer_data_corrections is None ==> r is Ok,
        r matches Err(StreamError::InvalidBackendSignature) ==> viewer_data_corrections matches Some(
            c,
        ) && (!may_own_seeded(platform.authority) || verifier_said(
            *verify,
            platform.authority,
            vstd::utf8::encode_utf8(stream.id@),
            c@,
            *backend_signature,
            false,
        )),
        resolve_error(*platform, *old(dispute), authority, resolution@) is None && !(r matches Err(
            StreamError::InvalidBackendSignature,
        )) ==> r is Ok,
        r is Ok && viewer_data_corrections is Some ==> may_own_seeded(platform.authority)
            && verifier_said(
            *verify,
            platform.authority,
            vstd::utf8::encode_utf8(stream.id@),
            viewer_data_corrections->0@,
            *backend_signature,
            true,
        ),
        r matches Ok(resolved) ==> {
            &&& *final(dispute) == (Dispute {
                is_resolved: true,
                resolution,
                resolved_at: now,
                resolver: authority,
                ..*old(dispute)
            })
            &&& resolved.stream_id@ == stream.id@
            &&& resolved.dispute == dispute_key
            &&& resolved.resolver == authority
            &&& resolved.timestamp == now
        },
{
    if dispute.is_resolved {
        return Err(StreamError::DisputeAlreadyResolved);
    }
    if authority != platform.authority {
        return Err(StreamError::UnauthorizedAccess);
    }
    if resolution.as_str().as_bytes().len() > MAX_RESOLUTION_LEN {
        return Err(StreamError::ResolutionTooLong);
    }
    if let Some(corrections) = viewer_data_corrections {
        check_attestation(
            &platform.authority,
            stream.id.as_str(),
            corrections.as_slice(),
            backend_signature,
            verify,
        )?;
    }
    dispute.is_resolved = true;
    dispute.resolution = resolution;
    dispute.resolved_at = now;
    dispute.resolver = authority;
    Ok(
        DisputeResolved {
            stream_id: stream.id.clone(),
            dispute: dispute_key,
            resolver: authority,
            timestamp: now,
        },
    )
}

} // verus!
