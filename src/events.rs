//! Notifications that operations hand back for indexers and user interfaces.
use vstd::prelude::*;
use crate::types::Address;

verus! {

/// A stream was opened.
pub struct StreamStarted {
    pub creator: Address,
    pub stream_id: String,
    pub start_time: i64,
}

/// A donation reached a stream's escrow.
pub struct DonationReceived {
    pub stream_id: String,
    pub donor: Address,
    pub amount: u64,
    pub timestamp: i64,
}

/// A stream was settled with backend attestations.
pub struct StreamEnded {
    pub stream_id: String,
    pub creator: Address,
    pub end_time: i64,
    pub total_donations: u64,
}

/// A stream was settled after its timeout, all to the creator.
pub struct StreamAutoSettled {
    pub stream_id: String,
    pub creator: Address,
    pub end_time: i64,
    pub total_donations: u64,
}

/// A viewer reward record was created at settlement.
pub struct RewardCalculated {
    pub stream_id: String,
    pub viewer: Address,
    pub amount: u64,
}

/// A viewer reward was paid out.
pub struct RewardClaimed {
    pub stream_id: String,
    pub viewer: Address,
    pub amount: u64,
}

/// A dispute was raised against a settled stream.
pub struct DisputeOpened {
    pub stream_id: String,
    pub claimant: Address,
    pub timestamp: i64,
}

/// The operator resolved a dispute.
pub struct DisputeResolved {
    pub stream_id: String,
    pub dispute: Address,
    pub resolver: Address,
    pub timestamp: i64,
}

} // verus!
