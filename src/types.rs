use vstd::prelude::*;

verus! {

/// A 32-byte account identity.
#[derive(Clone, Copy)]
pub struct Address {
    pub bytes: [u8; 32],
}

impl Address {
    pub open spec fn key(self) -> Seq<u8> {
        self.bytes@
    }

    pub fn new(bytes: [u8; 32]) -> (r: Address)
        ensures
            r.bytes == bytes,
    {
        Address { bytes }
    }

    pub fn to_bytes(&self) -> (r: [u8; 32])
        ensures
            r == self.bytes,
    {
        self.bytes
    }
}

impl PartialEq for Address {
    fn eq(&self, other: &Address) -> (r: bool) {
        let mut i: usize = 0;
        while i < 32
            invariant
                0 <= i <= 32,
                forall|j: int| 0 <= j < i ==> self.bytes@[j] == other.bytes@[j],
            decreases 32 - i,
        {
            if self.bytes[i] != other.bytes[i] {
                return false;
            }
            i = i + 1;
        }
        proof {
            assert(self.bytes =~= other.bytes);
        }
        true
    }
}

impl vstd::std_specs::cmp::PartialEqSpecImpl for Address {
    open spec fn obeys_eq_spec() -> bool {
        true
    }

    open spec fn eq_spec(&self, other: &Address) -> bool {
        *self == *other
    }
}

/// Seeds of the program-derived addresses of a stream and of its escrow.
#[derive(Clone, Copy, PartialEq, Eq, Structural)]
pub struct StreamBumps {
    pub stream_bump: u8,
    pub escrow_bump: u8,
}

/// One viewer's attested watch record, as signed by the backend.
#[derive(Clone, Copy)]
pub struct ViewerData {
    pub address: Address,
    pub watch_time: u32,
    pub watch_percentage: u8,
}

/// The platform registry: operator, default fee and a stream counter.
pub struct PlatformState {
    pub authority: Address,
    pub platform_fee: u8,
    pub stream_count: u64,
}

impl PlatformState {
    pub open spec fn wf(self) -> bool {
        self.platform_fee <= 100
    }
}

/// A stream: identity, timing, payout parameters and donation total.
pub struct Stream {
    pub id: String,
    pub creator: Address,
    pub start_time: i64,
    pub end_time: i64,
    pub is_active: bool,
    pub creator_percentage: u8,
    pub min_watch_percentage: u8,
    pub min_stream_duration: i64,
    pub total_donations: u64,
    pub escrow_account: Address,
    pub bumps: StreamBumps,
}

impl Stream {
    pub open spec fn wf(self) -> bool {
        &&& self.creator_percentage <= 100
        &&& self.min_watch_percentage <= 100
    }
}

/// The funds held in custody for one stream; only the stream's derived
/// authority moves them out.
pub struct EscrowAccount {
    pub address: Address,
    pub authority: Address,
    pub balance: u64,
}

/// One contribution to a stream.
pub struct Donation {
    pub donor: Address,
    pub stream: Address,
    pub amount: u64,
    pub timestamp: i64,
}

/// A payable claim of one viewer on a settled stream's escrow.
pub struct ViewerReward {
    pub viewer: Address,
    pub stream: Address,
    pub amount: u64,
    pub claimed: bool,
}

/// An arbitration record raised against a settled stream.
pub struct Dispute {
    pub stream: Address,
    pub claimant: Address,
    pub reason: String,
    pub evidence: String,
    pub is_resolved: bool,
    pub resolution: String,
    pub resolved_at: i64,
    pub resolver: Address,
    pub timestamp: i64,
}

/// Why an operation was refused; a refused operation changes nothing.
#[derive(Clone, Copy, PartialEq, Eq, Structural, Debug)]
pub enum StreamError {
    InvalidFeePercentage,
    InvalidWatchPercentage,
    StreamInactive,
    StreamStillActive,
    InvalidEscrowAccount,
    UnauthorizedAccess,
    StreamDurationNotMet,
    InvalidBackendSignature,
    RewardAlreadyClaimed,
    MathOverflow,
    TimeoutNotReached,
    DisputeAlreadyResolved,
    InsufficientEscrowFunds,
    InvalidDonationAmount,
    StreamIdTooLong,
    DisputeReasonTooLong,
    EvidenceTooLong,
    ResolutionTooLong,
}

} // verus!
