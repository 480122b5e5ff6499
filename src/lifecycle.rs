//! The stream state machine: platform setup, stream start, donations,
//! settlement (normal end and timeout) and reward claims.
use vstd::prelude::*;
use crate::types::{
    Address, Donation, EscrowAccount, PlatformState, Stream, StreamBumps, StreamError,
    ViewerData, ViewerReward,
};
use crate::events::{
    DonationReceived, RewardCalculated, RewardClaimed, StreamAutoSettled, StreamEnded,
    StreamStarted,
};
use crate::attestation::{check_attestation, may_own_seeded, verifier_said};
use crate::payout::{
    compute_rewards, creator_share, eligible_watch_time, reward_overflows, reward_records,
    split_donations, total_valid_watch_time,
};

verus! {

/// Whether a sum of two `i64` values stays in range.
pub open spec fn fits_i64(x: int) -> bool {
    i64::MIN <= x <= i64::MAX
}

/// Creates the platform registry with the caller as operator.
pub fn initialize_platform(authority: Address, platform_fee: u8) -> (r: Result<
    PlatformState,
    StreamError,
>)
    ensures
        r is Err <==> platform_fee > 100,
        r is Err ==> r->Err_0 == StreamError::InvalidFeePercentage,
        r matches Ok(p) ==> p.authority == authority && p.platform_fee == platform_fee
            && p.stream_count == 0 && p.wf(),
{
    if platform_fee > 100 {
        return Err(StreamError::InvalidFeePercentage);
    }
    Ok(PlatformState { authority, platform_fee, stream_count: 0 })
}

/// Longest stream id, in bytes, that a stream record holds.
pub const MAX_STREAM_ID_LEN: usize = 32;

/// The error that starting a stream fails with, if any.
pub open spec fn start_error(
    platform: PlatformState,
    stream_id: Seq<char>,
    creator_percentage: u8,
    min_watch_percentage: u8,
) -> Option<StreamError> {
    if creator_percentage > 100 {
        Some(StreamError::InvalidFeePercentage)
    } else if min_watch_percentage > 100 {
        Some(StreamError::InvalidWatchPercentage)
    } else if vstd::utf8::encode_utf8(stream_id).len() > MAX_STREAM_ID_LEN {
        Some(StreamError::StreamIdTooLong)
    } else if platform.stream_count == u64::MAX {
        Some(StreamError::MathOverflow)
    } else {
        None
    }
}

/// Opens a stream and its escrow, and counts it on the platform.
pub fn start_stream(
    platform: &mut PlatformState,
    creator: Address,
    stream_key: Address,
    escrow_account: Address,
    stream_id: String,
    creator_percentage: u8,
    min_watch_percentage: u8,
    min_stream_duration: i64,
    bumps: StreamBumps,
    now: i64,
) -> (r: Result<(Stream, EscrowAccount, StreamStarted), StreamError>)
    ensures
        start_error(*old(platform), stream_id@, creator_percentage, min_watch_percentage) matches Some(e)
            ==> r == Err::<(Stream, EscrowAccount, StreamStarted), StreamError>(e) && *final(
            platform) == *old(platform),
        start_error(*old(platform), stream_id@, creator_percentage, min_watch_percentage) is None ==> r is Ok,
        r matches Ok((s, escrow, started)) ==> {
            &&& s.id@ == stream_id@
            &&& s.creator == creator
            &&& s.start_time == now
            &&& s.end_time == 0
            &&& s.is_active
            &&& s.creator_percentage == creator_percentage
            &&& s.min_watch_percentage == min_watch_percentage
            &&& s.min_stream_duration == min_stream_duration
            &&& s.total_donations == 0
            &&& s.escrow_account == escrow_account
            &&& s.bumps == bumps
            &&& s.wf()
            &&& escrow.address == escrow_account
            &&& escrow.authority == stream_key
            &&& escrow.balance == 0
            &&& started.creator == creator
            &&& started.stream_id@ == stream_id@
            &&& started.start_time == now
            &&& final(platform).stream_count == old(platform).stream_count + 1
            &&& final(platform).authority == old(platform).authority
            &&& final(platform).platform_fee == old(platform).platform_fee
        },
{
    if creator_percentage > 100 {
        return Err(StreamError::InvalidFeePercentage);
    }
    if min_watch_percentage > 100 {
        return Err(StreamError::InvalidWatchPercentage);
    }
    if stream_id.as_str().as_bytes().len() > MAX_STREAM_ID_LEN {
        return Err(StreamError::StreamIdTooLong);
    }
    let count = match platform.stream_count.checked_add(1) {
        Some(c) => c,
        None => return Err(StreamError::MathOverflow),
    };
    let started = StreamStarted { creator, stream_id: stream_id.clone(), start_time: now };
    let stream = Stream {
        id: stream_id,
        creator,
        start_time: now,
        end_time: 0,
        is_active: true,
        creator_percentage,
        min_watch_percentage,
        min_stream_duration,
        total_donations: 0,
        escrow_account,
        bumps,
    };
    let escrow = EscrowAccount { address: escrow_account, authority: stream_key, balance: 0 };
    platform.stream_count = count;
    Ok((stream, escrow, started))
}

/// The error that a donation fails with, if any.
pub open spec fn donate_error(s: Stream, escrow: EscrowAccount, amount: u64) -> Option<
    StreamError,
> {
    if !s.is_active {
        Some(StreamError::StreamInactive)
    } else if escrow.address != s.escrow_account {
        Some(StreamError::InvalidEscrowAccount)
    } else if amount == 0 {
        Some(StreamError::InvalidDonationAmount)
    } else if s.total_donations + amount > u64::MAX || escrow.balance + amount > u64::MAX {
        Some(StreamError::MathOverflow)
    } else {
        None
    }
}

/// Records a donation of a positive amount into an active stream's escrow.
pub fn donate(
    stream: &mut Stream,
    escrow: &mut EscrowAccount,
    stream_key: Address,
    donor: Address,
    amount: u64,
    now: i64,
) -> (r: Result<(Donation, DonationReceived), StreamError>)
    ensures
        donate_error(*old(stream), *old(escrow), amount) matches Some(e) ==> r == Err::<
            (Donation, DonationReceived),
            StreamError,
        >(e),
        donate_error(*old(stream), *old(escrow), amount) is None ==> r is Ok,
        r is Err ==> *final(stream) == *old(stream) && *final(escrow) == *old(escrow),
        r matches Ok((d, received)) ==> {
            &&& *final(stream) == (Stream {
                total_donations: (old(stream).total_donations + amount) as u64,
                ..*old(stream)
            })
            &&& *final(escrow) == (EscrowAccount {
                balance: (old(escrow).balance + amount) as u64,
                ..*old(escrow)
            })
            &&& d == (Donation { donor, stream: stream_key, amount, timestamp: now })
            &&& d.amount > 0
            &&& received.stream_id@ == old(stream).id@
            &&& received.donor == donor
            &&& received.amount == amount
            &&& received.timestamp == now
        },
{
    if !stream.is_active {
        return Err(StreamError::StreamInactive);
    }
    if escrow.address != stream.escrow_account {
        return Err(StreamError::InvalidEscrowAccount);
    }
    if amount == 0 {
        return Err(StreamError::InvalidDonationAmount);
    }
    let total = match stream.total_donations.checked_add(amount) {
        Some(t) => t,
        None => return Err(StreamError::MathOverflow),
    };
    let balance = match escrow.balance.checked_add(amount) {
        Some(b) => b,
        None => return Err(StreamError::MathOverflow),
    };
    stream.total_donations = total;
    escrow.balance = balance;
    let received = DonationReceived {
        stream_id: stream.id.clone(),
        donor,
        amount,
        timestamp: now,
    };
    Ok((Donation { donor, stream: stream_key, amount, timestamp: now }, received))
}

/// The checks that settling a stream must pass before anything is computed:
/// active, its own escrow, and `deadline` after the start reached.
pub open spec fn settle_blocker(
    s: Stream,
    escrow: EscrowAccount,
    deadline: i64,
    now: i64,
    not_reached: StreamError,
) -> Option<StreamError> {
    if !s.is_active {
        Some(StreamError::StreamInactive)
    } else if escrow.address != s.escrow_account {
        Some(StreamError::InvalidEscrowAccount)
    } else if !fits_i64(s.start_time + deadline) {
        Some(StreamError::MathOverflow)
    } else if now < s.start_time + deadline {
        Some(not_reached)
    } else {
        None
    }
}

/// What blocks a normal end: the minimum duration must have elapsed.
pub open spec fn end_blocker(s: Stream, escrow: EscrowAccount, now: i64) -> Option<StreamError> {
    settle_blocker(s, escrow, s.min_stream_duration, now, StreamError::StreamDurationNotMet)
}

/// What blocks a timeout settlement: the timeout must have elapsed.
pub open spec fn timeout_blocker(s: Stream, escrow: EscrowAccount, timeout: i64, now: i64) -> Option<
    StreamError,
> {
    settle_blocker(s, escrow, timeout, now, StreamError::TimeoutNotReached)
}

/// The viewers' pool of a stream: what is left of its total after the
/// creator's part.
pub open spec fn viewers_pool(s: Stream) -> int {
    s.total_donations - creator_share(s.total_donations, s.creator_percentage)
}

/// The error that the payout of an accepted settlement fails with, if any.
pub open spec fn payout_error(s: Stream, escrow: EscrowAccount, data: Seq<ViewerData>) -> Option<
    StreamError,
> {
    let watch = eligible_watch_time(data, s.min_watch_percentage);
    if watch > u64::MAX {
        Some(StreamError::MathOverflow)
    } else if s.total_donations * s.creator_percentage > u64::MAX {
        Some(StreamError::MathOverflow)
    } else if creator_share(s.total_donations, s.creator_percentage) > escrow.balance {
        Some(StreamError::InsufficientEscrowFunds)
    } else if viewers_pool(s) > 0 && watch > 0 && reward_overflows(
        data,
        s.min_watch_percentage,
        viewers_pool(s),
    ) {
        Some(StreamError::MathOverflow)
    } else {
        None
    }
}

/// The reward records that settling a stream creates.
pub open spec fn settled_rewards(s: Stream, data: Seq<ViewerData>, stream_key: Address) -> Seq<
    ViewerReward,
> {
    let watch = eligible_watch_time(data, s.min_watch_percentage);
    if viewers_pool(s) > 0 && watch > 0 {
        reward_records(data, s.min_watch_percentage, viewers_pool(s), watch as int, stream_key)
    } else {
        seq![]
    }
}

/// What a normal end pays out and records.
pub struct StreamSettlement {
    pub creator_amount: u64,
    pub rewards: Vec<ViewerReward>,
    pub reward_notifications: Vec<RewardCalculated>,
    pub ended: StreamEnded,
}

/// Ends a stream: checks that it may end and the backend's signature over the
/// attestation list, pays the creator's part out of escrow and creates one
/// reward record per eligible viewer with a positive reward. Rounding
/// remainders stay in escrow.
pub fn end_stream<F: Fn(&Address, &Vec<u8>, &[u8; 64]) -> bool>(
    platform: &PlatformState,
    stream: &mut Stream,
    escrow: &mut EscrowAccount,
    stream_key: Address,
    viewer_data: &Vec<ViewerData>,
    backend_signature: &[u8; 64],
    verify: &F,
    now: i64,
) -> (r: Result<StreamSettlement, StreamError>)
    requires
        old(stream).wf(),
        forall|k: &Address, m: &Vec<u8>, s: &[u8; 64]| verify.requires((k, m, s)),
    ensures
        r is Err ==> *final(stream) == *old(stream) && *final(escrow) == *old(escrow),
        end_blocker(*old(stream), *old(escrow), now) matches Some(e) ==> r == Err::<
            StreamSettlement,
            StreamError,
        >(e),
        r matches Err(StreamError::InvalidBackendSignature) ==> !may_own_seeded(platform.authority)
            || verifier_said(
            *verify,
            platform.authority,
            vstd::utf8::encode_utf8(old(stream).id@),
            viewer_data@,
            *backend_signature,
            false,
        ),
        end_blocker(*old(stream), *old(escrow), now) is None && !(r matches Err(
            StreamError::InvalidBackendSignature,
        )) ==> {
            &&& may_own_seeded(platform.authority)
            &&& verifier_said(
                *verify,
                platform.authority,
                vstd::utf8::encode_utf8(old(stream).id@),
                viewer_data@,
                *backend_signature,
                true,
            )
            &&& payout_error(*old(stream), *old(escrow), viewer_data@) matches Some(e) ==> r
                == Err::<StreamSettlement, StreamError>(e)
            &&& payout_error(*old(stream), *old(escrow), viewer_data@) is None ==> r is Ok
        },
        r matches Ok(out) ==> {
            &&& *final(stream) == (Stream { is_active: false, end_time: now, ..*old(stream) })
            &&& *final(escrow) == (EscrowAccount {
                balance: (old(escrow).balance - out.creator_amount) as u64,
                ..*old(escrow)
            })
            &&& out.creator_amount == creator_share(
                old(stream).total_donations,
                old(stream).creator_percentage,
            )
            &&& out.rewards@ == settled_rewards(*old(stream), viewer_data@, stream_key)
            &&& out.reward_notifications@.len() == out.rewards@.len()
            &&& forall|i: int|
                0 <= i < out.reward_notifications@.len() ==> (#[trigger] out.reward_notifications@[i]).stream_id@
                    == old(stream).id@ && out.reward_notifications@[i].viewer
                    == out.rewards@[i].viewer && out.reward_notifications@[i].amount
                    == out.rewards@[i].amount
            &&& out.ended.stream_id@ == old(stream).id@
            &&& out.ended.creator == old(stream).creator
            &&& out.ended.end_time == now
            &&& out.ended.total_donations == old(stream).total_donations
        },
{
    if !stream.is_active {
        return Err(StreamError::StreamInactive);
    }
    if escrow.address != stream.escrow_account {
        return Err(StreamError::InvalidEscrowAccount);
    }
    let earliest = match stream.start_time.checked_add(stream.min_stream_duration) {
        Some(t) => t,
        None => return Err(StreamError::MathOverflow),
    };
    if now < earliest {
        return Err(StreamError::StreamDurationNotMet);
    }
    check_attestation(
        &platform.authority,
        stream.id.as_str(),
        viewer_data.as_slice(),
        backend_signature,
        verify,
    )?;
    let min_watch = stream.min_watch_percentage;
    let watch = match total_valid_watch_time(viewer_data.as_slice(), min_watch) {
        Some(w) => w,
        None => return Err(StreamError::MathOverflow),
    };
    let split = match split_donations(stream.total_donations, stream.creator_percentage) {
        Some(sp) => sp,
        None => return Err(StreamError::MathOverflow),
    };
    if split.creator_amount > escrow.balance {
        return Err(StreamError::InsufficientEscrowFunds);
    }
    let mut rewards: Vec<ViewerReward> = Vec::new();
    let mut reward_notifications: Vec<RewardCalculated> = Vec::new();
    if split.viewers_amount > 0 && watch > 0 {
        match compute_rewards(
            viewer_data.as_slice(),
            min_watch,
            split.viewers_amount,
            watch,
            stream_key,
            &stream.id,
        ) {
            Some(set) => {
                rewards = set.rewards;
                reward_notifications = set.notifications;
            },
            None => return Err(StreamError::MathOverflow),
        }
    }
    escrow.balance = escrow.balance - split.creator_amount;
    stream.is_active = false;
    stream.end_time = now;
    let ended = StreamEnded {
        stream_id: stream.id.clone(),
        creator: stream.creator,
        end_time: now,
        total_donations: stream.total_donations,
    };
    Ok(StreamSettlement {
        creator_amount: split.creator_amount,
        rewards,
        reward_notifications,
        ended,
    })
}

/// Settles a stream whose attestations never came: once the timeout after
/// the start has elapsed, the whole donation total goes to the creator.
pub fn auto_settle_stream(
    stream: &mut Stream,
    escrow: &mut EscrowAccount,
    timeout_duration: i64,
    now: i64,
) -> (r: Result<StreamAutoSettled, StreamError>)
    ensures
        r is Err ==> *final(stream) == *old(stream) && *final(escrow) == *old(escrow),
        timeout_blocker(*old(stream), *old(escrow), timeout_duration, now) matches Some(e) ==> r
            == Err::<StreamAutoSettled, StreamError>(e),
        timeout_blocker(*old(stream), *old(escrow), timeout_duration, now) is None ==> (if old(
            escrow,
        ).balance < old(stream).total_donations {
            r == Err::<StreamAutoSettled, StreamError>(StreamError::InsufficientEscrowFunds)
        } else {
            r is Ok
        }),
        r matches Ok(settled) ==> {
            &&& *final(stream) == (Stream { is_active: false, end_time: now, ..*old(stream) })
            &&& *final(escrow) == (EscrowAccount {
                balance: (old(escrow).balance - old(stream).total_donations) as u64,
                ..*old(escrow)
            })
            &&& settled.stream_id@ == old(stream).id@
            &&& settled.creator == old(stream).creator
            &&& settled.end_time == now
            &&& settled.total_donations == old(stream).total_donations
        },
{
    if !stream.is_active {
        return Err(StreamError::StreamInactive);
    }
    if escrow.address != stream.escrow_account {
        return Err(StreamError::InvalidEscrowAccount);
    }
    let deadline = match stream.start_time.checked_add(timeout_duration) {
        Some(t) => t,
        None => return Err(StreamError::MathOverflow),
    };
    if now < deadline {
        return Err(StreamError::TimeoutNotReached);
    }
    let creator_amount = stream.total_donations;
    if creator_amount > escrow.balance {
        return Err(StreamError::InsufficientEscrowFunds);
    }
    escrow.balance = escrow.balance - creator_amount;
    stream.is_active = false;
    stream.end_time = now;
    Ok(
        StreamAutoSettled {
            stream_id: stream.id.clone(),
            creator: stream.creator,
            end_time: now,
            total_donations: creator_amount,
        },
    )
}

/// The error that a claim fails with, if any.
pub open spec fn claim_error(s: Stream, reward: ViewerReward, escrow: EscrowAccount) -> Option<
    StreamError,
> {
    if reward.claimed {
        Some(StreamError::RewardAlreadyClaimed)
    } else if s.is_active {
        Some(StreamError::StreamStillActive)
    } else if escrow.address != s.escrow_account {
        Some(StreamError::InvalidEscrowAccount)
    } else if escrow.balance < reward.amount {
        Some(StreamError::InsufficientEscrowFunds)
    } else {
        None
    }
}

/// Pays an unclaimed reward of a settled stream out of escrow, exactly once.
pub fn claim_reward(stream: &Stream, reward: &mut ViewerReward, escrow: &mut EscrowAccount) -> (r:
    Result<RewardClaimed, StreamError>)
    ensures
        claim_error(*stream, *old(reward), *old(escrow)) matches Some(e) ==> r == Err::<
            RewardClaimed,
            StreamError,
        >(e),
        claim_error(*stream, *old(reward), *old(escrow)) is None ==> r is Ok,
        r is Err ==> *final(reward) == *old(reward) && *final(escrow) == *old(escrow),
        r matches Ok(claimed) ==> {
            &&& *final(reward) == (ViewerReward { claimed: true, ..*old(reward) })
            &&& *final(escrow) == (EscrowAccount {
                balance: (old(escrow).balance - old(reward).amount) as u64,
                ..*old(escrow)
            })
            &&& claimed.stream_id@ == stream.id@
            &&& claimed.viewer == old(reward).viewer
            &&& claimed.amount == old(reward).amount
        },
{
    if reward.claimed {
        return Err(StreamError::RewardAlreadyClaimed);
    }
    if stream.is_active {
        return Err(StreamError::StreamStillActive);
    }
    if escrow.address != stream.escrow_account {
        return Err(StreamError::InvalidEscrowAccount);
    }
    if escrow.balance < reward.amount {
        return Err(StreamError::InsufficientEscrowFunds);
    }
    escrow.balance = escrow.balance - reward.amount;
    reward.claimed = true;
    Ok(RewardClaimed { stream_id: stream.id.clone(), viewer: reward.viewer, amount: reward.amount })
}

} // verus!
