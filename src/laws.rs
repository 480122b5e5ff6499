//! Properties that hold across operations, stated over the specifications
//! that the operations' contracts use.
use vstd::prelude::*;
use crate::types::{Address, Dispute, EscrowAccount, PlatformState, Stream, StreamError, ViewerData, ViewerReward};
use crate::payout::{
    creator_share, eligible_count, eligible_watch_time, lemma_remainder_below_viewer_count,
    lemma_rewards_within_pool, total_rewarded,
};
use crate::lifecycle::{
    claim_error, end_blocker, payout_error, settled_rewards, start_error, timeout_blocker, fits_i64, MAX_STREAM_ID_LEN, viewers_pool,
};
use crate::dispute::resolve_error;

verus! {

/// Starting a stream fails with a validation error when either percentage
/// is above 100, and succeeds for every pair of percentages up to 100 as
/// long as the id fits in a stream record and the platform's stream counter
/// can still grow.
pub proof fn lemma_start_validation(
    platform: PlatformState,
    stream_id: Seq<char>,
    creator_percentage: u8,
    min_watch_percentage: u8,
)
    ensures
        creator_percentage <= 100 && min_watch_percentage <= 100 && platform.stream_count
            < u64::MAX && vstd::utf8::encode_utf8(stream_id).len() <= MAX_STREAM_ID_LEN ==> start_error(platform, stream_id, creator_percentage,
            min_watch_percentage,
        ) is None,
        creator_percentage > 100 ==> start_error(platform, stream_id, creator_percentage, min_watch_percentage)
            == Some(StreamError::InvalidFeePercentage),
        creator_percentage <= 100 && min_watch_percentage > 100 ==> start_error(platform, stream_id, creator_percentage,
            min_watch_percentage,
        ) == Some(StreamError::InvalidWatchPercentage),
{
}

/// The sum of the first `n` reward amounts is at most the sum of all.
pub proof fn lemma_rewarded_prefix(rewards: Seq<ViewerReward>, n: int)
    requires
        0 <= n <= rewards.len(),
    ensures
        total_rewarded(rewards.take(n)) <= total_rewarded(rewards),
    decreases rewards.len() - n,
{
    if n < rewards.len() {
        lemma_rewarded_prefix(rewards, n + 1);
        assert(rewards.take(n + 1).drop_last() =~= rewards.take(n));
    } else {
        assert(rewards.take(n) =~= rewards);
    }
}

/// Funds conservation at settlement: while a stream is active its escrow
/// holds exactly its donation total; a normal settlement pays the creator's
/// part out of it, and the reward records it creates add up to no more than
/// what is left. So the escrow covers every claim, taken in any prefix of
/// the records' order, and whatever rounding leaves over stays in escrow;
/// when the pool is shared out, that leftover is less than the number of
/// eligible viewers.
pub proof fn lemma_funds_conserved(
    s: Stream,
    escrow: EscrowAccount,
    data: Seq<ViewerData>,
    stream_key: Address,
)
    requires
        s.wf(),
        escrow.balance == s.total_donations,
        payout_error(s, escrow, data) is None,
    ensures
        creator_share(s.total_donations, s.creator_percentage) + total_rewarded(
            settled_rewards(s, data, stream_key),
        ) <= s.total_donations,
        forall|i: int|
            0 <= i < settled_rewards(s, data, stream_key).len() ==> escrow.balance
                - creator_share(s.total_donations, s.creator_percentage) - total_rewarded(
                settled_rewards(s, data, stream_key).take(i),
            ) >= (#[trigger] settled_rewards(s, data, stream_key)[i]).amount,
        viewers_pool(s) > 0 && eligible_watch_time(data, s.min_watch_percentage) > 0
            ==> viewers_pool(s) - total_rewarded(settled_rewards(s, data, stream_key))
            < eligible_count(data, s.min_watch_percentage),
{
    let rewards = settled_rewards(s, data, stream_key);
    let watch = eligible_watch_time(data, s.min_watch_percentage);
    let creator = creator_share(s.total_donations, s.creator_percentage);
    assert(creator <= s.total_donations) by (nonlinear_arith)
        requires
            creator == (s.total_donations * s.creator_percentage) as int / 100,
            s.creator_percentage <= 100,
    ;
    if viewers_pool(s) > 0 && watch > 0 {
        lemma_rewards_within_pool(data, s.min_watch_percentage, viewers_pool(s) as u64, stream_key);
        lemma_remainder_below_viewer_count(
            data,
            s.min_watch_percentage,
            viewers_pool(s) as u64,
            stream_key,
        );
    } else {
        assert(total_rewarded(rewards) == 0);
    }
    assert forall|i: int| 0 <= i < rewards.len() implies escrow.balance - creator
        - total_rewarded(rewards.take(i)) >= (#[trigger] rewards[i]).amount by {
        lemma_rewarded_prefix(rewards, i + 1);
        assert(rewards.take(i + 1).drop_last() =~= rewards.take(i));
    }
}

/// Settlement is final: once a stream is settled, both a normal end and a
/// timeout settlement are refused as inactive, so neither moves funds again.
pub proof fn lemma_settlement_final(s: Stream, escrow: EscrowAccount, timeout: i64, now: i64)
    requires
        !s.is_active,
    ensures
        end_blocker(s, escrow, now) == Some(StreamError::StreamInactive),
        timeout_blocker(s, escrow, timeout, now) == Some(StreamError::StreamInactive),
{
}

/// A normal end of an active stream with its own escrow is held back with
/// a timing error exactly until the minimum duration has elapsed; from then
/// on the backend signature decides.
pub proof fn lemma_end_timing(s: Stream, escrow: EscrowAccount, now: i64)
    requires
        s.is_active,
        escrow.address == s.escrow_account,
        fits_i64(s.start_time + s.min_stream_duration),
    ensures
        now < s.start_time + s.min_stream_duration ==> end_blocker(s, escrow, now) == Some(
            StreamError::StreamDurationNotMet,
        ),
        now >= s.start_time + s.min_stream_duration ==> end_blocker(s, escrow, now) is None,
{
}

/// A timeout settlement of an active stream with its own escrow fails with
/// a timing error before the start plus the timeout, and is allowed at or
/// after it.
pub proof fn lemma_timeout_timing(s: Stream, escrow: EscrowAccount, timeout: i64, now: i64)
    requires
        s.is_active,
        escrow.address == s.escrow_account,
        fits_i64(s.start_time + timeout),
    ensures
        now < s.start_time + timeout ==> timeout_blocker(s, escrow, timeout, now) == Some(
            StreamError::TimeoutNotReached,
        ),
        now >= s.start_time + timeout ==> timeout_blocker(s, escrow, timeout, now) is None,
{
}

/// A reward is paid at most once: after a claim succeeds, a second claim on
/// the record it leaves is refused as already claimed.
pub proof fn lemma_claim_once(s: Stream, reward: ViewerReward, escrow: EscrowAccount)
    requires
        claim_error(s, reward, escrow) is None,
    ensures
        claim_error(
            s,
            ViewerReward { claimed: true, ..reward },
            EscrowAccount { balance: (escrow.balance - reward.amount) as u64, ..escrow },
        ) == Some(StreamError::RewardAlreadyClaimed),
{
}

/// A dispute is resolved at most once: the record a resolution leaves is
/// refused by any later resolution, whoever asks.
pub proof fn lemma_resolution_final(
    platform: PlatformState,
    dispute: Dispute,
    resolution: String,
    now: i64,
    resolver: Address,
    authority: Address,
    next_resolution: Seq<char>,
)
    ensures
        resolve_error(
            platform,
            Dispute { is_resolved: true, resolution, resolved_at: now, resolver, ..dispute },
            authority,
            next_resolution,
        ) == Some(StreamError::DisputeAlreadyResolved),
{
}

} // verus!
