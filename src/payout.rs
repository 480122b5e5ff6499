//! The settlement arithmetic: eligibility, the creator/viewer split and the
//! proportional viewer rewards.
use vstd::prelude::*;
use crate::types::{Address, ViewerData, ViewerReward};
use crate::events::RewardCalculated;

verus! {

/// A viewer is eligible when its watch percentage meets the stream's minimum.
pub open spec fn eligible(v: ViewerData, min_watch: u8) -> bool {
    v.watch_percentage >= min_watch
}

/// Sum of the watch time of the eligible viewers.
pub open spec fn eligible_watch_time(data: Seq<ViewerData>, min_watch: u8) -> nat
    decreases data.len(),
{
    if data.len() == 0 {
        0
    } else {
        let rest = eligible_watch_time(data.drop_last(), min_watch);
        if eligible(data.last(), min_watch) {
            rest + data.last().watch_time as nat
        } else {
            rest
        }
    }
}

/// The creator's part of a donation total: the percentage, rounded down.
pub open spec fn creator_share(total: u64, percentage: u8) -> int {
    (total * percentage) as int / 100
}

/// One viewer's part of the viewers' pool, rounded down.
pub open spec fn viewer_reward(pool: int, watch_time: u32, total_watch: int) -> int {
    (pool * watch_time) / total_watch
}

/// Whether some eligible viewer's product of pool and watch time exceeds `u64`.
pub open spec fn reward_overflows(data: Seq<ViewerData>, min_watch: u8, pool: int) -> bool {
    exists|i: int|
        0 <= i < data.len() && eligible(#[trigger] data[i], min_watch) && pool * data[i].watch_time
            > u64::MAX
}

/// The reward records of a settlement: one unclaimed record per eligible
/// viewer whose reward is positive, in the order of the attestation list.
pub open spec fn reward_records(
    data: Seq<ViewerData>,
    min_watch: u8,
    pool: int,
    total_watch: int,
    stream: Address,
) -> Seq<ViewerReward>
    decreases data.len(),
{
    if data.len() == 0 {
        seq![]
    } else {
        let rest = reward_records(data.drop_last(), min_watch, pool, total_watch, stream);
        let v = data.last();
        let amount = viewer_reward(pool, v.watch_time, total_watch);
        if eligible(v, min_watch) && amount > 0 {
            rest.push(ViewerReward { viewer: v.address, stream, amount: amount as u64, claimed: false })
        } else {
            rest
        }
    }
}

/// Sum of the amounts of reward records.
pub open spec fn total_rewarded(rewards: Seq<ViewerReward>) -> nat
    decreases rewards.len(),
{
    if rewards.len() == 0 {
        0
    } else {
        total_rewarded(rewards.drop_last()) + rewards.last().amount as nat
    }
}

/// Sums the watch time of the eligible viewers, or `None` where the sum
/// exceeds `u64`.
pub fn total_valid_watch_time(viewer_data: &[ViewerData], min_watch: u8) -> (r: Option<u64>)
    ensures
        r is Some <==> eligible_watch_time(viewer_data@, min_watch) <= u64::MAX,
        r is Some ==> r->0 == eligible_watch_time(viewer_data@, min_watch),
{
    let mut total: u64 = 0;
    let mut i: usize = 0;
    while i < viewer_data.len()
        invariant
            0 <= i <= viewer_data@.len(),
            total == eligible_watch_time(viewer_data@.subrange(0, i as int), min_watch),
        decreases viewer_data@.len() - i,
    {
        let v = viewer_data[i];
        proof {
            assert(viewer_data@.subrange(0, i + 1).drop_last() =~= viewer_data@.subrange(
                0,
                i as int,
            ));
        }
        if v.watch_percentage >= min_watch {
            match total.checked_add(v.watch_time as u64) {
                Some(t) => total = t,
                None => {
                    proof {
                        lemma_watch_time_prefix(viewer_data@, min_watch, i + 1);
                    }
                    return None;
                },
            }
        }
        i = i + 1;
    }
    proof {
        assert(viewer_data@.subrange(0, viewer_data@.len() as int) =~= viewer_data@);
    }
    Some(total)
}

/// The eligible watch time of a prefix is at most that of the whole list.
pub proof fn lemma_watch_time_prefix(data: Seq<ViewerData>, min_watch: u8, n: int)
    requires
        0 <= n <= data.len(),
    ensures
        eligible_watch_time(data.subrange(0, n), min_watch) <= eligible_watch_time(data, min_watch),
    decreases data.len() - n,
{
    if n < data.len() {
        lemma_watch_time_prefix(data, min_watch, n + 1);
        assert(data.subrange(0, n + 1).drop_last() =~= data.subrange(0, n));
    } else {
        assert(data.subrange(0, n) =~= data);
    }
}

/// A donation total split between the creator and the viewers' pool.
pub struct Split {
    pub creator_amount: u64,
    pub viewers_amount: u64,
}

/// The reward records of a settlement and one notification per record.
pub struct RewardSet {
    pub rewards: Vec<ViewerReward>,
    pub notifications: Vec<RewardCalculated>,
}

/// Splits a donation total into the creator's part and the viewers' pool,
/// or `None` where total times percentage exceeds `u64`.
pub fn split_donations(total: u64, creator_percentage: u8) -> (r: Option<Split>)
    requires
        creator_percentage <= 100,
    ensures
        r is Some <==> total * creator_percentage <= u64::MAX,
        r matches Some(sp) ==> sp.creator_amount == creator_share(total, creator_percentage)
            && sp.viewers_amount == total - creator_share(total, creator_percentage),
{
    match total.checked_mul(creator_percentage as u64) {
        Some(product) => {
            let creator_amount = product / 100;
            proof {
                assert(creator_amount <= total) by (nonlinear_arith)
                    requires
                        product == total * creator_percentage,
                        creator_percentage <= 100,
                        creator_amount == product / 100,
                ;
            }
            Some(Split { creator_amount, viewers_amount: total - creator_amount })
        },
        None => None,
    }
}

/// Computes the reward records of the eligible viewers, with one
/// notification per record, or `None` where some eligible viewer's product
/// of pool and watch time exceeds `u64`.
pub fn compute_rewards(
    viewer_data: &[ViewerData],
    min_watch: u8,
    pool: u64,
    total_watch: u64,
    stream: Address,
    stream_id: &String,
) -> (r: Option<RewardSet>)
    requires
        total_watch > 0,
    ensures
        r is Some <==> !reward_overflows(viewer_data@, min_watch, pool as int),
        r matches Some(set) ==> set.rewards@ == reward_records(
            viewer_data@,
            min_watch,
            pool as int,
            total_watch as int,
            stream,
        ),
        r matches Some(set) ==> set.notifications@.len() == set.rewards@.len() && forall|i: int|
            0 <= i < set.notifications@.len() ==> (#[trigger] set.notifications@[i]).stream_id@
                == stream_id@ && set.notifications@[i].viewer == set.rewards@[i].viewer
                && set.notifications@[i].amount == set.rewards@[i].amount,
{
    let mut rewards: Vec<ViewerReward> = Vec::new();
    let mut notes: Vec<RewardCalculated> = Vec::new();
    let mut i: usize = 0;
    while i < viewer_data.len()
        invariant
            0 <= i <= viewer_data@.len(),
            total_watch > 0,
            !reward_overflows(viewer_data@.subrange(0, i as int), min_watch, pool as int),
            rewards@ == reward_records(
                viewer_data@.subrange(0, i as int),
                min_watch,
                pool as int,
                total_watch as int,
                stream,
            ),
            notes@.len() == rewards@.len(),
            forall|j: int|
                0 <= j < notes@.len() ==> (#[trigger] notes@[j]).stream_id@ == stream_id@
                    && notes@[j].viewer == rewards@[j].viewer && notes@[j].amount
                    == rewards@[j].amount,
        decreases viewer_data@.len() - i,
    {
        let v = viewer_data[i];
        let ghost prefix = viewer_data@.subrange(0, i as int);
        let ghost next = viewer_data@.subrange(0, i + 1);
        proof {
            assert(next.drop_last() =~= prefix);
            assert(next.last() == v);
        }
        if v.watch_percentage >= min_watch {
            let product = match pool.checked_mul(v.watch_time as u64) {
                Some(p) => p,
                None => {
                    proof {
                        assert(viewer_data@[i as int] == v);
                        assert(reward_overflows(viewer_data@, min_watch, pool as int));
                    }
                    return None;
                },
            };
            let amount = product / total_watch;
            if amount > 0 {
                rewards.push(ViewerReward { viewer: v.address, stream, amount, claimed: false });
                notes.push(
                    RewardCalculated { stream_id: stream_id.clone(), viewer: v.address, amount },
                );
            }
        }
        proof {
            assert forall|j: int|
                0 <= j < next.len() && eligible(#[trigger] next[j], min_watch) implies pool
                * next[j].watch_time <= u64::MAX by {
                if j < i {
                    assert(next[j] == prefix[j]);
                }
            }
        }
        i = i + 1;
    }
    proof {
        assert(viewer_data@.subrange(0, viewer_data@.len() as int) =~= viewer_data@);
    }
    Some(RewardSet { rewards, notifications: notes })
}

/// The rewards of a settlement never add up to more than the pool: each is
/// rounded down, so their sum times the total watch time is at most the pool
/// times the eligible watch time of the list.
pub proof fn lemma_rewards_scaled(
    data: Seq<ViewerData>,
    min_watch: u8,
    pool: nat,
    total_watch: nat,
    stream: Address,
)
    requires
        total_watch > 0,
        pool <= u64::MAX,
        eligible_watch_time(data, min_watch) <= total_watch,
    ensures
        total_rewarded(reward_records(data, min_watch, pool as int, total_watch as int, stream))
            * total_watch <= pool * eligible_watch_time(data, min_watch),
    decreases data.len(),
{
    if data.len() > 0 {
        let rest = data.drop_last();
        let v = data.last();
        let e = eligible_watch_time(rest, min_watch);
        assert(e <= eligible_watch_time(data, min_watch));
        lemma_rewards_scaled(rest, min_watch, pool, total_watch, stream);
        let prev = reward_records(rest, min_watch, pool as int, total_watch as int, stream);
        let s = total_rewarded(prev);
        let w = v.watch_time as nat;
        let amount = viewer_reward(pool as int, v.watch_time, total_watch as int);
        if eligible(v, min_watch) {
            assert(w <= total_watch);
            assert(0 <= amount && amount * total_watch <= pool * w && amount <= pool)
                by (nonlinear_arith)
                requires
                    amount == ((pool as int) * (w as int)) / (total_watch as int),
                    total_watch > 0,
                    w <= total_watch,
            ;
            assert(pool * (e + w) == pool * e + pool * w) by (nonlinear_arith);
            if amount > 0 {
                let pushed = prev.push(
                    ViewerReward { viewer: v.address, stream, amount: amount as u64, claimed: false },
                );
                assert(pushed.drop_last() =~= prev);
                assert((s + amount) * total_watch == s * total_watch + amount * total_watch)
                    by (nonlinear_arith);
                assert(total_rewarded(pushed) == s + amount);
                assert(eligible_watch_time(data, min_watch) == e + w);
                assert((s + amount) * total_watch <= pool * (e + w));
                assert(reward_records(data, min_watch, pool as int, total_watch as int, stream)
                    == pushed);
            } else {
                assert(pool * e <= pool * (e + w)) by (nonlinear_arith);
                assert(eligible_watch_time(data, min_watch) == e + w);
                assert(reward_records(data, min_watch, pool as int, total_watch as int, stream)
                    == prev);
            }
        } else {
            assert(eligible_watch_time(data, min_watch) == e);
            assert(reward_records(data, min_watch, pool as int, total_watch as int, stream)
                == prev);
        }
    } else {
        assert(reward_records(data, min_watch, pool as int, total_watch as int, stream)
            =~= seq![]);
        assert(total_rewarded(seq![]) == 0);
        assert(eligible_watch_time(data, min_watch) == 0);
    }
}

/// The rewards of a settlement add up to at most the viewers' pool.
pub proof fn lemma_rewards_within_pool(
    data: Seq<ViewerData>,
    min_watch: u8,
    pool: u64,
    stream: Address,
)
    requires
        eligible_watch_time(data, min_watch) > 0,
    ensures
        total_rewarded(
            reward_records(
                data,
                min_watch,
                pool as int,
                eligible_watch_time(data, min_watch) as int,
                stream,
            ),
        ) <= pool,
{
    let t = eligible_watch_time(data, min_watch);
    lemma_rewards_scaled(data, min_watch, pool as nat, t, stream);
    let s = total_rewarded(reward_records(data, min_watch, pool as int, t as int, stream));
    assert(s <= pool) by (nonlinear_arith)
        requires
            s * t <= pool * t,
            t > 0,
    ;
}

/// Number of eligible viewers in an attestation list.
pub open spec fn eligible_count(data: Seq<ViewerData>, min_watch: u8) -> nat
    decreases data.len(),
{
    if data.len() == 0 {
        0
    } else {
        eligible_count(data.drop_last(), min_watch) + if eligible(data.last(), min_watch) {
            1nat
        } else {
            0nat
        }
    }
}

/// Each reward loses less than one unit to rounding, so the pool times the
/// eligible watch time stays below the rewards plus the eligible count,
/// times the total watch time.
pub proof fn lemma_rounding_loss_scaled(
    data: Seq<ViewerData>,
    min_watch: u8,
    pool: nat,
    total_watch: nat,
    stream: Address,
)
    requires
        total_watch > 0,
        pool <= u64::MAX,
        eligible_watch_time(data, min_watch) <= total_watch,
    ensures
        eligible_count(data, min_watch) == 0 ==> eligible_watch_time(data, min_watch) == 0,
        pool * eligible_watch_time(data, min_watch) <= (total_rewarded(
            reward_records(data, min_watch, pool as int, total_watch as int, stream),
        ) + eligible_count(data, min_watch)) * total_watch,
        eligible_count(data, min_watch) > 0 ==> pool * eligible_watch_time(data, min_watch) < (
        total_rewarded(reward_records(data, min_watch, pool as int, total_watch as int, stream))
            + eligible_count(data, min_watch)) * total_watch,
    decreases data.len(),
{
    if data.len() == 0 {
        assert(reward_records(data, min_watch, pool as int, total_watch as int, stream)
            =~= seq![]);
        assert(total_rewarded(seq![]) == 0);
    } else {
        let rest = data.drop_last();
        let v = data.last();
        let e = eligible_watch_time(rest, min_watch);
        let n = eligible_count(rest, min_watch);
        assert(e <= eligible_watch_time(data, min_watch));
        lemma_rounding_loss_scaled(rest, min_watch, pool, total_watch, stream);
        let prev = reward_records(rest, min_watch, pool as int, total_watch as int, stream);
        let s = total_rewarded(prev);
        let w = v.watch_time as nat;
        let amount = viewer_reward(pool as int, v.watch_time, total_watch as int);
        if eligible(v, min_watch) {
            assert(w <= total_watch);
            assert(0 <= amount && amount <= pool && pool * w < (amount + 1) * total_watch)
                by (nonlinear_arith)
                requires
                    amount == ((pool as int) * (w as int)) / (total_watch as int),
                    total_watch > 0,
                    w <= total_watch,
            ;
            assert(pool * (e + w) == pool * e + pool * w) by (nonlinear_arith);
            assert(eligible_watch_time(data, min_watch) == e + w);
            assert(eligible_count(data, min_watch) == n + 1);
            if amount > 0 {
                let pushed = prev.push(
                    ViewerReward { viewer: v.address, stream, amount: amount as u64, claimed: false },
                );
                assert(pushed.drop_last() =~= prev);
                assert(total_rewarded(pushed) == s + amount);
                assert(reward_records(data, min_watch, pool as int, total_watch as int, stream)
                    == pushed);
                assert(((s + amount) + (n + 1)) * total_watch == (s + n) * total_watch + (amount
                    + 1) * total_watch) by (nonlinear_arith);
                assert(pool * (e + w) < ((s + amount) + (n + 1)) * total_watch);
            } else {
                assert(reward_records(data, min_watch, pool as int, total_watch as int, stream)
                    == prev);
                assert((s + (n + 1)) * total_watch == (s + n) * total_watch + total_watch)
                    by (nonlinear_arith);
                assert(amount == 0);
                assert((amount + 1) * total_watch == total_watch) by (nonlinear_arith)
                    requires
                        amount == 0,
                ;
                assert(pool * (e + w) < (s + (n + 1)) * total_watch);
            }
        } else {
            assert(eligible_watch_time(data, min_watch) == e);
            assert(eligible_count(data, min_watch) == n);
            assert(reward_records(data, min_watch, pool as int, total_watch as int, stream)
                == prev);
        }
    }
}

/// What rounding leaves of the viewers' pool is less than the number of
/// eligible viewers.
pub proof fn lemma_remainder_below_viewer_count(
    data: Seq<ViewerData>,
    min_watch: u8,
    pool: u64,
    stream: Address,
)
    requires
        eligible_watch_time(data, min_watch) > 0,
    ensures
        pool - total_rewarded(
            reward_records(
                data,
                min_watch,
                pool as int,
                eligible_watch_time(data, min_watch) as int,
                stream,
            ),
        ) < eligible_count(data, min_watch),
{
    let t = eligible_watch_time(data, min_watch);
    lemma_rounding_loss_scaled(data, min_watch, pool as nat, t, stream);
    let s = total_rewarded(reward_records(data, min_watch, pool as int, t as int, stream));
    let n = eligible_count(data, min_watch);
    assert(pool < s + n) by (nonlinear_arith)
        requires
            pool * t < (s + n) * t,
            t > 0,
    ;
}

} // verus!
