use vibezlive::attestation::create_signature_message;
use vibezlive::lifecycle::{
    auto_settle_stream, claim_reward, donate, end_stream, initialize_platform, start_stream,
    StreamSettlement,
};
use vibezlive::types::{
    Address, EscrowAccount, PlatformState, Stream, StreamBumps, StreamError, ViewerData,
};

fn addr(b: u8) -> Address {
    Address::new([b; 32])
}

fn accept(_k: &Address, _m: &Vec<u8>, _s: &[u8; 64]) -> bool {
    true
}

fn reject(_k: &Address, _m: &Vec<u8>, _s: &[u8; 64]) -> bool {
    false
}

fn open(pct: u8, min_watch: u8, min_duration: i64) -> (PlatformState, Stream, EscrowAccount) {
    let mut platform = initialize_platform(addr(1), 5).unwrap();
    let bumps = StreamBumps { stream_bump: 254, escrow_bump: 253 };
    let (stream, escrow, _) = start_stream(
        &mut platform,
        addr(2),
        addr(3),
        addr(4),
        "stream-1".to_string(),
        pct,
        min_watch,
        min_duration,
        bumps,
        1_000,
    )
    .unwrap();
    (platform, stream, escrow)
}

fn viewer(b: u8, watch_time: u32, watch_percentage: u8) -> ViewerData {
    ViewerData { address: addr(b), watch_time, watch_percentage }
}

fn settle(
    platform: &PlatformState,
    stream: &mut Stream,
    escrow: &mut EscrowAccount,
    data: &Vec<ViewerData>,
) -> Result<StreamSettlement, StreamError> {
    end_stream(platform, stream, escrow, addr(3), data, &[7u8; 64], &accept, 2_000)
}

#[test]
fn proportional_split_pays_exact_rewards() {
    let (platform, mut stream, mut escrow) = open(20, 50, 60);
    donate(&mut stream, &mut escrow, addr(3), addr(9), 1000, 1_100).unwrap();
    let data = vec![viewer(10, 30, 80), viewer(11, 70, 90)];
    let out = settle(&platform, &mut stream, &mut escrow, &data).unwrap();
    assert_eq!(out.creator_amount, 200);
    assert_eq!(out.rewards.len(), 2);
    assert_eq!(out.rewards[0].amount, 240);
    assert_eq!(out.rewards[1].amount, 560);
    assert!(out.rewards[0].viewer == addr(10));
    assert!(out.rewards[1].viewer == addr(11));
    assert!(!out.rewards[0].claimed);
    assert_eq!(out.reward_notifications.len(), 2);
    assert_eq!(out.reward_notifications[1].amount, 560);
    assert_eq!(out.reward_notifications[1].stream_id, "stream-1");
    assert_eq!(escrow.balance, 800);
    assert!(!stream.is_active);
    assert_eq!(stream.end_time, 2_000);
    assert_eq!(out.ended.total_donations, 1000);
    let mut rewards = out.rewards;
    claim_reward(&stream, &mut rewards[0], &mut escrow).unwrap();
    claim_reward(&stream, &mut rewards[1], &mut escrow).unwrap();
    assert_eq!(escrow.balance, 0);
}

#[test]
fn rounding_remainder_stays_in_escrow() {
    let (platform, mut stream, mut escrow) = open(0, 0, 0);
    donate(&mut stream, &mut escrow, addr(3), addr(9), 100, 1_100).unwrap();
    let data = vec![viewer(10, 1, 10), viewer(11, 1, 20), viewer(12, 1, 30)];
    let out = settle(&platform, &mut stream, &mut escrow, &data).unwrap();
    assert_eq!(out.creator_amount, 0);
    let amounts: Vec<u64> = out.rewards.iter().map(|r| r.amount).collect();
    assert_eq!(amounts, vec![33, 33, 33]);
    let mut rewards = out.rewards;
    for r in rewards.iter_mut() {
        claim_reward(&stream, r, &mut escrow).unwrap();
    }
    assert_eq!(escrow.balance, 1);
}

#[test]
fn ineligible_viewers_do_not_dilute() {
    let (platform, mut stream, mut escrow) = open(50, 60, 0);
    donate(&mut stream, &mut escrow, addr(3), addr(9), 1000, 1_100).unwrap();
    let data = vec![viewer(10, 10, 60), viewer(11, 1000, 59), viewer(12, 30, 100)];
    let out = settle(&platform, &mut stream, &mut escrow, &data).unwrap();
    assert_eq!(out.creator_amount, 500);
    assert_eq!(out.rewards.len(), 2);
    assert_eq!(out.rewards[0].amount, 125);
    assert_eq!(out.rewards[1].amount, 375);
    assert!(out.rewards[1].viewer == addr(12));
}

#[test]
fn zero_rewards_create_no_record() {
    let (platform, mut stream, mut escrow) = open(0, 0, 0);
    donate(&mut stream, &mut escrow, addr(3), addr(9), 2, 1_100).unwrap();
    let data = vec![viewer(10, 1, 10), viewer(11, 9, 10)];
    let out = settle(&platform, &mut stream, &mut escrow, &data).unwrap();
    assert_eq!(out.rewards.len(), 1);
    assert_eq!(out.rewards[0].amount, 1);
}

#[test]
fn no_eligible_watch_time_leaves_pool_in_escrow() {
    let (platform, mut stream, mut escrow) = open(30, 90, 0);
    donate(&mut stream, &mut escrow, addr(3), addr(9), 1000, 1_100).unwrap();
    let data = vec![viewer(10, 50, 10)];
    let out = settle(&platform, &mut stream, &mut escrow, &data).unwrap();
    assert_eq!(out.creator_amount, 300);
    assert!(out.rewards.is_empty());
    assert_eq!(escrow.balance, 700);
}

#[test]
fn rejected_signature_changes_nothing() {
    let (platform, mut stream, mut escrow) = open(20, 50, 60);
    donate(&mut stream, &mut escrow, addr(3), addr(9), 1000, 1_100).unwrap();
    let data = vec![viewer(10, 30, 80)];
    let r = end_stream(&platform, &mut stream, &mut escrow, addr(3), &data, &[0u8; 64], &reject, 2_000);
    assert!(matches!(r, Err(StreamError::InvalidBackendSignature)));
    assert!(stream.is_active);
    assert_eq!(stream.total_donations, 1000);
    assert_eq!(stream.end_time, 0);
    assert_eq!(escrow.balance, 1000);
}

#[test]
fn verifier_sees_signer_message_and_signature() {
    let (platform, mut stream, mut escrow) = open(20, 50, 60);
    let data = vec![viewer(10, 30, 80)];
    let expected = create_signature_message("stream-1", &data);
    let check = |k: &Address, m: &Vec<u8>, s: &[u8; 64]| {
        *m == expected && s[0] == 7 && !(*k == addr(1))
    };
    let r = end_stream(&platform, &mut stream, &mut escrow, addr(3), &data, &[7u8; 64], &check, 2_000);
    assert!(r.is_ok());
}

#[test]
fn signer_derivation_refusal_is_a_signature_error() {
    let mut key = [1u8; 32];
    key[11..].copy_from_slice(b"ProgramDerivedAddress");
    let mut platform = initialize_platform(Address::new(key), 0).unwrap();
    let (mut stream, mut escrow, _) = start_stream(
        &mut platform,
        addr(2),
        addr(3),
        addr(4),
        "s".to_string(),
        10,
        10,
        0,
        StreamBumps { stream_bump: 1, escrow_bump: 2 },
        0,
    )
    .unwrap();
    let r = end_stream(&platform, &mut stream, &mut escrow, addr(3), &vec![], &[0u8; 64], &accept, 5);
    assert!(matches!(r, Err(StreamError::InvalidBackendSignature)));
    assert!(stream.is_active);
}

#[test]
fn end_before_minimum_duration_fails() {
    let (platform, mut stream, mut escrow) = open(20, 50, 1_500);
    let r = settle(&platform, &mut stream, &mut escrow, &vec![]);
    assert!(matches!(r, Err(StreamError::StreamDurationNotMet)));
    assert!(stream.is_active);
}

#[test]
fn end_at_minimum_duration_succeeds() {
    let (platform, mut stream, mut escrow) = open(20, 50, 1_000);
    assert!(settle(&platform, &mut stream, &mut escrow, &vec![]).is_ok());
}

#[test]
fn end_duration_overflow_fails() {
    let (platform, mut stream, mut escrow) = open(20, 50, i64::MAX);
    let r = settle(&platform, &mut stream, &mut escrow, &vec![]);
    assert!(matches!(r, Err(StreamError::MathOverflow)));
}

#[test]
fn creator_share_overflow_fails() {
    let (platform, mut stream, mut escrow) = open(20, 50, 0);
    donate(&mut stream, &mut escrow, addr(3), addr(9), u64::MAX, 1_100).unwrap();
    let r = settle(&platform, &mut stream, &mut escrow, &vec![]);
    assert!(matches!(r, Err(StreamError::MathOverflow)));
    assert!(stream.is_active);
    assert_eq!(escrow.balance, u64::MAX);
}

#[test]
fn reward_product_overflow_fails() {
    let (platform, mut stream, mut escrow) = open(0, 0, 0);
    donate(&mut stream, &mut escrow, addr(3), addr(9), u64::MAX / 2, 1_100).unwrap();
    let data = vec![viewer(10, 3, 50)];
    let r = settle(&platform, &mut stream, &mut escrow, &data);
    assert!(matches!(r, Err(StreamError::MathOverflow)));
    assert!(stream.is_active);
}

#[test]
fn second_settlement_fails_inactive() {
    let (platform, mut stream, mut escrow) = open(20, 50, 0);
    donate(&mut stream, &mut escrow, addr(3), addr(9), 1000, 1_100).unwrap();
    settle(&platform, &mut stream, &mut escrow, &vec![]).unwrap();
    assert_eq!(escrow.balance, 800);
    let again = settle(&platform, &mut stream, &mut escrow, &vec![]);
    assert!(matches!(again, Err(StreamError::StreamInactive)));
    let auto = auto_settle_stream(&mut stream, &mut escrow, 0, 9_000);
    assert!(matches!(auto, Err(StreamError::StreamInactive)));
    assert_eq!(escrow.balance, 800);
}

#[test]
fn auto_settle_before_timeout_fails() {
    let (_, mut stream, mut escrow) = open(20, 50, 0);
    donate(&mut stream, &mut escrow, addr(3), addr(9), 500, 1_100).unwrap();
    let r = auto_settle_stream(&mut stream, &mut escrow, 600, 1_599);
    assert!(matches!(r, Err(StreamError::TimeoutNotReached)));
    assert!(stream.is_active);
    assert_eq!(escrow.balance, 500);
}

#[test]
fn auto_settle_at_timeout_pays_creator_everything() {
    let (_, mut stream, mut escrow) = open(20, 50, 0);
    donate(&mut stream, &mut escrow, addr(3), addr(9), 500, 1_100).unwrap();
    let settled = auto_settle_stream(&mut stream, &mut escrow, 600, 1_600).unwrap();
    assert_eq!(settled.total_donations, 500);
    assert_eq!(settled.end_time, 1_600);
    assert!(settled.creator == addr(2));
    assert_eq!(escrow.balance, 0);
    assert!(!stream.is_active);
    let again = auto_settle_stream(&mut stream, &mut escrow, 600, 1_700);
    assert!(matches!(again, Err(StreamError::StreamInactive)));
}

#[test]
fn auto_settle_timeout_overflow_fails() {
    let (_, mut stream, mut escrow) = open(20, 50, 0);
    let r = auto_settle_stream(&mut stream, &mut escrow, i64::MAX, i64::MAX);
    assert!(matches!(r, Err(StreamError::MathOverflow)));
}

#[test]
fn settlement_with_foreign_escrow_fails() {
    let (platform, mut stream, _) = open(20, 50, 0);
    let mut other = EscrowAccount { address: addr(8), authority: addr(3), balance: 0 };
    let r = settle(&platform, &mut stream, &mut other, &vec![]);
    assert!(matches!(r, Err(StreamError::InvalidEscrowAccount)));
}

#[test]
fn settlement_with_short_escrow_fails() {
    let (platform, mut stream, mut escrow) = open(100, 50, 0);
    donate(&mut stream, &mut escrow, addr(3), addr(9), 40, 1_100).unwrap();
    escrow.balance = 10;
    let r = settle(&platform, &mut stream, &mut escrow, &vec![]);
    assert!(matches!(r, Err(StreamError::InsufficientEscrowFunds)));
    assert!(stream.is_active);
}
