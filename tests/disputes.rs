use vibezlive::dispute::{open_dispute, resolve_dispute};
use vibezlive::lifecycle::{auto_settle_stream, initialize_platform, start_stream};
use vibezlive::types::{Address, Stream, StreamBumps, StreamError, ViewerData};

fn addr(b: u8) -> Address {
    Address::new([b; 32])
}

fn accept(_k: &Address, _m: &Vec<u8>, _s: &[u8; 64]) -> bool {
    true
}

fn reject(_k: &Address, _m: &Vec<u8>, _s: &[u8; 64]) -> bool {
    false
}

fn stream(active: bool) -> Stream {
    let mut platform = initialize_platform(addr(1), 0).unwrap();
    let (mut s, mut e, _) = start_stream(
        &mut platform,
        addr(2),
        addr(3),
        addr(4),
        "disputed".to_string(),
        10,
        10,
        0,
        StreamBumps { stream_bump: 1, escrow_bump: 2 },
        0,
    )
    .unwrap();
    if !active {
        auto_settle_stream(&mut s, &mut e, 0, 1).unwrap();
    }
    s
}

#[test]
fn dispute_on_active_stream_fails() {
    let s = stream(true);
    let r = open_dispute(&s, addr(3), addr(20), "late".to_string(), "log".to_string(), 5);
    assert!(matches!(r, Err(StreamError::StreamStillActive)));
}

#[test]
fn dispute_opens_on_settled_stream() {
    let s = stream(false);
    let (d, opened) = open_dispute(&s, addr(3), addr(20), "late".to_string(), "log".to_string(), 5).unwrap();
    assert!(d.stream == addr(3));
    assert!(d.claimant == addr(20));
    assert_eq!(d.reason, "late");
    assert_eq!(d.evidence, "log");
    assert!(!d.is_resolved);
    assert_eq!(d.timestamp, 5);
    assert_eq!(opened.stream_id, "disputed");
}

#[test]
fn only_operator_resolves_once() {
    let platform = initialize_platform(addr(1), 0).unwrap();
    let s = stream(false);
    let (mut d, _) = open_dispute(&s, addr(3), addr(20), "r".to_string(), "e".to_string(), 5).unwrap();
    let r = resolve_dispute(&platform, &s, &mut d, addr(30), addr(20), "no".to_string(), None, &[0u8; 64], &accept, 6);
    assert!(matches!(r, Err(StreamError::UnauthorizedAccess)));
    assert!(!d.is_resolved);
    let ok = resolve_dispute(&platform, &s, &mut d, addr(30), addr(1), "fixed".to_string(), None, &[0u8; 64], &accept, 7).unwrap();
    assert!(ok.dispute == addr(30));
    assert!(ok.resolver == addr(1));
    assert_eq!(ok.timestamp, 7);
    assert!(d.is_resolved);
    assert_eq!(d.resolution, "fixed");
    assert_eq!(d.resolved_at, 7);
    assert!(d.resolver == addr(1));
    let again = resolve_dispute(&platform, &s, &mut d, addr(30), addr(1), "x".to_string(), None, &[0u8; 64], &accept, 8);
    assert!(matches!(again, Err(StreamError::DisputeAlreadyResolved)));
    assert_eq!(d.resolution, "fixed");
}

#[test]
fn corrections_need_a_valid_signature() {
    let platform = initialize_platform(addr(1), 0).unwrap();
    let s = stream(false);
    let (mut d, _) = open_dispute(&s, addr(3), addr(20), "r".to_string(), "e".to_string(), 5).unwrap();
    let fix = vec![ViewerData { address: addr(40), watch_time: 3, watch_percentage: 90 }];
    let r = resolve_dispute(&platform, &s, &mut d, addr(30), addr(1), "x".to_string(), Some(fix.clone()), &[0u8; 64], &reject, 6);
    assert!(matches!(r, Err(StreamError::InvalidBackendSignature)));
    assert!(!d.is_resolved);
    let ok = resolve_dispute(&platform, &s, &mut d, addr(30), addr(1), "x".to_string(), Some(fix), &[0u8; 64], &accept, 6);
    assert!(ok.is_ok());
    assert!(d.is_resolved);
}

#[test]
fn dispute_text_must_fit_the_record() {
    let s = stream(false);
    assert!(open_dispute(&s, addr(3), addr(20), "r".repeat(100), "e".repeat(200), 5).is_ok());
    let r = open_dispute(&s, addr(3), addr(20), "r".repeat(101), "e".to_string(), 5);
    assert!(matches!(r, Err(StreamError::DisputeReasonTooLong)));
    let r = open_dispute(&s, addr(3), addr(20), "r".to_string(), "e".repeat(201), 5);
    assert!(matches!(r, Err(StreamError::EvidenceTooLong)));
    let r = open_dispute(&s, addr(3), addr(20), "é".repeat(51), "e".to_string(), 5);
    assert!(matches!(r, Err(StreamError::DisputeReasonTooLong)));
    let a = stream(true);
    let r = open_dispute(&a, addr(3), addr(20), "r".repeat(101), "e".to_string(), 5);
    assert!(matches!(r, Err(StreamError::StreamStillActive)));
}

#[test]
fn resolution_must_fit_the_record() {
    let platform = initialize_platform(addr(1), 0).unwrap();
    let s = stream(false);
    let (mut d, _) = open_dispute(&s, addr(3), addr(20), "r".to_string(), "e".to_string(), 5).unwrap();
    let r = resolve_dispute(&platform, &s, &mut d, addr(30), addr(1), "x".repeat(101), None, &[0u8; 64], &accept, 6);
    assert!(matches!(r, Err(StreamError::ResolutionTooLong)));
    assert!(!d.is_resolved);
    let ok = resolve_dispute(&platform, &s, &mut d, addr(30), addr(1), "x".repeat(100), None, &[0u8; 64], &accept, 6);
    assert!(ok.is_ok());
    assert_eq!(d.resolution.len(), 100);
}
