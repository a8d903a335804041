use escrow_engine::escrow::{Escrow, EscrowConfig, EscrowError, EscrowStatus, Payout};
use escrow_engine::policy::{is_expired, platform_fee, split, ESCROW_TIMEOUT_SECONDS};

const SENDER: [u8; 32] = [1u8; 32];
const RECIPIENT: [u8; 32] = [2u8; 32];
const PLATFORM: [u8; 32] = [3u8; 32];
const STRANGER: [u8; 32] = [9u8; 32];
const CREATED_AT: i64 = 1_700_000_000;

fn pending(amount: u64, recipient: Option<[u8; 32]>, config: EscrowConfig) -> Escrow {
    Escrow::new_pending(SENDER, recipient, PLATFORM, b"msg-42".to_vec(), amount, CREATED_AT, config, 254)
        .unwrap()
}

#[test]
fn release_pays_fee_and_net() {
    let mut e = pending(1_000_000_000, Some(RECIPIENT), EscrowConfig::standard());
    let p = e.release_escrow(&RECIPIENT, &PLATFORM, CREATED_AT + 10).unwrap();
    assert_eq!(p, Payout { to_platform: 20_000_000, to_recipient: 980_000_000 });
    assert_eq!(e.status, EscrowStatus::Released);
}

#[test]
fn refund_by_stranger_waits_for_timeout() {
    let mut e = pending(5_000, Some(RECIPIENT), EscrowConfig::standard());
    let deadline = CREATED_AT + 30 * 86400;
    assert_eq!(e.expires_at, deadline);
    assert_eq!(e.refund_escrow(&STRANGER, deadline - 1), Err(EscrowError::EscrowTimeoutNotReached));
    assert_eq!(e.status, EscrowStatus::Pending);
    assert_eq!(e.refund_escrow(&STRANGER, deadline), Ok(5_000));
    assert_eq!(e.status, EscrowStatus::Refunded);
}

#[test]
fn sender_may_refund_before_timeout() {
    let mut e = pending(5_000, Some(RECIPIENT), EscrowConfig::standard());
    assert_eq!(e.refund_escrow(&SENDER, CREATED_AT + 1), Ok(5_000));
    assert_eq!(e.status, EscrowStatus::Refunded);
}

#[test]
fn second_release_fails_not_pending() {
    let mut e = pending(1_000_000_000, Some(RECIPIENT), EscrowConfig::standard());
    let mut moved: u64 = 0;
    if let Ok(p) = e.release_escrow(&RECIPIENT, &PLATFORM, CREATED_AT + 5) {
        moved += p.to_platform + p.to_recipient;
    }
    let second = e.release_escrow(&RECIPIENT, &PLATFORM, CREATED_AT + 6);
    if let Ok(p) = second {
        moved += p.to_platform + p.to_recipient;
    }
    assert_eq!(second, Err(EscrowError::EscrowNotPending));
    assert_eq!(moved, 1_000_000_000);
    assert_eq!(e.status, EscrowStatus::Released);
}

#[test]
fn terminal_escrow_rejects_every_resolution() {
    let mut e = pending(700, Some(RECIPIENT), EscrowConfig::standard());
    assert_eq!(e.withhold(&SENDER), Ok(700));
    assert_eq!(e.status, EscrowStatus::Withheld);
    let late = CREATED_AT + ESCROW_TIMEOUT_SECONDS + 1;
    assert_eq!(e.release_escrow(&RECIPIENT, &PLATFORM, CREATED_AT), Err(EscrowError::EscrowNotPending));
    assert_eq!(e.refund_escrow(&SENDER, late), Err(EscrowError::EscrowNotPending));
    assert_eq!(e.withhold(&SENDER), Err(EscrowError::EscrowNotPending));
    assert_eq!(
        e.register_and_claim(&RECIPIENT, &SENDER, b"msg-42", 10_000, 100),
        Err(EscrowError::EscrowNotPending)
    );
    assert_eq!(e.status, EscrowStatus::Withheld);
}

#[test]
fn release_by_other_than_recipient_is_refused() {
    let mut e = pending(1_000, Some(RECIPIENT), EscrowConfig::standard());
    assert_eq!(e.release_escrow(&STRANGER, &PLATFORM, CREATED_AT), Err(EscrowError::InvalidRecipient));
    assert_eq!(e.release_escrow(&SENDER, &PLATFORM, CREATED_AT), Err(EscrowError::InvalidRecipient));
    assert_eq!(e.release_escrow(&RECIPIENT, &STRANGER, CREATED_AT), Err(EscrowError::InvalidPlatform));
    assert_eq!(e.status, EscrowStatus::Pending);
}

#[test]
fn release_needs_a_bound_recipient() {
    let mut e = pending(1_000, None, EscrowConfig::claim_on_reply());
    assert_eq!(e.release_escrow(&RECIPIENT, &PLATFORM, CREATED_AT), Err(EscrowError::InvalidRecipient));
}

#[test]
fn release_after_deadline_is_expired() {
    let mut e = pending(1_000, Some(RECIPIENT), EscrowConfig::standard());
    let at = e.expires_at;
    assert_eq!(e.release_escrow(&RECIPIENT, &PLATFORM, at), Err(EscrowError::EscrowExpired));
    assert_eq!(e.release_escrow(&RECIPIENT, &PLATFORM, at - 1).map(|p| p.to_recipient), Ok(980));
}

#[test]
fn expiry_boundary() {
    assert!(!is_expired(1_000, 999));
    assert!(is_expired(1_000, 1_000));
    assert!(is_expired(1_000, 1_001));
    assert!(!is_expired(i64::MAX, i64::MAX - 1));
    let e = pending(10, Some(RECIPIENT), EscrowConfig::standard());
    assert!(!e.is_expired(e.expires_at - 1));
    assert!(e.is_expired(e.expires_at));
}

#[test]
fn fee_split_conserves_amount() {
    for amount in [1u64, 49, 50, 99, 10_000, 1_000_000_000, u64::MAX - 1, u64::MAX] {
        let (fee, net) = split(amount, 200);
        assert_eq!(fee as u128, amount as u128 * 200 / 10_000);
        assert_eq!(fee as u128 + net as u128, amount as u128);
    }
    assert_eq!(platform_fee(u64::MAX, 200), 368_934_881_474_191_032);
    assert_eq!(platform_fee(u64::MAX, 10_000), u64::MAX);
    assert_eq!(platform_fee(49, 200), 0);
    assert_eq!(split(1_000, 0), (0, 1_000));
}

#[test]
fn escrow_fee_helpers() {
    let e = pending(u64::MAX, Some(RECIPIENT), EscrowConfig::standard());
    assert_eq!(e.calculate_platform_fee(), 368_934_881_474_191_032);
    assert_eq!(e.calculate_recipient_amount(), u64::MAX - 368_934_881_474_191_032);
}

#[test]
fn release_of_largest_amount_conserves() {
    let mut e = pending(u64::MAX, Some(RECIPIENT), EscrowConfig::standard());
    let p = e.release_escrow(&RECIPIENT, &PLATFORM, CREATED_AT).unwrap();
    assert_eq!(p.to_platform as u128 + p.to_recipient as u128, u64::MAX as u128);
}

#[test]
fn creation_rejects_bad_input() {
    let c = EscrowConfig::standard();
    assert_eq!(
        Escrow::new_pending(SENDER, None, PLATFORM, b"x".to_vec(), 0, CREATED_AT, c, 1).err(),
        Some(EscrowError::InvalidAmount)
    );
    assert_eq!(
        Escrow::new_pending(SENDER, None, PLATFORM, vec![7u8; 257], 5, CREATED_AT, c, 1).err(),
        Some(EscrowError::InvalidCorrelationId)
    );
    let e = Escrow::new_pending(SENDER, None, PLATFORM, vec![7u8; 256], 5, CREATED_AT, c, 1).unwrap();
    assert_eq!(e.status, EscrowStatus::Pending);
    assert_eq!(e.created_at, CREATED_AT);
    assert_eq!(e.expires_at, CREATED_AT + 2_592_000);
    assert_eq!(e.fee_bps, 200);
    assert_eq!(e.bump, 1);
}

#[test]
fn withhold_is_for_the_sender_only() {
    let mut e = pending(300, Some(RECIPIENT), EscrowConfig::standard());
    assert_eq!(e.withhold(&RECIPIENT), Err(EscrowError::InvalidSender));
    assert_eq!(e.status, EscrowStatus::Pending);
    assert_eq!(e.withhold(&SENDER), Ok(300));
}

#[test]
fn claim_binds_recipient_and_pays_above_reserve() {
    let mut e = pending(1_000_000, None, EscrowConfig::claim_on_reply());
    assert_eq!(e.expires_at, CREATED_AT + 15 * 86400);
    let r = e.register_and_claim(&RECIPIENT, &SENDER, b"msg-42", 1_000_000 + 1_500_000, 1_500_000);
    assert_eq!(r, Ok(1_000_000));
    assert_eq!(e.recipient, Some(RECIPIENT));
    assert_eq!(e.status, EscrowStatus::Completed);
}

#[test]
fn claim_rejects_mismatches() {
    let mut e = pending(1_000, None, EscrowConfig::claim_on_reply());
    assert_eq!(e.register_and_claim(&RECIPIENT, &SENDER, b"msg-43", 5_000, 100), Err(EscrowError::ThreadIdMismatch));
    assert_eq!(e.register_and_claim(&RECIPIENT, &STRANGER, b"msg-42", 5_000, 100), Err(EscrowError::InvalidSender));
    assert_eq!(e.register_and_claim(&RECIPIENT, &SENDER, b"msg-42", 99, 100), Err(EscrowError::InsufficientFunds));
    assert_eq!(e.status, EscrowStatus::Pending);
    assert_eq!(e.recipient, None);
    let mut bound = pending(1_000, Some(RECIPIENT), EscrowConfig::claim_on_reply());
    assert_eq!(bound.register_and_claim(&STRANGER, &SENDER, b"msg-42", 5_000, 100), Err(EscrowError::InvalidRecipient));
    assert_eq!(bound.register_and_claim(&RECIPIENT, &SENDER, b"msg-42", 100, 100), Ok(0));
}
