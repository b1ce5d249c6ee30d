use swiv_privacy::commitment::{bytes32_eq, commitment_hash};
use swiv_privacy::errors::CustomError;
use swiv_privacy::shared::reveal_bet;
use swiv_privacy::state::{BetStatus, MarketType, UserBet};

fn active_bet(commitment: [u8; 32]) -> UserBet {
    UserBet {
        owner: 7,
        market_identifier: 1,
        market_type: MarketType::Infinite,
        deposit: 1000,
        end_timestamp: 10_000,
        payout_multiplier: 20_000,
        creation_ts: 100,
        update_count: 0,
        calculated_weight: 0,
        is_weight_added: false,
        entry_price: 100,
        volatility_factor_at_entry: 10_000,
        referrer: None,
        commitment,
        is_revealed: false,
        prediction_low: 0,
        prediction_high: 0,
        prediction_target: 0,
        status: BetStatus::Active,
    }
}

#[test]
fn commitment_hash_matches_the_reference_hasher() {
    let salt = [9u8; 32];
    let ours = commitment_hash(100, 200, 150, &salt);
    let mut message: Vec<u8> = Vec::new();
    message.extend_from_slice(&100u64.to_le_bytes());
    message.extend_from_slice(&200u64.to_le_bytes());
    message.extend_from_slice(&150u64.to_le_bytes());
    message.extend_from_slice(&salt);
    let reference = solana_program::keccak::hash(&message).to_bytes();
    assert_eq!(ours, reference);
}

#[test]
fn commitment_hash_depends_on_every_input() {
    let salt = [9u8; 32];
    let base = commitment_hash(100, 200, 150, &salt);
    assert_ne!(base, commitment_hash(101, 200, 150, &salt));
    assert_ne!(base, commitment_hash(100, 201, 150, &salt));
    assert_ne!(base, commitment_hash(100, 200, 151, &salt));
    let mut other_salt = salt;
    other_salt[31] ^= 1;
    assert_ne!(base, commitment_hash(100, 200, 150, &other_salt));
}

#[test]
fn bytes32_eq_compares_bit_exactly() {
    let a = [3u8; 32];
    let mut b = a;
    assert!(bytes32_eq(&a, &b));
    b[0] ^= 0x80;
    assert!(!bytes32_eq(&a, &b));
}

#[test]
fn reveal_succeeds_exactly_on_the_committed_plaintext() {
    let salt = [5u8; 32];
    let mut bet = active_bet(commitment_hash(100, 200, 150, &salt));
    let r = reveal_bet(&mut bet, 7, true, 150, 100, 200, 150, &salt);
    assert_eq!(r, Ok(()));
    assert!(bet.is_revealed);
    assert_eq!(bet.prediction_low, 100);
    assert_eq!(bet.prediction_high, 200);
    assert_eq!(bet.prediction_target, 150);
    assert_eq!(bet.status, BetStatus::Active);
}

#[test]
fn reveal_rejects_any_flipped_input() {
    let salt = [5u8; 32];
    let commitment = commitment_hash(100, 200, 150, &salt);
    let mut flipped_salt = salt;
    flipped_salt[0] ^= 1;
    let cases: [(u64, u64, u64, [u8; 32]); 4] = [
        (101, 200, 150, salt),
        (100, 201, 150, salt),
        (100, 200, 151, salt),
        (100, 200, 150, flipped_salt),
    ];
    for (low, high, target, s) in cases {
        let mut bet = active_bet(commitment);
        let r = reveal_bet(&mut bet, 7, true, 150, low, high, target, &s);
        assert_eq!(r, Err(CustomError::InvalidCommitment));
        assert!(!bet.is_revealed);
        assert_eq!(bet.prediction_low, 0);
    }
}

#[test]
fn reveal_requires_the_owner_and_a_permission_record() {
    let salt = [5u8; 32];
    let commitment = commitment_hash(100, 200, 150, &salt);
    let mut bet = active_bet(commitment);
    assert_eq!(
        reveal_bet(&mut bet, 8, true, 150, 100, 200, 150, &salt),
        Err(CustomError::Unauthorized)
    );
    assert_eq!(
        reveal_bet(&mut bet, 7, false, 150, 100, 200, 150, &salt),
        Err(CustomError::Unauthorized)
    );
}

#[test]
fn reveal_window_expires_after_five_minutes() {
    let salt = [5u8; 32];
    let commitment = commitment_hash(100, 200, 150, &salt);
    let mut bet = active_bet(commitment);
    // Placed at 100; 401 is past the 300-second window.
    assert_eq!(
        reveal_bet(&mut bet, 7, true, 401, 100, 200, 150, &salt),
        Err(CustomError::RevealWindowExpired)
    );
    // 400 is the last admissible instant.
    assert_eq!(reveal_bet(&mut bet, 7, true, 400, 100, 200, 150, &salt), Ok(()));
}

#[test]
fn reveal_twice_is_rejected() {
    let salt = [5u8; 32];
    let commitment = commitment_hash(100, 200, 150, &salt);
    let mut bet = active_bet(commitment);
    assert_eq!(reveal_bet(&mut bet, 7, true, 150, 100, 200, 150, &salt), Ok(()));
    assert_eq!(
        reveal_bet(&mut bet, 7, true, 151, 100, 200, 150, &salt),
        Err(CustomError::AlreadyRevealed)
    );
}
