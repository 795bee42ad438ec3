//! End-to-end exercises of the escrow ledger: creation, both resolutions,
//! the advisory predicates, and every error.

use htlc_escrow::Address;
use htlc_escrow::HTLCError;
use htlc_escrow::HTLCEscrow;
use htlc_escrow::Transfer;

const LEDGER: Address = Address { id: 900 };
const SENDER: Address = Address { id: 1 };
const RECEIVER: Address = Address { id: 2 };
const TOKEN: Address = Address { id: 3 };

fn hex_to_bytes(hex: &str) -> Vec<u8> {
    let digits: Vec<u8> = hex.as_bytes().to_vec();
    let mut out = Vec::new();
    let mut i = 0;
    while i < digits.len() {
        let pair = std::str::from_utf8(&digits[i..i + 2]).unwrap();
        out.push(u8::from_str_radix(pair, 16).unwrap());
        i += 2;
    }
    out
}

/// A toy balance book: (owner, token) -> amount, for watching the returned
/// transfers move value.
fn apply_transfer(balances: &mut Vec<(Address, Address, i128)>, t: &Transfer) {
    let mut from_found = false;
    let mut to_found = false;
    for entry in balances.iter_mut() {
        if entry.0 == t.from && entry.1 == t.token {
            entry.2 -= t.amount;
            from_found = true;
        }
        if entry.0 == t.to && entry.1 == t.token {
            entry.2 += t.amount;
            to_found = true;
        }
    }
    if !from_found {
        balances.push((t.from, t.token, -t.amount));
    }
    if !to_found {
        balances.push((t.to, t.token, t.amount));
    }
}

fn balance_of(balances: &Vec<(Address, Address, i128)>, owner: Address, token: Address) -> i128 {
    for entry in balances.iter() {
        if entry.0 == owner && entry.1 == token {
            return entry.2;
        }
    }
    0
}

fn standard_escrow(ledger: &mut HTLCEscrow, now: u64, timelock: u64) -> (Vec<u8>, Transfer) {
    let secret = b"my secret".to_vec();
    let commitment = HTLCEscrow::generate_secret_hash(&secret);
    ledger
        .create_escrow(
            now,
            SENDER,
            RECEIVER,
            100,
            commitment,
            timelock,
            TOKEN,
            b"order-1".to_vec(),
            1_000,
        )
        .unwrap()
}

#[test]
fn generate_secret_hash_matches_known_keccak_vectors() {
    let abc = HTLCEscrow::generate_secret_hash(&b"abc".to_vec());
    assert_eq!(
        abc,
        hex_to_bytes("4e03657aea45a94fc7d47ba826c8d667c0d1e6e33a64a036ec44f58fa12d6c45")
    );
    let empty = HTLCEscrow::generate_secret_hash(&Vec::new());
    assert_eq!(
        empty,
        hex_to_bytes("c5d2460186f7233c927e7db2dcc703c0e500b653ca82273b7bfad8045d85a470")
    );
    assert_eq!(abc.len(), 32);
    assert_ne!(abc, b"abc".to_vec());
}

#[test]
fn create_returns_digest_of_order_id_and_get_matches_all_fields() {
    let mut ledger = HTLCEscrow::new(LEDGER);
    let secret = b"opening word".to_vec();
    let commitment = HTLCEscrow::generate_secret_hash(&secret);
    let (id, transfer) = ledger
        .create_escrow(
            50,
            SENDER,
            RECEIVER,
            250,
            commitment.clone(),
            60,
            TOKEN,
            b"order-77".to_vec(),
            1_000,
        )
        .unwrap();
    assert_eq!(id, HTLCEscrow::generate_secret_hash(&b"order-77".to_vec()));
    assert_eq!(
        transfer,
        Transfer { from: SENDER, to: LEDGER, token: TOKEN, amount: 250 }
    );
    let record = ledger.get_escrow(&id).unwrap();
    assert_eq!(record.sender, SENDER);
    assert_eq!(record.receiver, RECEIVER);
    assert_eq!(record.amount, 250);
    assert_eq!(record.secret_hash, commitment);
    assert_eq!(record.timelock, 60);
    assert_eq!(record.token_address, TOKEN);
    assert_eq!(record.order_id, b"order-77".to_vec());
    assert!(!record.withdrawn);
    assert!(!record.cancelled);
    assert_eq!(record.created_at, 50);
}

#[test]
fn create_rejects_timelock_at_or_before_now() {
    let mut ledger = HTLCEscrow::new(LEDGER);
    let commitment = HTLCEscrow::generate_secret_hash(&b"s".to_vec());
    let at_now = ledger.create_escrow(
        100,
        SENDER,
        RECEIVER,
        10,
        commitment.clone(),
        100,
        TOKEN,
        b"o1".to_vec(),
        1_000,
    );
    assert_eq!(at_now.unwrap_err(), HTLCError::InvalidTimelock);
    let before_now = ledger.create_escrow(
        100,
        SENDER,
        RECEIVER,
        10,
        commitment.clone(),
        99,
        TOKEN,
        b"o2".to_vec(),
        1_000,
    );
    assert_eq!(before_now.unwrap_err(), HTLCError::InvalidTimelock);
    let future = ledger.create_escrow(
        100,
        SENDER,
        RECEIVER,
        10,
        commitment,
        101,
        TOKEN,
        b"o3".to_vec(),
        1_000,
    );
    assert!(future.is_ok());
}

#[test]
fn create_with_short_balance_leaves_no_record() {
    let mut ledger = HTLCEscrow::new(LEDGER);
    let commitment = HTLCEscrow::generate_secret_hash(&b"s".to_vec());
    let r = ledger.create_escrow(
        100,
        SENDER,
        RECEIVER,
        100,
        commitment,
        110,
        TOKEN,
        b"order-1".to_vec(),
        50,
    );
    assert_eq!(r.unwrap_err(), HTLCError::InsufficientBalance);
    let id = HTLCEscrow::generate_secret_hash(&b"order-1".to_vec());
    assert!(ledger.get_escrow(&id).is_none());
}

#[test]
fn invalid_timelock_takes_precedence_over_short_balance() {
    let mut ledger = HTLCEscrow::new(LEDGER);
    let commitment = HTLCEscrow::generate_secret_hash(&b"s".to_vec());
    let r = ledger.create_escrow(
        100,
        SENDER,
        RECEIVER,
        100,
        commitment,
        90,
        TOKEN,
        b"order-1".to_vec(),
        50,
    );
    assert_eq!(r.unwrap_err(), HTLCError::InvalidTimelock);
}

#[test]
fn withdraw_before_deadline_pays_receiver_and_bars_cancel() {
    let mut ledger = HTLCEscrow::new(LEDGER);
    let mut balances = vec![(SENDER, TOKEN, 1_000)];
    let (id, funding) = standard_escrow(&mut ledger, 100, 110);
    apply_transfer(&mut balances, &funding);
    assert_eq!(balance_of(&balances, LEDGER, TOKEN), 100);

    assert!(!ledger.can_cancel(105, &id));
    let payout = ledger.withdraw(&id, &b"my secret".to_vec(), RECEIVER).unwrap();
    assert_eq!(
        payout,
        Transfer { from: LEDGER, to: RECEIVER, token: TOKEN, amount: 100 }
    );
    apply_transfer(&mut balances, &payout);
    assert_eq!(balance_of(&balances, LEDGER, TOKEN), 0);
    assert_eq!(balance_of(&balances, RECEIVER, TOKEN), 100);

    let cancel = ledger.cancel(200, &id, SENDER);
    assert_eq!(cancel.unwrap_err(), HTLCError::AlreadyWithdrawn);
    let again = ledger.withdraw(&id, &b"my secret".to_vec(), RECEIVER);
    assert_eq!(again.unwrap_err(), HTLCError::AlreadyWithdrawn);
    assert!(ledger.get_escrow(&id).unwrap().withdrawn);
}

#[test]
fn cancel_after_deadline_refunds_sender_and_bars_withdraw() {
    let mut ledger = HTLCEscrow::new(LEDGER);
    let mut balances = vec![(SENDER, TOKEN, 1_000)];
    let (id, funding) = standard_escrow(&mut ledger, 100, 110);
    apply_transfer(&mut balances, &funding);
    assert_eq!(balance_of(&balances, SENDER, TOKEN), 900);

    let refund = ledger.cancel(111, &id, SENDER).unwrap();
    assert_eq!(
        refund,
        Transfer { from: LEDGER, to: SENDER, token: TOKEN, amount: 100 }
    );
    apply_transfer(&mut balances, &refund);
    assert_eq!(balance_of(&balances, SENDER, TOKEN), 1_000);
    assert_eq!(balance_of(&balances, LEDGER, TOKEN), 0);

    let withdraw = ledger.withdraw(&id, &b"my secret".to_vec(), RECEIVER);
    assert_eq!(withdraw.unwrap_err(), HTLCError::AlreadyCancelled);
    let again = ledger.cancel(300, &id, SENDER);
    assert_eq!(again.unwrap_err(), HTLCError::AlreadyCancelled);
    assert!(ledger.get_escrow(&id).unwrap().cancelled);
}

#[test]
fn withdraw_checks_secret_before_receiver() {
    let mut ledger = HTLCEscrow::new(LEDGER);
    let (id, _) = standard_escrow(&mut ledger, 100, 110);
    let wrong_secret = ledger.withdraw(&id, &b"not it".to_vec(), RECEIVER);
    assert_eq!(wrong_secret.unwrap_err(), HTLCError::InvalidSecret);
    let both_wrong = ledger.withdraw(&id, &b"not it".to_vec(), SENDER);
    assert_eq!(both_wrong.unwrap_err(), HTLCError::InvalidSecret);
    let wrong_receiver = ledger.withdraw(&id, &b"my secret".to_vec(), SENDER);
    assert_eq!(wrong_receiver.unwrap_err(), HTLCError::UnauthorizedAccess);
    let right = ledger.withdraw(&id, &b"my secret".to_vec(), RECEIVER);
    assert!(right.is_ok());
}

#[test]
fn cancel_checks_deadline_before_sender() {
    let mut ledger = HTLCEscrow::new(LEDGER);
    let (id, _) = standard_escrow(&mut ledger, 100, 110);
    let early_wrong_sender = ledger.cancel(105, &id, RECEIVER);
    assert_eq!(early_wrong_sender.unwrap_err(), HTLCError::TimelockNotExpired);
    let early_right_sender = ledger.cancel(109, &id, SENDER);
    assert_eq!(early_right_sender.unwrap_err(), HTLCError::TimelockNotExpired);
    let late_wrong_sender = ledger.cancel(110, &id, RECEIVER);
    assert_eq!(late_wrong_sender.unwrap_err(), HTLCError::UnauthorizedAccess);
    let late_right_sender = ledger.cancel(110, &id, SENDER);
    assert!(late_right_sender.is_ok());
}

#[test]
fn resolving_an_absent_escrow_reports_not_found() {
    let mut ledger = HTLCEscrow::new(LEDGER);
    let id = HTLCEscrow::generate_secret_hash(&b"no such order".to_vec());
    let withdraw = ledger.withdraw(&id, &b"s".to_vec(), RECEIVER);
    assert_eq!(withdraw.unwrap_err(), HTLCError::EscrowNotFound);
    let cancel = ledger.cancel(1_000, &id, SENDER);
    assert_eq!(cancel.unwrap_err(), HTLCError::EscrowNotFound);
    assert!(ledger.get_escrow(&id).is_none());
}

#[test]
fn verify_secret_is_false_on_absence_and_ignores_resolution() {
    let mut ledger = HTLCEscrow::new(LEDGER);
    let absent = HTLCEscrow::generate_secret_hash(&b"nothing here".to_vec());
    assert!(!ledger.verify_secret(&absent, &b"my secret".to_vec()));

    let (id, _) = standard_escrow(&mut ledger, 100, 110);
    assert!(ledger.verify_secret(&id, &b"my secret".to_vec()));
    assert!(!ledger.verify_secret(&id, &b"another".to_vec()));

    ledger.withdraw(&id, &b"my secret".to_vec(), RECEIVER).unwrap();
    assert!(ledger.verify_secret(&id, &b"my secret".to_vec()));
}

#[test]
fn can_cancel_turns_true_at_the_deadline_and_false_on_resolution() {
    let mut ledger = HTLCEscrow::new(LEDGER);
    let absent = HTLCEscrow::generate_secret_hash(&b"nothing here".to_vec());
    assert!(!ledger.can_cancel(1_000, &absent));

    let (id, _) = standard_escrow(&mut ledger, 100, 110);
    assert!(!ledger.can_cancel(109, &id));
    assert!(ledger.can_cancel(110, &id));
    assert!(ledger.can_cancel(500, &id));

    ledger.cancel(110, &id, SENDER).unwrap();
    assert!(!ledger.can_cancel(110, &id));
}

#[test]
fn repeated_order_id_overwrites_the_open_escrow() {
    let mut ledger = HTLCEscrow::new(LEDGER);
    let commitment = HTLCEscrow::generate_secret_hash(&b"s".to_vec());
    let (id1, _) = ledger
        .create_escrow(
            100,
            SENDER,
            RECEIVER,
            100,
            commitment.clone(),
            110,
            TOKEN,
            b"order-1".to_vec(),
            1_000,
        )
        .unwrap();
    let (id2, _) = ledger
        .create_escrow(
            101,
            SENDER,
            RECEIVER,
            777,
            commitment,
            120,
            TOKEN,
            b"order-1".to_vec(),
            1_000,
        )
        .unwrap();
    assert_eq!(id1, id2);
    let record = ledger.get_escrow(&id1).unwrap();
    assert_eq!(record.amount, 777);
    assert_eq!(record.timelock, 120);
}

#[test]
fn enumeration_by_party_is_a_stub() {
    let mut ledger = HTLCEscrow::new(LEDGER);
    let (_, _) = standard_escrow(&mut ledger, 100, 110);
    assert!(ledger.get_escrows_for_address(SENDER).is_empty());
    assert!(ledger.get_escrows_for_address(RECEIVER).is_empty());
}
