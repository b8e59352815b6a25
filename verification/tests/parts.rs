use rps::choice::Choice::{Hidden, Paper, Rock, Scissors};
use rps::choice::{resolve, Choice, InvalidChoice, Outcome};
use rps::commitment::{commitment_for, matches_commitment, preimage, verify, Address, Bytes32};
use rps::error::GameError;
use rps::game::{payouts, Stage};
use rps::ledger::Ledger;
use rps::word::Word;

fn num(x: u64) -> Word {
    Word::from_u64(x)
}

fn id(x: u8) -> Address {
    Address { bytes: [x; 20] }
}

const TOP: Word = Word { limbs: [u64::MAX; 4] };

#[test]
fn word_from_and_to_u64() {
    assert_eq!(num(7).limbs, [7, 0, 0, 0]);
    assert_eq!(num(7).to_u64(), Some(7));
    assert_eq!(Word { limbs: [7, 1, 0, 0] }.to_u64(), None);
    assert!(Word::zero().is_zero());
    assert!(!Word { limbs: [0, 0, 0, 1] }.is_zero());
}

#[test]
fn word_checked_add_carries_and_overflows() {
    assert_eq!(num(1).checked_add(&num(2)), Some(num(3)));
    assert_eq!(num(u64::MAX).checked_add(&num(1)), Some(Word { limbs: [0, 1, 0, 0] }));
    assert_eq!(TOP.checked_add(&num(0)), Some(TOP));
    assert_eq!(TOP.checked_add(&num(1)), None);
}

#[test]
fn word_checked_sub_borrows_and_underflows() {
    assert_eq!(num(5).checked_sub(&num(2)), Some(num(3)));
    assert_eq!(Word { limbs: [0, 1, 0, 0] }.checked_sub(&num(1)), Some(num(u64::MAX)));
    assert_eq!(num(2).checked_sub(&num(2)), Some(num(0)));
    assert_eq!(num(2).checked_sub(&num(3)), None);
}

#[test]
fn word_saturating_add_stops_at_the_top() {
    assert_eq!(num(40).saturating_add(&num(5)), num(45));
    assert_eq!(TOP.saturating_add(&num(5)), TOP);
}

#[test]
fn word_less_than_orders_by_value() {
    assert!(num(2).less_than(&num(3)));
    assert!(!num(3).less_than(&num(3)));
    assert!(!num(4).less_than(&num(3)));
    assert!(Word { limbs: [9, 0, 0, 0] }.less_than(&Word { limbs: [0, 0, 0, 1] }));
}

#[test]
fn choice_numbers() {
    assert_eq!(Choice::from_u8(0), Ok(Choice::Hidden));
    assert_eq!(Choice::from_u8(1), Ok(Choice::Rock));
    assert_eq!(Choice::from_u8(2), Ok(Choice::Paper));
    assert_eq!(Choice::from_u8(3), Ok(Choice::Scissors));
    assert_eq!(Choice::from_u8(4), Err(InvalidChoice));
    assert_eq!(Choice::from_u8(255), Err(InvalidChoice));
    assert_eq!(Choice::Scissors.to_u8(), 3);
    assert_eq!(Choice::Hidden.to_u8(), 0);
    assert_eq!(u8::from(Choice::Paper), 2);
    assert!(Choice::Paper.played());
    assert!(!Choice::Hidden.played());
}

#[test]
fn stage_numbers() {
    assert_eq!(Stage::from_u8(0), Some(Stage::FirstCommit));
    assert_eq!(Stage::from_u8(4), Some(Stage::Distribute));
    assert_eq!(Stage::from_u8(5), None);
    assert_eq!(Stage::SecondReveal.to_u8(), 3);
    assert_eq!(Stage::FirstCommit.seats(), 0);
    assert_eq!(Stage::SecondCommit.seats(), 1);
    assert_eq!(Stage::FirstReveal.seats(), 2);
    assert_eq!(Stage::SecondReveal.seats(), 2);
    assert_eq!(Stage::Distribute.seats(), 2);
}

#[test]
fn resolve_follows_the_cycle() {
    assert_eq!(resolve(Rock, Scissors), Outcome::FirstWins);
    assert_eq!(resolve(Scissors, Paper), Outcome::FirstWins);
    assert_eq!(resolve(Paper, Rock), Outcome::FirstWins);
    assert_eq!(resolve(Scissors, Rock), Outcome::SecondWins);
    assert_eq!(resolve(Paper, Scissors), Outcome::SecondWins);
    assert_eq!(resolve(Rock, Paper), Outcome::SecondWins);
    assert_eq!(resolve(Rock, Rock), Outcome::Draw);
    assert_eq!(resolve(Paper, Paper), Outcome::Draw);
    assert_eq!(resolve(Scissors, Scissors), Outcome::Draw);
    assert_eq!(resolve(Rock, Hidden), Outcome::FirstWins);
    assert_eq!(resolve(Hidden, Scissors), Outcome::SecondWins);
    assert_eq!(resolve(Hidden, Hidden), Outcome::Invalid);
}

#[test]
fn payouts_table() {
    let p = payouts(&num(100), &num(10), Rock, Scissors).unwrap();
    assert_eq!((p.first_payout, p.second_payout), (num(210), num(10)));
    assert_eq!((p.first_debit, p.second_debit), (num(110), num(110)));
    let p = payouts(&num(100), &num(10), Rock, Paper).unwrap();
    assert_eq!((p.first_payout, p.second_payout), (num(10), num(210)));
    let p = payouts(&num(100), &num(10), Paper, Paper).unwrap();
    assert_eq!((p.first_payout, p.second_payout), (num(110), num(110)));
    let p = payouts(&num(100), &num(10), Paper, Hidden).unwrap();
    assert_eq!((p.first_payout, p.second_payout), (num(210), num(0)));
    assert_eq!((p.first_debit, p.second_debit), (num(100), num(110)));
    let p = payouts(&num(100), &num(10), Hidden, Rock).unwrap();
    assert_eq!((p.first_payout, p.second_payout), (num(0), num(210)));
    assert_eq!((p.first_debit, p.second_debit), (num(110), num(100)));
    let p = payouts(&num(100), &num(10), Hidden, Hidden).unwrap();
    assert_eq!((p.first_payout, p.second_payout), (num(10), num(10)));
    assert_eq!((p.first_debit, p.second_debit), (num(10), num(10)));
    assert_eq!(payouts(&TOP, &num(0), Rock, Rock), None);
}

#[test]
fn preimage_layout() {
    let bytes = preimage(Choice::Paper, &Bytes32 { bytes: [7; 32] }, &id(0xA1));
    assert_eq!(bytes.len(), 53);
    assert_eq!(bytes[0], 2);
    assert_eq!(&bytes[1..33], &[7u8; 32][..]);
    assert_eq!(&bytes[33..], &[0xA1u8; 20][..]);
}

#[test]
fn commitment_is_keccak256_of_the_preimage() {
    let blinding = Bytes32 { bytes: [7; 32] };
    let c = commitment_for(Choice::Rock, &blinding, &id(0xA1));
    assert_eq!(
        c.bytes,
        [
            83, 141, 41, 94, 137, 232, 151, 212, 158, 201, 183, 78, 122, 100, 127, 179, 178, 237,
            220, 149, 87, 78, 216, 188, 246, 137, 93, 255, 230, 102, 183, 169
        ]
    );
    let direct = alloy_primitives::keccak256(preimage(Choice::Rock, &blinding, &id(0xA1)));
    assert_eq!(c.bytes, direct.0);
}

#[test]
fn verify_binds_choice_blinding_and_identity() {
    let blinding = Bytes32 { bytes: [7; 32] };
    let c = commitment_for(Choice::Rock, &blinding, &id(0xA1));
    assert!(verify(&c, Choice::Rock, &blinding, &id(0xA1)));
    assert!(!verify(&c, Choice::Paper, &blinding, &id(0xA1)));
    assert!(!verify(&c, Choice::Rock, &Bytes32 { bytes: [8; 32] }, &id(0xA1)));
    assert!(!verify(&c, Choice::Rock, &blinding, &id(0xA2)));
    assert!(matches_commitment(&c, &c));
    assert!(!matches_commitment(&c, &blinding));
}

#[test]
fn identities_compare_by_bytes() {
    let mut other = id(3);
    assert!(id(3).same(&other));
    other.bytes[19] = 4;
    assert!(!id(3).same(&other));
}

#[test]
fn ledger_credits_and_debits() {
    let mut ledger = Ledger::new();
    assert_eq!(ledger.balance(&id(1)), num(0));
    assert_eq!(ledger.deposit(&id(1), &num(30)), Ok(()));
    assert_eq!(ledger.deposit(&id(2), &num(5)), Ok(()));
    assert_eq!(ledger.deposit(&id(1), &num(12)), Ok(()));
    assert_eq!(ledger.balance(&id(1)), num(42));
    assert_eq!(ledger.balance(&id(2)), num(5));
    assert_eq!(ledger.debit(&id(1), &num(43)), Err(GameError::InsufficientFunds));
    assert_eq!(ledger.balance(&id(1)), num(42));
    assert_eq!(ledger.debit(&id(1), &num(40)), Ok(()));
    assert_eq!(ledger.balance(&id(1)), num(2));
    assert_eq!(ledger.debit(&id(3), &num(1)), Err(GameError::InsufficientFunds));
    assert_eq!(ledger.debit(&id(3), &num(0)), Ok(()));
    assert_eq!(ledger.balance(&id(2)), num(5));
}

#[test]
fn ledger_refuses_a_credit_beyond_256_bits() {
    let mut ledger = Ledger::new();
    assert_eq!(ledger.deposit(&id(1), &TOP), Ok(()));
    assert_eq!(ledger.deposit(&id(1), &num(1)), Err(GameError::TransferFailed));
    assert_eq!(ledger.balance(&id(1)), TOP);
}

#[test]
fn ledger_payout_keeps_the_balance_on_a_rejected_transfer() {
    let mut ledger = Ledger::new();
    ledger.deposit(&id(1), &num(50)).unwrap();
    assert_eq!(ledger.payout(&id(1), &num(20), false), Err(GameError::TransferFailed));
    assert_eq!(ledger.balance(&id(1)), num(50));
    assert_eq!(ledger.payout(&id(1), &num(51), true), Err(GameError::InsufficientFunds));
    assert_eq!(ledger.balance(&id(1)), num(50));
    assert_eq!(ledger.payout(&id(1), &num(20), true), Ok(()));
    assert_eq!(ledger.balance(&id(1)), num(30));
}
