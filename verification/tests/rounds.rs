use rps::choice::Choice;
use rps::commitment::{commitment_for, Address, Bytes32};
use rps::error::GameError;
use rps::game::Stage;
use rps::machine::RPS;
use rps::word::Word;

fn w(n: u64) -> Word {
    Word::from_u64(n)
}

fn addr(n: u8) -> Address {
    Address { bytes: [n; 20] }
}

fn salt(n: u8) -> Bytes32 {
    Bytes32 { bytes: [n; 32] }
}

fn game() -> RPS {
    RPS::new(w(100), w(10), w(5))
}

/// A game in which A (rock) and B (`b_choice`) have both committed 110.
fn committed(b_choice: Choice) -> RPS {
    let mut g = game();
    let ca = commitment_for(Choice::Rock, &salt(1), &addr(0xA1));
    let cb = commitment_for(b_choice, &salt(2), &addr(0xB2));
    assert_eq!(g.commit(&addr(0xA1), &w(110), &ca), Ok(w(0)));
    assert_eq!(g.commit(&addr(0xB2), &w(110), &cb), Ok(w(0)));
    g
}

#[test]
fn new_game_awaits_first_commit() {
    let g = game();
    assert_eq!(g.stage(), Stage::FirstCommit);
    assert!(!g.is_locked());
    assert_eq!(g.bet(), w(100));
    assert_eq!(g.deposit(), w(10));
    assert_eq!(g.reveal_window(), w(5));
    assert_eq!(g.reveal_deadline(), w(0));
    assert_eq!(g.slot(0), None);
    assert_eq!(g.balance(&addr(1)), w(0));
}

#[test]
fn two_commits_hold_two_stakes() {
    let g = committed(Choice::Scissors);
    assert_eq!(g.stage(), Stage::FirstReveal);
    assert_eq!(g.balance(&addr(0xA1)), w(110));
    assert_eq!(g.balance(&addr(0xB2)), w(110));
    assert_eq!(g.balance(&addr(0xC3)), w(0));
    assert_eq!(g.slot(0).unwrap().player, addr(0xA1));
    assert_eq!(g.slot(1).unwrap().player, addr(0xB2));
    assert_eq!(g.slot(1).unwrap().revealed, Choice::Hidden);
    assert_eq!(g.slot(2), None);
}

#[test]
fn commit_refunds_the_excess() {
    let mut g = game();
    let ca = commitment_for(Choice::Rock, &salt(1), &addr(0xA1));
    assert_eq!(g.commit(&addr(0xA1), &w(150), &ca), Ok(w(40)));
    assert_eq!(g.balance(&addr(0xA1)), w(110));
    assert_eq!(g.stage(), Stage::SecondCommit);
}

#[test]
fn commit_below_the_stake_is_refused() {
    let mut g = game();
    let ca = salt(0);
    assert_eq!(g.commit(&addr(0xA1), &w(109), &ca), Err(GameError::InsufficientFunds));
    assert_eq!(g.stage(), Stage::FirstCommit);
    assert_eq!(g.balance(&addr(0xA1)), w(0));
    assert_eq!(g.slot(0), None);
}

#[test]
fn commit_with_a_stake_beyond_256_bits_is_refused() {
    let max = Word { limbs: [u64::MAX; 4] };
    let mut g = RPS::new(max, w(1), w(5));
    assert_eq!(g.commit(&addr(0xA1), &max, &salt(0)), Err(GameError::InsufficientFunds));
    assert_eq!(g.stage(), Stage::FirstCommit);
}

#[test]
fn commit_into_a_full_account_is_refused() {
    let max = Word { limbs: [u64::MAX; 4] };
    let mut g = RPS::new(max, w(0), w(5));
    assert_eq!(g.commit(&addr(0xA1), &max, &salt(0)), Ok(w(0)));
    g.lock().unwrap();
    let mut snap = g.export_state().unwrap();
    snap.stage = 0;
    snap.slots.clear();
    snap.bet = w(1);
    assert_eq!(g.import_state(&snap), Ok(()));
    g.unlock().unwrap();
    assert_eq!(g.commit(&addr(0xA1), &w(1), &salt(0)), Err(GameError::TransferFailed));
    assert_eq!(g.balance(&addr(0xA1)), max);
    assert_eq!(g.stage(), Stage::FirstCommit);
}

#[test]
fn same_player_cannot_take_both_seats() {
    let mut g = game();
    assert_eq!(g.commit(&addr(0xA1), &w(110), &salt(0)), Ok(w(0)));
    assert_eq!(g.commit(&addr(0xA1), &w(110), &salt(0)), Err(GameError::DuplicatePlayer));
    assert_eq!(g.commit(&addr(0xA1), &w(150), &salt(0)), Err(GameError::DuplicatePlayer));
    assert_eq!(g.stage(), Stage::SecondCommit);
    assert_eq!(g.balance(&addr(0xA1)), w(110));
    assert_eq!(g.slot(1), None);
}

#[test]
fn seated_player_with_too_little_value_lacks_funds() {
    let mut g = game();
    assert_eq!(g.commit(&addr(0xA1), &w(110), &salt(0)), Ok(w(0)));
    assert_eq!(g.commit(&addr(0xA1), &w(50), &salt(0)), Err(GameError::InsufficientFunds));
    assert_eq!(g.commit(&addr(0xA1), &w(109), &salt(0)), Err(GameError::InsufficientFunds));
    assert_eq!(g.commit(&addr(0xB2), &w(109), &salt(0)), Err(GameError::InsufficientFunds));
    assert_eq!(g.stage(), Stage::SecondCommit);
    assert_eq!(g.balance(&addr(0xA1)), w(110));
    assert_eq!(g.balance(&addr(0xB2)), w(0));
    assert_eq!(g.slot(1), None);
}

#[test]
fn third_commit_is_out_of_stage() {
    let mut g = committed(Choice::Paper);
    assert_eq!(g.commit(&addr(0xC3), &w(110), &salt(0)), Err(GameError::InvalidStage));
    assert_eq!(g.balance(&addr(0xC3)), w(0));
}

#[test]
fn locked_game_refuses_every_step() {
    let mut g = game();
    assert_eq!(g.lock(), Ok(()));
    assert_eq!(g.commit(&addr(0xA1), &w(110), &salt(0)), Err(GameError::Locked));
    assert_eq!(g.reveal_choice(&addr(0xA1), 1, &salt(1), &w(1)), Err(GameError::Locked));
    assert_eq!(g.force_forfeit(&w(1)), Err(GameError::Locked));
    assert_eq!(g.settlement(), Err(GameError::Locked));
    assert_eq!(g.distribute(true), Err(GameError::Locked));
    assert_eq!(g.stage(), Stage::FirstCommit);
}

#[test]
fn lock_and_unlock_are_idempotent() {
    let mut g = game();
    assert_eq!(g.lock(), Ok(()));
    assert!(g.is_locked());
    assert_eq!(g.lock(), Ok(()));
    assert!(g.is_locked());
    assert_eq!(g.unlock(), Ok(()));
    assert!(!g.is_locked());
    assert_eq!(g.unlock(), Ok(()));
    assert!(!g.is_locked());
    assert_eq!(g.stage(), Stage::FirstCommit);
}

#[test]
fn reveal_before_both_commits_is_out_of_stage() {
    let mut g = game();
    assert_eq!(g.reveal_choice(&addr(0xA1), 1, &salt(1), &w(1)), Err(GameError::InvalidStage));
}

#[test]
fn reveal_of_a_number_that_is_no_move_is_refused() {
    let mut g = committed(Choice::Scissors);
    assert_eq!(g.reveal_choice(&addr(0xA1), 0, &salt(1), &w(1)), Err(GameError::InvalidChoice));
    assert_eq!(g.reveal_choice(&addr(0xA1), 4, &salt(1), &w(1)), Err(GameError::InvalidChoice));
    assert_eq!(g.reveal_choice(&addr(0xA1), 255, &salt(1), &w(1)), Err(GameError::InvalidChoice));
    assert_eq!(g.stage(), Stage::FirstReveal);
}

#[test]
fn reveal_by_a_stranger_is_refused() {
    let mut g = committed(Choice::Scissors);
    assert_eq!(g.reveal_choice(&addr(0xC3), 1, &salt(1), &w(1)), Err(GameError::UnknownPlayer));
    assert_eq!(g.stage(), Stage::FirstReveal);
}

#[test]
fn reveal_that_does_not_match_is_refused() {
    let mut g = committed(Choice::Scissors);
    // wrong choice, wrong blinding factor, somebody else's reveal
    assert_eq!(g.reveal_choice(&addr(0xA1), 2, &salt(1), &w(1)), Err(GameError::InvalidCommitment));
    assert_eq!(g.reveal_choice(&addr(0xA1), 1, &salt(9), &w(1)), Err(GameError::InvalidCommitment));
    assert_eq!(g.reveal_choice(&addr(0xB2), 1, &salt(1), &w(1)), Err(GameError::InvalidCommitment));
    assert_eq!(g.slot(0).unwrap().revealed, Choice::Hidden);
    assert_eq!(g.slot(1).unwrap().revealed, Choice::Hidden);
    assert_eq!(g.stage(), Stage::FirstReveal);
    assert_eq!(g.reveal_deadline(), w(0));
}

#[test]
fn first_reveal_arms_the_deadline() {
    let mut g = committed(Choice::Scissors);
    assert_eq!(g.reveal_choice(&addr(0xB2), 3, &salt(2), &w(1000)), Ok(()));
    assert_eq!(g.stage(), Stage::SecondReveal);
    assert_eq!(g.reveal_deadline(), w(1005));
    assert_eq!(g.slot(1).unwrap().revealed, Choice::Scissors);
    assert_eq!(g.slot(0).unwrap().revealed, Choice::Hidden);
}

#[test]
fn deadline_is_held_at_the_largest_number() {
    let max = Word { limbs: [u64::MAX; 4] };
    let mut g = committed(Choice::Scissors);
    assert_eq!(g.reveal_choice(&addr(0xA1), 1, &salt(1), &max), Ok(()));
    assert_eq!(g.reveal_deadline(), max);
    assert_eq!(g.force_forfeit(&max), Err(GameError::InvalidStage));
}

#[test]
fn second_reveal_by_the_same_player_is_refused() {
    let mut g = committed(Choice::Scissors);
    assert_eq!(g.reveal_choice(&addr(0xA1), 1, &salt(1), &w(1000)), Ok(()));
    assert_eq!(g.reveal_choice(&addr(0xA1), 1, &salt(1), &w(1001)), Err(GameError::UnknownPlayer));
    assert_eq!(g.stage(), Stage::SecondReveal);
    assert_eq!(g.reveal_deadline(), w(1005));
}

#[test]
fn repeated_reveal_with_a_wrong_hash_is_an_invalid_commitment() {
    let mut g = committed(Choice::Scissors);
    assert_eq!(g.reveal_choice(&addr(0xA1), 1, &salt(1), &w(1000)), Ok(()));
    assert_eq!(
        g.reveal_choice(&addr(0xA1), 2, &salt(1), &w(1001)),
        Err(GameError::InvalidCommitment)
    );
    assert_eq!(
        g.reveal_choice(&addr(0xA1), 1, &salt(5), &w(1001)),
        Err(GameError::InvalidCommitment)
    );
    assert_eq!(g.slot(0).unwrap().revealed, Choice::Rock);
    assert_eq!(g.stage(), Stage::SecondReveal);
}

#[test]
fn rock_beats_scissors_round() {
    let mut g = committed(Choice::Scissors);
    assert_eq!(g.reveal_choice(&addr(0xA1), 1, &salt(1), &w(1000)), Ok(()));
    assert_eq!(g.reveal_choice(&addr(0xB2), 3, &salt(2), &w(1002)), Ok(()));
    assert_eq!(g.stage(), Stage::Distribute);
    let due = g.settlement().unwrap();
    assert_eq!(due.first, addr(0xA1));
    assert_eq!(due.first_payout, w(210));
    assert_eq!(due.second, addr(0xB2));
    assert_eq!(due.second_payout, w(10));
    let paid = g.distribute(true).unwrap();
    assert_eq!(paid, due);
    assert_eq!(g.stage(), Stage::FirstCommit);
    assert_eq!(g.reveal_deadline(), w(0));
    assert_eq!(g.slot(0), None);
    assert_eq!(g.balance(&addr(0xA1)), w(0));
    assert_eq!(g.balance(&addr(0xB2)), w(0));
}

#[test]
fn absent_second_player_forfeits() {
    let mut g = committed(Choice::Scissors);
    assert_eq!(g.reveal_choice(&addr(0xA1), 1, &salt(1), &w(1000)), Ok(()));
    assert_eq!(g.force_forfeit(&w(1004)), Err(GameError::InvalidStage));
    assert_eq!(g.force_forfeit(&w(1005)), Err(GameError::InvalidStage));
    assert_eq!(g.stage(), Stage::SecondReveal);
    assert_eq!(g.force_forfeit(&w(1006)), Ok(()));
    assert_eq!(g.stage(), Stage::Distribute);
    let paid = g.distribute(true).unwrap();
    assert_eq!(paid.first_payout, w(210));
    assert_eq!(paid.second_payout, w(0));
    assert_eq!(g.stage(), Stage::FirstCommit);
    // the winner's own deposit stays on their balance
    assert_eq!(g.balance(&addr(0xA1)), w(10));
    assert_eq!(g.balance(&addr(0xB2)), w(0));
}

#[test]
fn absent_first_player_forfeits() {
    let mut g = committed(Choice::Scissors);
    assert_eq!(g.reveal_choice(&addr(0xB2), 3, &salt(2), &w(7)), Ok(()));
    assert_eq!(g.force_forfeit(&w(13)), Ok(()));
    let paid = g.distribute(true).unwrap();
    assert_eq!(paid.first_payout, w(0));
    assert_eq!(paid.second_payout, w(210));
    assert_eq!(g.balance(&addr(0xA1)), w(0));
    assert_eq!(g.balance(&addr(0xB2)), w(10));
}

#[test]
fn forfeit_outside_the_second_reveal_is_out_of_stage() {
    let mut g = committed(Choice::Scissors);
    assert_eq!(g.force_forfeit(&w(1_000_000)), Err(GameError::InvalidStage));
    assert_eq!(g.stage(), Stage::FirstReveal);
}

#[test]
fn draw_returns_both_stakes() {
    let mut g = committed(Choice::Rock);
    assert_eq!(g.reveal_choice(&addr(0xA1), 1, &salt(1), &w(1)), Ok(()));
    assert_eq!(g.reveal_choice(&addr(0xB2), 1, &salt(2), &w(2)), Ok(()));
    let paid = g.distribute(true).unwrap();
    assert_eq!(paid.first_payout, w(110));
    assert_eq!(paid.second_payout, w(110));
    assert_eq!(g.balance(&addr(0xA1)), w(0));
    assert_eq!(g.balance(&addr(0xB2)), w(0));
}

#[test]
fn paper_beats_rock_round() {
    let mut g = committed(Choice::Paper);
    assert_eq!(g.reveal_choice(&addr(0xB2), 2, &salt(2), &w(1)), Ok(()));
    assert_eq!(g.reveal_choice(&addr(0xA1), 1, &salt(1), &w(2)), Ok(()));
    let paid = g.distribute(true).unwrap();
    assert_eq!(paid.first_payout, w(10));
    assert_eq!(paid.second_payout, w(210));
}

#[test]
fn rejected_transfer_leaves_the_round_open() {
    let mut g = committed(Choice::Scissors);
    assert_eq!(g.reveal_choice(&addr(0xA1), 1, &salt(1), &w(1000)), Ok(()));
    assert_eq!(g.reveal_choice(&addr(0xB2), 3, &salt(2), &w(1002)), Ok(()));
    assert_eq!(g.distribute(false), Err(GameError::DistributeFailed));
    assert_eq!(g.stage(), Stage::Distribute);
    assert_eq!(g.balance(&addr(0xA1)), w(110));
    assert_eq!(g.balance(&addr(0xB2)), w(110));
    assert_eq!(g.slot(0).unwrap().revealed, Choice::Rock);
    assert_eq!(g.distribute(true).unwrap().first_payout, w(210));
}

#[test]
fn distribute_before_its_stage_is_refused() {
    let mut g = committed(Choice::Scissors);
    assert_eq!(g.distribute(true), Err(GameError::InvalidStage));
    assert_eq!(g.settlement(), Err(GameError::InvalidStage));
    assert_eq!(g.stage(), Stage::FirstReveal);
    assert_eq!(g.balance(&addr(0xA1)), w(110));
}

#[test]
fn next_round_reuses_the_game() {
    let mut g = committed(Choice::Scissors);
    assert_eq!(g.reveal_choice(&addr(0xA1), 1, &salt(1), &w(1000)), Ok(()));
    assert_eq!(g.reveal_choice(&addr(0xB2), 3, &salt(2), &w(1002)), Ok(()));
    g.distribute(true).unwrap();
    let c = commitment_for(Choice::Paper, &salt(3), &addr(0xB2));
    assert_eq!(g.commit(&addr(0xB2), &w(111), &c), Ok(w(1)));
    assert_eq!(g.stage(), Stage::SecondCommit);
    assert_eq!(g.slot(0).unwrap().player, addr(0xB2));
    assert_eq!(g.balance(&addr(0xB2)), w(110));
}
