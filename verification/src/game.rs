//! The game: two players commit, reveal, and the escrow is paid out.

use vstd::prelude::*;
use crate::choice::{beats, choice_of_code, Choice};
use crate::commitment::{Address, Bytes32};
use crate::error::GameError;
use crate::word::{word_modulus, Word};

verus! {

/// The phase that the game is in.
#[derive(Clone, Copy, Debug, PartialEq, Eq, Structural)]
pub enum Stage {
    FirstCommit,
    SecondCommit,
    FirstReveal,
    SecondReveal,
    Distribute,
}

/// A player's seat: who they are, what they committed to, and what they
/// have revealed.
#[derive(Clone, Copy, Debug, PartialEq, Eq)]
pub struct Slot {
    pub player: Address,
    pub commitment: Bytes32,
    pub revealed: Choice,
}

/// The game as the contracts see it.
pub ghost struct GameView {
    pub bet: nat,
    pub deposit: nat,
    pub reveal_window: nat,
    pub reveal_deadline: nat,
    pub stage: Stage,
    pub locked: bool,
    pub slots: Seq<Slot>,
}

/// What a settlement pays to each player and takes from each player's
/// balance.
pub ghost struct Shares {
    pub first_payout: nat,
    pub second_payout: nat,
    pub first_debit: nat,
    pub second_debit: nat,
}

/// What a settlement pays to each player and takes from each player's
/// balance, in 256-bit numbers.
#[derive(Clone, Copy, Debug, PartialEq, Eq)]
pub struct Payouts {
    pub first_payout: Word,
    pub second_payout: Word,
    pub first_debit: Word,
    pub second_debit: Word,
}

/// The transfers that end a round: who is paid, and how much.
#[derive(Clone, Copy, Debug, PartialEq, Eq)]
pub struct Settlement {
    pub first: Address,
    pub first_payout: Word,
    pub second: Address,
    pub second_payout: Word,
}

/// A seat as a snapshot holds it, with the revealed choice as a number.
#[derive(Clone, Copy, Debug, PartialEq, Eq)]
pub struct SlotRecord {
    pub player: Address,
    pub commitment: Bytes32,
    pub choice: u8,
}

/// The whole state of a suspended game but its escrow, in plain values, for
/// moving the game elsewhere.
#[derive(Clone, Debug, PartialEq, Eq)]
pub struct Snapshot {
    pub bet: Word,
    pub deposit: Word,
    pub reveal_window: Word,
    pub reveal_deadline: Word,
    pub stage: u8,
    pub slots: Vec<SlotRecord>,
}

impl SlotRecord {
    /// The seat that the record stands for.
    pub open spec fn slot(self) -> Slot {
        Slot {
            player: self.player,
            commitment: self.commitment,
            revealed: choice_of_code(self.choice),
        }
    }
}

impl Snapshot {
    /// The suspended game that the snapshot stands for.
    pub open spec fn describes(&self) -> GameView {
        GameView {
            bet: self.bet@,
            deposit: self.deposit@,
            reveal_window: self.reveal_window@,
            reveal_deadline: self.reveal_deadline@,
            stage: stage_of_code(self.stage),
            locked: true,
            slots: Seq::new(self.slots@.len(), |i: int| self.slots@[i].slot()),
        }
    }

    /// The snapshot stands for a state that a game can be in: its stage and
    /// its choices are numbers that stand for one, it has at most two seats,
    /// and the game it describes is consistent.
    pub open spec fn valid(&self) -> bool {
        &&& self.stage <= 4
        &&& self.slots@.len() <= 2
        &&& forall|i: int| 0 <= i < self.slots@.len() ==> (#[trigger] self.slots@[i]).choice <= 3
        &&& self.describes().consistent()
    }
}

/// How an import of `snapshot` into a game ends, where `backed` says whether
/// the escrow holds a stake for every seat of the snapshot.
pub open spec fn import_outcome(g: GameView, snapshot: &Snapshot, backed: bool) -> Result<
    (),
    GameError,
> {
    if !g.locked {
        Err(GameError::Locked)
    } else if !snapshot.valid() {
        Err(GameError::InvalidSnapshot)
    } else if !backed {
        Err(GameError::InsufficientFunds)
    } else {
        Ok(())
    }
}

impl Stage {
    /// How many seats are taken in the stage.
    pub fn seats(self) -> (r: usize)
        ensures
            r == slots_at(self),
    {
        match self {
            Stage::FirstCommit => 0,
            Stage::SecondCommit => 1,
            _ => 2,
        }
    }

    /// The number that stands for the stage.
    pub fn to_u8(self) -> (r: u8)
        ensures
            r == stage_code(self),
            r <= 4,
            stage_of_code(r) == self,
    {
        match self {
            Stage::FirstCommit => 0,
            Stage::SecondCommit => 1,
            Stage::FirstReveal => 2,
            Stage::SecondReveal => 3,
            Stage::Distribute => 4,
        }
    }

    /// The stage that `code` stands for, if it stands for one.
    pub fn from_u8(code: u8) -> (r: Option<Stage>)
        ensures
            r.is_some() <==> code <= 4,
            r.is_some() ==> r.unwrap() == stage_of_code(code) && stage_code(r.unwrap()) == code,
    {
        if code == 0 {
            Some(Stage::FirstCommit)
        } else if code == 1 {
            Some(Stage::SecondCommit)
        } else if code == 2 {
            Some(Stage::FirstReveal)
        } else if code == 3 {
            Some(Stage::SecondReveal)
        } else if code == 4 {
            Some(Stage::Distribute)
        } else {
            None
        }
    }
}

/// How many seats are taken in each stage.
pub open spec fn slots_at(stage: Stage) -> nat {
    match stage {
        Stage::FirstCommit => 0,
        Stage::SecondCommit => 1,
        _ => 2,
    }
}

/// The number that stands for a stage in a snapshot.
pub open spec fn stage_code(stage: Stage) -> u8 {
    match stage {
        Stage::FirstCommit => 0,
        Stage::SecondCommit => 1,
        Stage::FirstReveal => 2,
        Stage::SecondReveal => 3,
        Stage::Distribute => 4,
    }
}

/// The stage that a number stands for; numbers above 4 stand for none, and
/// are taken as the last.
pub open spec fn stage_of_code(code: u8) -> Stage {
    if code == 0 {
        Stage::FirstCommit
    } else if code == 1 {
        Stage::SecondCommit
    } else if code == 2 {
        Stage::FirstReveal
    } else if code == 3 {
        Stage::SecondReveal
    } else {
        Stage::Distribute
    }
}

impl GameView {
    /// What each player stakes: the bet and the deposit.
    pub open spec fn stake(self) -> nat {
        self.bet + self.deposit
    }

    /// The seats fit the stage, the two players differ, the deadline is
    /// armed only once somebody has revealed, nobody has revealed before the
    /// first reveal, and exactly one player has while the second is awaited.
    pub open spec fn consistent(self) -> bool {
        &&& self.slots.len() == slots_at(self.stage)
        &&& (self.slots.len() == 2 ==> self.slots[0].player@ != self.slots[1].player@)
        &&& (self.stage != Stage::SecondReveal && self.stage != Stage::Distribute ==> {
            &&& self.reveal_deadline == 0
            &&& forall|i: int|
                0 <= i < self.slots.len() ==> (#[trigger] self.slots[i]).revealed == Choice::Hidden
        })
        &&& (self.stage == Stage::SecondReveal ==> (self.slots[0].revealed == Choice::Hidden)
            != (self.slots[1].revealed == Choice::Hidden))
    }

    /// The same game, suspended or running as `locked` says.
    pub open spec fn with_lock(self, locked: bool) -> GameView {
        GameView { locked, ..self }
    }

    /// The seat that `who` holds, if any.
    pub open spec fn seat_of(self, who: Seq<u8>) -> Option<int> {
        if self.slots.len() > 0 && self.slots[0].player@ == who {
            Some(0int)
        } else if self.slots.len() > 1 && self.slots[1].player@ == who {
            Some(1int)
        } else {
            None
        }
    }
}

/// A new game: first commit awaited, running, no deadline, no seat taken.
pub open spec fn initial_view(bet: nat, deposit: nat, reveal_window: nat) -> GameView {
    GameView {
        bet,
        deposit,
        reveal_window,
        reveal_deadline: 0,
        stage: Stage::FirstCommit,
        locked: false,
        slots: Seq::empty(),
    }
}

/// How a commit ends for a sender whose balance is `held` and who sent
/// `value`: the excess to refund, or the reason for which it is refused.
pub open spec fn commit_outcome(g: GameView, held: nat, sender: Seq<u8>, value: nat) -> Result<
    nat,
    GameError,
> {
    if g.locked {
        Err(GameError::Locked)
    } else if g.stage != Stage::FirstCommit && g.stage != Stage::SecondCommit {
        Err(GameError::InvalidStage)
    } else if value < g.stake() {
        Err(GameError::InsufficientFunds)
    } else if g.seat_of(sender).is_some() {
        Err(GameError::DuplicatePlayer)
    } else if held + g.stake() >= word_modulus() {
        Err(GameError::TransferFailed)
    } else {
        Ok((value - g.stake()) as nat)
    }
}

/// The game once `sender` has taken the next seat with `commitment`.
pub open spec fn after_commit(g: GameView, sender: Address, commitment: Bytes32) -> GameView {
    GameView {
        stage: if g.stage == Stage::FirstCommit {
            Stage::SecondCommit
        } else {
            Stage::FirstReveal
        },
        slots: g.slots.push(Slot { player: sender, commitment, revealed: Choice::Hidden }),
        ..g
    }
}

/// How a reveal of the number `choice` by `sender` ends, where `digest` is
/// the hash of what was revealed.
pub open spec fn reveal_outcome(g: GameView, sender: Seq<u8>, choice: u8, digest: Seq<u8>) -> Result<
    (),
    GameError,
> {
    if g.locked {
        Err(GameError::Locked)
    } else if g.stage != Stage::FirstReveal && g.stage != Stage::SecondReveal {
        Err(GameError::InvalidStage)
    } else if !(1 <= choice <= 3) {
        Err(GameError::InvalidChoice)
    } else if g.seat_of(sender).is_none() {
        Err(GameError::UnknownPlayer)
    } else if g.slots[g.seat_of(sender).unwrap()].commitment@ != digest {
        Err(GameError::InvalidCommitment)
    } else if g.slots[g.seat_of(sender).unwrap()].revealed != Choice::Hidden {
        Err(GameError::UnknownPlayer)
    } else {
        Ok(())
    }
}

/// The deadline armed by a first reveal at `height`: `height + window`, held
/// at the largest 256-bit number, which no height exceeds.
pub open spec fn armed_deadline(height: nat, window: nat) -> nat {
    if height + window < word_modulus() {
        height + window
    } else {
        (word_modulus() - 1) as nat
    }
}

/// The game once the player in `seat` has revealed `choice` at `height`.
pub open spec fn after_reveal(g: GameView, seat: int, choice: Choice, height: nat) -> GameView {
    GameView {
        stage: if g.stage == Stage::FirstReveal {
            Stage::SecondReveal
        } else {
            Stage::Distribute
        },
        reveal_deadline: if g.stage == Stage::FirstReveal {
            armed_deadline(height, g.reveal_window)
        } else {
            g.reveal_deadline
        },
        slots: g.slots.update(seat, Slot { revealed: choice, ..g.slots[seat] }),
        ..g
    }
}

/// How forcing the forfeit at `height` ends.
pub open spec fn forfeit_outcome(g: GameView, height: nat) -> Result<(), GameError> {
    if g.locked {
        Err(GameError::Locked)
    } else if g.stage != Stage::SecondReveal {
        Err(GameError::InvalidStage)
    } else if height <= g.reveal_deadline {
        Err(GameError::InvalidStage)
    } else {
        Ok(())
    }
}

/// What is paid and debited when the first player revealed `a` and the
/// second `b`. Equal moves: each gets their stake back. A move that beats the
/// other: the winner gets both bets and their deposit, the loser their
/// deposit. One player never revealed: the other gets both bets and the
/// absent player's deposit, while their own deposit stays on their balance.
/// Neither revealed: each gets their deposit, and the bets stay.
pub open spec fn shares_of(bet: nat, deposit: nat, a: Choice, b: Choice) -> Shares {
    let stake = bet + deposit;
    let prize = 2 * bet + deposit;
    if a == Choice::Hidden && b == Choice::Hidden {
        Shares {
            first_payout: deposit,
            second_payout: deposit,
            first_debit: deposit,
            second_debit: deposit,
        }
    } else if b == Choice::Hidden {
        Shares { first_payout: prize, second_payout: 0, first_debit: bet, second_debit: stake }
    } else if a == Choice::Hidden {
        Shares { first_payout: 0, second_payout: prize, first_debit: stake, second_debit: bet }
    } else if a == b {
        Shares {
            first_payout: stake,
            second_payout: stake,
            first_debit: stake,
            second_debit: stake,
        }
    } else if beats(a, b) {
        Shares {
            first_payout: prize,
            second_payout: deposit,
            first_debit: stake,
            second_debit: stake,
        }
    } else {
        Shares {
            first_payout: deposit,
            second_payout: prize,
            first_debit: stake,
            second_debit: stake,
        }
    }
}

impl Payouts {
    /// The amounts as numbers.
    pub open spec fn shares(self) -> Shares {
        Shares {
            first_payout: self.first_payout@,
            second_payout: self.second_payout@,
            first_debit: self.first_debit@,
            second_debit: self.second_debit@,
        }
    }
}

/// Computes what a round pays: `None` where the winner's prize, two bets and
/// a deposit, does not fit in 256 bits.
pub fn payouts(bet: &Word, deposit: &Word, a: Choice, b: Choice) -> (r: Option<Payouts>)
    ensures
        r.is_some() <==> 2 * bet@ + deposit@ < word_modulus(),
        r.is_some() ==> r.unwrap().shares() == shares_of(bet@, deposit@, a, b),
{
    let stake = match bet.checked_add(deposit) {
        Some(s) => s,
        None => {
            return None;
        },
    };
    let prize = match stake.checked_add(bet) {
        Some(p) => p,
        None => {
            return None;
        },
    };
    let none = Word::zero();
    let hidden_a = !a.played();
    let hidden_b = !b.played();
    let r = if hidden_a && hidden_b {
        Payouts {
            first_payout: *deposit,
            second_payout: *deposit,
            first_debit: *deposit,
            second_debit: *deposit,
        }
    } else if hidden_b {
        Payouts { first_payout: prize, second_payout: none, first_debit: *bet, second_debit: stake }
    } else if hidden_a {
        Payouts { first_payout: none, second_payout: prize, first_debit: stake, second_debit: *bet }
    } else {
        match crate::choice::resolve(a, b) {
            crate::choice::Outcome::FirstWins => Payouts {
                first_payout: prize,
                second_payout: *deposit,
                first_debit: stake,
                second_debit: stake,
            },
            crate::choice::Outcome::SecondWins => Payouts {
                first_payout: *deposit,
                second_payout: prize,
                first_debit: stake,
                second_debit: stake,
            },
            _ => Payouts {
                first_payout: stake,
                second_payout: stake,
                first_debit: stake,
                second_debit: stake,
            },
        }
    };
    Some(r)
}

/// How a distribution ends, where `paid` says whether the transfers went
/// through.
pub open spec fn distribute_outcome(g: GameView, paid: bool) -> Result<(), GameError> {
    if g.locked {
        Err(GameError::Locked)
    } else if g.stage != Stage::Distribute {
        Err(GameError::InvalidStage)
    } else if 2 * g.bet + g.deposit >= word_modulus() {
        Err(GameError::TransferFailed)
    } else if !paid {
        Err(GameError::DistributeFailed)
    } else {
        Ok(())
    }
}

/// What the game in state `g` owes when it is settled.
pub open spec fn shares_due(g: GameView) -> Shares
    recommends
        g.slots.len() == 2,
{
    shares_of(g.bet, g.deposit, g.slots[0].revealed, g.slots[1].revealed)
}

/// The game once a round has been paid out: ready for the next first commit.
pub open spec fn after_distribute(g: GameView) -> GameView {
    GameView { stage: Stage::FirstCommit, reveal_deadline: 0, slots: Seq::empty(), ..g }
}

} // verus!
