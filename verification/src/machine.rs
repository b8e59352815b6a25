//! The operations of the game, each a step of the state machine. A step that
//! fails changes nothing.

use vstd::prelude::*;
use crate::choice::{choice_of_code, Choice};
use crate::commitment::{commitment_for, commitment_of, Address, Bytes32};
use crate::error::GameError;
use crate::game::{
    after_commit, after_distribute, after_reveal, commit_outcome, distribute_outcome,
    forfeit_outcome, import_outcome, initial_view, payouts, reveal_outcome, shares_due, GameView,
    Payouts, Settlement, Slot, SlotRecord, Snapshot, Stage,
};
use crate::ledger::Ledger;
use crate::word::Word;

verus! {

/// One game of rock, paper, scissors between two players, with the escrow
/// that backs it.
#[derive(Debug)]
pub struct RPS {
    bet: Word,
    deposit: Word,
    reveal_window: Word,
    reveal_deadline: Word,
    stage: Stage,
    locked: bool,
    slots: Vec<Slot>,
    ledger: Ledger,
}

impl View for RPS {
    type V = GameView;

    closed spec fn view(&self) -> GameView {
        GameView {
            bet: self.bet@,
            deposit: self.deposit@,
            reveal_window: self.reveal_window@,
            reveal_deadline: self.reveal_deadline@,
            stage: self.stage,
            locked: self.locked,
            slots: self.slots@,
        }
    }
}

/// The escrow `ledger` holds a stake, the bet and the deposit, for the
/// player in every seat of `g`.
pub open spec fn backs(ledger: Ledger, g: GameView) -> bool {
    forall|i: int|
        0 <= i < g.slots.len() ==> ledger.balance_of((#[trigger] g.slots[i]).player@) >= g.stake()
}

/// Whether `ledger` holds `bet + deposit` for the player in every seat.
fn covers(ledger: &Ledger, slots: &Vec<Slot>, bet: &Word, deposit: &Word) -> (r: bool)
    requires
        ledger.wf(),
    ensures
        r == (forall|i: int|
            0 <= i < slots@.len() ==> ledger.balance_of((#[trigger] slots@[i]).player@) >= bet@
                + deposit@),
{
    if slots.len() == 0 {
        return true;
    }
    let stake = match bet.checked_add(deposit) {
        Some(s) => s,
        None => {
            let held = ledger.balance(&slots[0].player);
            proof {
                crate::word::lemma_word_bound(held);
            }
            return false;
        },
    };
    let mut i: usize = 0;
    while i < slots.len()
        invariant
            ledger.wf(),
            stake@ == bet@ + deposit@,
            i <= slots@.len(),
            forall|k: int|
                0 <= k < i ==> ledger.balance_of((#[trigger] slots@[k]).player@) >= stake@,
        decreases slots@.len() - i,
    {
        if ledger.balance(&slots[i].player).less_than(&stake) {
            return false;
        }
        i = i + 1;
    }
    true
}

impl RPS {
    /// The escrow ledger of the game.
    pub closed spec fn ledger(&self) -> Ledger {
        self.ledger
    }

    /// The ledger has one entry for each identity, the game's fields fit
    /// together, and the escrow holds a stake for every seated player.
    pub closed spec fn wf(&self) -> bool {
        self.ledger.wf() && self@.consistent() && backs(self.ledger, self@)
    }

    /// A well-formed game is consistent, and its escrow holds a stake for
    /// every seated player.
    pub proof fn lemma_wf(&self)
        requires
            self.wf(),
        ensures
            self@.consistent(),
            self.ledger().wf(),
            backs(self.ledger(), self@),
    {
    }

    /// What the escrow holds for `who`.
    pub open spec fn balance_of(&self, who: Seq<u8>) -> nat {
        self.ledger().balance_of(who)
    }

    /// All that the escrow holds.
    pub open spec fn escrow(&self) -> nat {
        self.ledger().total()
    }

    /// Every balance but those of `a` and `b` is the same in `self` and
    /// `other`.
    pub open spec fn same_balances_but(&self, other: &RPS, a: Seq<u8>, b: Seq<u8>) -> bool {
        forall|who: Seq<u8>|
            who != a && who != b ==> #[trigger] self.balance_of(who) == other.balance_of(who)
    }

    /// `post` is `self` after `sender`, sending `value`, has taken the next
    /// seat with `commitment` and is owed `refund`: the stake is on the
    /// sender's balance and in the escrow, and no other balance has changed.
    pub open spec fn commit_step(
        &self,
        sender: Address,
        value: nat,
        commitment: Bytes32,
        post: &RPS,
        refund: nat,
    ) -> bool {
        &&& commit_outcome(self@, self.balance_of(sender@), sender@, value) == Ok::<nat, GameError>(
            refund,
        )
        &&& post@ == after_commit(self@, sender, commitment)
        &&& post.balance_of(sender@) == self.balance_of(sender@) + self@.stake()
        &&& post.escrow() == self.escrow() + self@.stake()
        &&& post.same_balances_but(self, sender@, sender@)
    }

    /// `post` is `self` after the round was settled and `paid` out: the seats
    /// are cleared, the debits have left the players' balances, the payouts
    /// have left the escrow, and no other balance has changed.
    pub open spec fn distribute_step(&self, post: &RPS, paid: Settlement) -> bool {
        &&& distribute_outcome(self@, true).is_ok()
        &&& paid.first == self@.slots[0].player
        &&& paid.second == self@.slots[1].player
        &&& paid.first_payout@ == shares_due(self@).first_payout
        &&& paid.second_payout@ == shares_due(self@).second_payout
        &&& post@ == after_distribute(self@)
        &&& post.balance_of(paid.first@) == self.balance_of(paid.first@) - shares_due(
            self@,
        ).first_debit
        &&& post.balance_of(paid.second@) == self.balance_of(paid.second@) - shares_due(
            self@,
        ).second_debit
        &&& post.escrow() == self.escrow() - paid.first_payout@ - paid.second_payout@
        &&& post.same_balances_but(self, paid.first@, paid.second@)
    }

    /// Sets up a game with its bet, its deposit and the number of blocks that
    /// the second revealer has. The escrow is empty.
    pub fn new(bet: Word, deposit: Word, reveal_window: Word) -> (r: RPS)
        ensures
            r.wf(),
            r@ == initial_view(bet@, deposit@, reveal_window@),
            r.escrow() == 0,
            forall|who: Seq<u8>| #[trigger] r.balance_of(who) == 0,
    {
        RPS {
            bet,
            deposit,
            reveal_window,
            reveal_deadline: Word::zero(),
            stage: Stage::FirstCommit,
            locked: false,
            slots: Vec::new(),
            ledger: Ledger::new(),
        }
    }

    /// Suspends the game. Always succeeds, also on a suspended game.
    pub fn lock(&mut self) -> (r: Result<(), GameError>)
        requires
            old(self).wf(),
        ensures
            final(self).wf(),
            r.is_ok(),
            final(self)@ == old(self)@.with_lock(true),
            final(self).ledger() == old(self).ledger(),
    {
        self.locked = true;
        Ok(())
    }

    /// Resumes the game. Always succeeds, also on a running game.
    pub fn unlock(&mut self) -> (r: Result<(), GameError>)
        requires
            old(self).wf(),
        ensures
            final(self).wf(),
            r.is_ok(),
            final(self)@ == old(self)@.with_lock(false),
            final(self).ledger() == old(self).ledger(),
    {
        self.locked = false;
        Ok(())
    }

    /// The seat that `who` holds, if any.
    fn seat(&self, who: &Address) -> (r: Option<usize>)
        ensures
            match r {
                Some(i) => self@.seat_of(who@) == Some(i as int) && i < self@.slots.len(),
                None => self@.seat_of(who@).is_none(),
            },
    {
        if self.slots.len() > 0 && self.slots[0].player.same(who) {
            Some(0)
        } else if self.slots.len() > 1 && self.slots[1].player.same(who) {
            Some(1)
        } else {
            None
        }
    }

    /// Takes the next seat for `sender`, who sent `value` along and commits
    /// to `commitment`. The stake, bet and deposit, is credited to the
    /// sender's balance; the result is the excess, to be refunded at once.
    pub fn commit(&mut self, sender: &Address, value: &Word, commitment: &Bytes32) -> (r: Result<
        Word,
        GameError,
    >)
        requires
            old(self).wf(),
        ensures
            final(self).wf(),
            match r {
                Ok(refund) => old(self).commit_step(
                    *sender,
                    value@,
                    *commitment,
                    final(self),
                    refund@,
                ),
                Err(e) => {
                    &&& commit_outcome(old(self)@, old(self).balance_of(sender@), sender@, value@)
                        == Err::<nat, GameError>(e)
                    &&& *final(self) == *old(self)
                },
            },
    {
        if self.locked {
            return Err(GameError::Locked);
        }
        match self.stage {
            Stage::FirstCommit | Stage::SecondCommit => {},
            _ => {
                return Err(GameError::InvalidStage);
            },
        }
        let stake = match self.bet.checked_add(&self.deposit) {
            Some(s) => s,
            None => {
                proof {
                    crate::word::lemma_word_bound(*value);
                }
                return Err(GameError::InsufficientFunds);
            },
        };
        let refund = match value.checked_sub(&stake) {
            Some(x) => x,
            None => {
                return Err(GameError::InsufficientFunds);
            },
        };
        if self.seat(sender).is_some() {
            return Err(GameError::DuplicatePlayer);
        }
        match self.ledger.deposit(sender, &stake) {
            Ok(()) => {},
            Err(_) => {
                return Err(GameError::TransferFailed);
            },
        }
        self.slots.push(Slot { player: *sender, commitment: *commitment, revealed: Choice::Hidden });
        self.stage = match self.stage {
            Stage::FirstCommit => Stage::SecondCommit,
            _ => Stage::FirstReveal,
        };
        Ok(refund)
    }

    /// Records the reveal of the number `choice` by `sender` at block
    /// `height`, where `digest` is the hash of the revealed choice, the
    /// blinding factor and the sender's identity. The first reveal arms the
    /// deadline for the second.
    pub fn reveal_digest(&mut self, sender: &Address, choice: u8, digest: &Bytes32, height: &Word)
        -> (r: Result<(), GameError>)
        requires
            old(self).wf(),
        ensures
            final(self).wf(),
            r == reveal_outcome(old(self)@, sender@, choice, digest@),
            r.is_err() ==> *final(self) == *old(self),
            r.is_ok() ==> final(self)@ == after_reveal(
                old(self)@,
                old(self)@.seat_of(sender@).unwrap(),
                choice_of_code(choice),
                height@,
            ),
            final(self).ledger() == old(self).ledger(),
    {
        if self.locked {
            return Err(GameError::Locked);
        }
        match self.stage {
            Stage::FirstReveal | Stage::SecondReveal => {},
            _ => {
                return Err(GameError::InvalidStage);
            },
        }
        let revealed = match Choice::from_u8(choice) {
            Ok(c) => c,
            Err(_) => {
                return Err(GameError::InvalidChoice);
            },
        };
        if !revealed.played() {
            return Err(GameError::InvalidChoice);
        }
        let seat = match self.seat(sender) {
            Some(i) => i,
            None => {
                return Err(GameError::UnknownPlayer);
            },
        };
        let slot = self.slots[seat];
        if !slot.commitment.same(digest) {
            return Err(GameError::InvalidCommitment);
        }
        if slot.revealed.played() {
            return Err(GameError::UnknownPlayer);
        }
        self.slots[seat] = Slot { revealed, ..slot };
        match self.stage {
            Stage::FirstReveal => {
                self.reveal_deadline = height.saturating_add(&self.reveal_window);
                self.stage = Stage::SecondReveal;
            },
            _ => {
                self.stage = Stage::Distribute;
            },
        }
        Ok(())
    }

    /// Records the reveal of the number `choice` with `blinding` by `sender`
    /// at block `height`. It is accepted only where the hash of the three is
    /// the sender's commitment.
    pub fn reveal_choice(&mut self, sender: &Address, choice: u8, blinding: &Bytes32, height: &Word) -> (r:
        Result<(), GameError>)
        requires
            old(self).wf(),
        ensures
            final(self).wf(),
            r == reveal_outcome(
                old(self)@,
                sender@,
                choice,
                commitment_of(choice_of_code(choice), blinding@, sender@),
            ),
            r.is_err() ==> *final(self) == *old(self),
            r.is_ok() ==> final(self)@ == after_reveal(
                old(self)@,
                old(self)@.seat_of(sender@).unwrap(),
                choice_of_code(choice),
                height@,
            ),
            final(self).ledger() == old(self).ledger(),
    {
        let revealed = match Choice::from_u8(choice) {
            Ok(c) => c,
            Err(_) => Choice::Hidden,
        };
        let digest = commitment_for(revealed, blinding, sender);
        self.reveal_digest(sender, choice, &digest, height)
    }

    /// Ends the wait for the second reveal once block `height` is past the
    /// deadline: the game goes on to the distribution with the absent
    /// player's choice left hidden.
    pub fn force_forfeit(&mut self, height: &Word) -> (r: Result<(), GameError>)
        requires
            old(self).wf(),
        ensures
            final(self).wf(),
            r == forfeit_outcome(old(self)@, height@),
            r.is_err() ==> *final(self) == *old(self),
            r.is_ok() ==> final(self)@ == (GameView { stage: Stage::Distribute, ..old(self)@ }),
            final(self).ledger() == old(self).ledger(),
    {
        if self.locked {
            return Err(GameError::Locked);
        }
        match self.stage {
            Stage::SecondReveal => {},
            _ => {
                return Err(GameError::InvalidStage);
            },
        }
        if !self.reveal_deadline.less_than(height) {
            return Err(GameError::InvalidStage);
        }
        self.stage = Stage::Distribute;
        Ok(())
    }

    /// What the round owes, where the game is running and in the
    /// distribution stage.
    fn dues(&self) -> (r: Result<Payouts, GameError>)
        requires
            self.wf(),
        ensures
            match r {
                Ok(due) => distribute_outcome(self@, true).is_ok() && due.shares() == shares_due(
                    self@,
                ),
                Err(e) => distribute_outcome(self@, true) == Err::<(), GameError>(e),
            },
    {
        if self.locked {
            return Err(GameError::Locked);
        }
        match self.stage {
            Stage::Distribute => {},
            _ => {
                return Err(GameError::InvalidStage);
            },
        }
        match payouts(&self.bet, &self.deposit, self.slots[0].revealed, self.slots[1].revealed) {
            Some(due) => Ok(due),
            None => Err(GameError::TransferFailed),
        }
    }

    /// The transfers that the distribution will ask for: what each player is
    /// to be paid. Nothing changes.
    pub fn settlement(&self) -> (r: Result<Settlement, GameError>)
        requires
            self.wf(),
        ensures
            match r {
                Ok(s) => {
                    &&& distribute_outcome(self@, true).is_ok()
                    &&& s.first == self@.slots[0].player
                    &&& s.second == self@.slots[1].player
                    &&& s.first_payout@ == shares_due(self@).first_payout
                    &&& s.second_payout@ == shares_due(self@).second_payout
                },
                Err(e) => distribute_outcome(self@, true) == Err::<(), GameError>(e),
            },
    {
        match self.dues() {
            Err(e) => Err(e),
            Ok(due) => Ok(
                Settlement {
                    first: self.slots[0].player,
                    first_payout: due.first_payout,
                    second: self.slots[1].player,
                    second_payout: due.second_payout,
                },
            ),
        }
    }

    /// Ends the round. `paid` says whether the transfers of the settlement
    /// went through: where one was rejected nothing changes and the
    /// distribution can be tried again. Otherwise the payouts leave the
    /// escrow, the seats are cleared and the next round can begin.
    pub fn distribute(&mut self, paid: bool) -> (r: Result<Settlement, GameError>)
        requires
            old(self).wf(),
        ensures
            final(self).wf(),
            match r {
                Ok(s) => paid && old(self).distribute_step(final(self), s),
                Err(e) => distribute_outcome(old(self)@, paid) == Err::<(), GameError>(e)
                    && *final(self) == *old(self),
            },
    {
        let due = match self.dues() {
            Ok(d) => d,
            Err(e) => {
                return Err(e);
            },
        };
        if !paid {
            return Err(GameError::DistributeFailed);
        }
        let first = self.slots[0].player;
        let second = self.slots[1].player;
        proof {
            crate::laws::law_payout_table(
                self@.bet,
                self@.deposit,
                self@.slots[0].revealed,
                self@.slots[1].revealed,
            );
            assert(self.ledger.balance_of(self@.slots[0].player@) >= self@.stake());
            assert(self.ledger.balance_of(self@.slots[1].player@) >= self@.stake());
        }
        let taken_first = self.ledger.debit(&first, &due.first_debit);
        let taken_second = self.ledger.debit(&second, &due.second_debit);
        assert(taken_first.is_ok() && taken_second.is_ok());
        self.slots = Vec::new();
        self.reveal_deadline = Word::zero();
        self.stage = Stage::FirstCommit;
        Ok(
            Settlement {
                first,
                first_payout: due.first_payout,
                second,
                second_payout: due.second_payout,
            },
        )
    }

    /// The state of a suspended game, for moving it elsewhere. Refused on a
    /// running game.
    pub fn export_state(&self) -> (r: Result<Snapshot, GameError>)
        requires
            self.wf(),
        ensures
            match r {
                Ok(s) => self@.locked && s.valid() && s.describes() == self@,
                Err(e) => !self@.locked && e == GameError::Locked,
            },
    {
        if !self.locked {
            return Err(GameError::Locked);
        }
        Ok(self.fields())
    }

    /// Reads the stage and the seats of `snapshot`, where it is valid.
    #[verifier::loop_isolation(false)]
    fn seats_of(snapshot: &Snapshot) -> (r: Option<(Stage, Vec<Slot>)>)
        ensures
            r.is_some() <==> snapshot.valid(),
            r.is_some() ==> r.unwrap().0 == snapshot.describes().stage && r.unwrap().1@
                == snapshot.describes().slots,
    {
        let stage = match Stage::from_u8(snapshot.stage) {
            Some(s) => s,
            None => {
                return None;
            },
        };
        let count = snapshot.slots.len();
        if count != stage.seats() {
            return None;
        }
        let unarmed = match stage {
            Stage::SecondReveal | Stage::Distribute => false,
            _ => true,
        };
        if unarmed && !snapshot.reveal_deadline.is_zero() {
            return None;
        }
        if count == 2 && snapshot.slots[0].player.same(&snapshot.slots[1].player) {
            return None;
        }
        if unarmed {
            if count > 0 && snapshot.slots[0].choice != 0 {
                return None;
            }
            if count > 1 && snapshot.slots[1].choice != 0 {
                return None;
            }
        }
        match stage {
            Stage::SecondReveal => {
                if (snapshot.slots[0].choice == 0) == (snapshot.slots[1].choice == 0) {
                    return None;
                }
            },
            _ => {},
        }
        let mut slots: Vec<Slot> = Vec::new();
        let mut i: usize = 0;
        while i < count
            invariant
                count == snapshot.slots@.len(),
                i <= count,
                slots@.len() == i,
                forall|k: int| 0 <= k < i ==> #[trigger] slots@[k] == snapshot.slots@[k].slot(),
                forall|k: int| 0 <= k < i ==> (#[trigger] snapshot.slots@[k]).choice <= 3,
            decreases count - i,
        {
            let record = snapshot.slots[i];
            let revealed = match Choice::from_u8(record.choice) {
                Ok(c) => c,
                Err(_) => {
                    return None;
                },
            };
            slots.push(Slot { player: record.player, commitment: record.commitment, revealed });
            i = i + 1;
        }
        assert(slots@ =~= snapshot.describes().slots);
        Some((stage, slots))
    }

    /// Replaces the state of a suspended game by the one that `snapshot`
    /// describes; the escrow stays, and so does the suspension. Refused on a
    /// running game, for a snapshot that is not valid, and where the escrow
    /// does not hold a stake for every seat of the snapshot.
    pub fn import_state(&mut self, snapshot: &Snapshot) -> (r: Result<(), GameError>)
        requires
            old(self).wf(),
        ensures
            final(self).wf(),
            r == import_outcome(
                old(self)@,
                snapshot,
                backs(old(self).ledger(), snapshot.describes()),
            ),
            r.is_err() ==> *final(self) == *old(self),
            r.is_ok() ==> final(self)@ == snapshot.describes(),
            final(self).ledger() == old(self).ledger(),
    {
        if !self.locked {
            return Err(GameError::Locked);
        }
        match Self::seats_of(snapshot) {
            None => Err(GameError::InvalidSnapshot),
            Some((stage, slots)) => {
                if !covers(&self.ledger, &slots, &snapshot.bet, &snapshot.deposit) {
                    return Err(GameError::InsufficientFunds);
                }
                self.bet = snapshot.bet;
                self.deposit = snapshot.deposit;
                self.reveal_window = snapshot.reveal_window;
                self.reveal_deadline = snapshot.reveal_deadline;
                self.stage = stage;
                self.slots = slots;
                Ok(())
            },
        }
    }

    /// How building a game from `snapshot` over an escrow ends, where
    /// `backed` says whether the escrow holds a stake for every seat.
    pub open spec fn restore_outcome(snapshot: &Snapshot, backed: bool) -> Result<(), GameError> {
        if !snapshot.valid() {
            Err(GameError::InvalidSnapshot)
        } else if !backed {
            Err(GameError::InsufficientFunds)
        } else {
            Ok(())
        }
    }

    /// Builds the game that `snapshot` describes, suspended or running as
    /// `locked` says, over the escrow `ledger`: for a host that keeps the
    /// fields between calls. Refused for a snapshot that is not valid, and
    /// where the escrow does not hold a stake for every seat.
    pub fn restore(snapshot: &Snapshot, locked: bool, ledger: Ledger) -> (r: Result<
        RPS,
        GameError,
    >)
        requires
            ledger.wf(),
        ensures
            match r {
                Ok(game) => {
                    &&& Self::restore_outcome(snapshot, backs(ledger, snapshot.describes())).is_ok()
                    &&& game.wf()
                    &&& game@ == snapshot.describes().with_lock(locked)
                    &&& game.ledger() == ledger
                },
                Err(e) => Self::restore_outcome(snapshot, backs(ledger, snapshot.describes()))
                    == Err::<(), GameError>(e),
            },
    {
        match Self::seats_of(snapshot) {
            None => Err(GameError::InvalidSnapshot),
            Some((stage, slots)) => {
                if !covers(&ledger, &slots, &snapshot.bet, &snapshot.deposit) {
                    return Err(GameError::InsufficientFunds);
                }
                Ok(
                    RPS {
                        bet: snapshot.bet,
                        deposit: snapshot.deposit,
                        reveal_window: snapshot.reveal_window,
                        reveal_deadline: snapshot.reveal_deadline,
                        stage,
                        locked,
                        slots,
                        ledger,
                    },
                )
            },
        }
    }

    /// The fields of the game but its escrow, whether it is suspended or
    /// not: for a host that keeps them between calls.
    pub fn fields(&self) -> (r: Snapshot)
        requires
            self.wf(),
        ensures
            r.valid(),
            r.describes() == self@.with_lock(true),
    {
        let mut records: Vec<SlotRecord> = Vec::new();
        let mut i: usize = 0;
        while i < self.slots.len()
            invariant
                i <= self.slots@.len(),
                records@.len() == i,
                forall|k: int|
                    0 <= k < i ==> (#[trigger] records@[k]).slot() == self.slots@[k]
                        && records@[k].choice <= 3,
            decreases self.slots@.len() - i,
        {
            let slot = self.slots[i];
            records.push(
                SlotRecord {
                    player: slot.player,
                    commitment: slot.commitment,
                    choice: slot.revealed.to_u8(),
                },
            );
            i = i + 1;
        }
        let snapshot = Snapshot {
            bet: self.bet,
            deposit: self.deposit,
            reveal_window: self.reveal_window,
            reveal_deadline: self.reveal_deadline,
            stage: self.stage.to_u8(),
            slots: records,
        };
        assert(snapshot.describes().slots =~= self.slots@);
        snapshot
    }

    /// The current stage.
    pub fn stage(&self) -> (r: Stage)
        ensures
            r == self@.stage,
    {
        self.stage
    }

    /// Whether the game is suspended.
    pub fn is_locked(&self) -> (r: bool)
        ensures
            r == self@.locked,
    {
        self.locked
    }

    /// The amount that each player bets.
    pub fn bet(&self) -> (r: Word)
        ensures
            r@ == self@.bet,
    {
        self.bet
    }

    /// The good-faith amount that each player adds to the bet.
    pub fn deposit(&self) -> (r: Word)
        ensures
            r@ == self@.deposit,
    {
        self.deposit
    }

    /// The number of blocks that the second revealer has.
    pub fn reveal_window(&self) -> (r: Word)
        ensures
            r@ == self@.reveal_window,
    {
        self.reveal_window
    }

    /// The block after which the second revealer forfeits; zero while no
    /// deadline is armed.
    pub fn reveal_deadline(&self) -> (r: Word)
        ensures
            r@ == self@.reveal_deadline,
    {
        self.reveal_deadline
    }

    /// The seat with index `i`, if it is taken.
    pub fn slot(&self, i: usize) -> (r: Option<Slot>)
        ensures
            r.is_some() <==> i < self@.slots.len(),
            r.is_some() ==> r.unwrap() == self@.slots[i as int],
    {
        if i < self.slots.len() {
            Some(self.slots[i])
        } else {
            None
        }
    }

    /// What the escrow holds for `who`.
    pub fn balance(&self, who: &Address) -> (r: Word)
        requires
            self.wf(),
        ensures
            r@ == self.balance_of(who@),
    {
        self.ledger.balance(who)
    }
}

} // verus!
