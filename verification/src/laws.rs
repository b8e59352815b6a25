//! What holds of the game as a whole, proved from the contracts of its
//! operations.

use vstd::prelude::*;
use crate::choice::{beats, choice_of_code, outcome_of, Choice, Outcome};
use crate::commitment::{commitment_of, opens, Address, Bytes32};
use crate::error::GameError;
use crate::game::{
    after_commit, after_distribute, after_reveal, commit_outcome, distribute_outcome,
    forfeit_outcome, import_outcome, reveal_outcome, shares_due, shares_of, stage_code, GameView,
    Settlement, Snapshot, Stage,
};
use crate::machine::RPS;
use crate::word::word_modulus;

verus! {

/// Two commits in a row, starting from an open game, leave in escrow
/// exactly two stakes more than before: what the two players sent less what
/// each is refunded. Each player's balance has grown by one stake, the
/// players differ, and the game awaits the first reveal.
pub proof fn law_two_commits_fill_escrow(
    start: RPS,
    middle: RPS,
    end: RPS,
    first: Address,
    first_value: nat,
    first_commitment: Bytes32,
    first_refund: nat,
    second: Address,
    second_value: nat,
    second_commitment: Bytes32,
    second_refund: nat,
)
    requires
        start.wf(),
        start@.stage == Stage::FirstCommit,
        start.commit_step(first, first_value, first_commitment, &middle, first_refund),
        middle.commit_step(second, second_value, second_commitment, &end, second_refund),
    ensures
        end.escrow() == start.escrow() + 2 * (start@.bet + start@.deposit),
        end.escrow() == start.escrow() + (first_value - first_refund) + (second_value
            - second_refund),
        first@ != second@,
        end.balance_of(first@) == start.balance_of(first@) + start@.bet + start@.deposit,
        end.balance_of(second@) == start.balance_of(second@) + start@.bet + start@.deposit,
        end@.stage == Stage::FirstReveal,
        end@.slots.len() == 2,
{
    start.lemma_wf();
}

/// A reveal that does not open the sender's commitment never succeeds, and
/// where nothing else is wrong with it, the error is `InvalidCommitment`.
pub proof fn law_mismatched_reveal_fails(
    g: GameView,
    sender: Seq<u8>,
    choice: u8,
    blinding: Seq<u8>,
)
    requires
        g.seat_of(sender).is_some() ==> !opens(
            g.slots[g.seat_of(sender).unwrap()].commitment@,
            choice_of_code(choice),
            blinding,
            sender,
        ),
    ensures
        reveal_outcome(
            g,
            sender,
            choice,
            commitment_of(choice_of_code(choice), blinding, sender),
        ).is_err(),
        !g.locked && (g.stage == Stage::FirstReveal || g.stage == Stage::SecondReveal) && 1
            <= choice <= 3 && g.seat_of(sender).is_some() ==> reveal_outcome(
            g,
            sender,
            choice,
            commitment_of(choice_of_code(choice), blinding, sender),
        ) == Err::<(), GameError>(GameError::InvalidCommitment),
{
}

/// What a round pays. A move that beats the other earns two bets and a
/// deposit, and the loser gets their deposit back. Equal moves return a bet
/// and a deposit to each. Where nobody revealed, each gets the deposit and
/// nothing else. A player who alone revealed is paid two bets and a deposit,
/// the other nothing. In every case the payouts are what leaves the two
/// balances, and never more than the two stakes.
pub proof fn law_payout_table(bet: nat, deposit: nat, a: Choice, b: Choice)
    ensures
        beats(a, b) ==> shares_of(bet, deposit, a, b).first_payout == 2 * bet + deposit
            && shares_of(bet, deposit, a, b).second_payout == deposit,
        beats(b, a) ==> shares_of(bet, deposit, a, b).second_payout == 2 * bet + deposit
            && shares_of(bet, deposit, a, b).first_payout == deposit,
        a == b && a != Choice::Hidden ==> shares_of(bet, deposit, a, b).first_payout == bet
            + deposit && shares_of(bet, deposit, a, b).second_payout == bet + deposit,
        a == Choice::Hidden && b == Choice::Hidden ==> shares_of(bet, deposit, a, b).first_payout
            == deposit && shares_of(bet, deposit, a, b).second_payout == deposit,
        a != Choice::Hidden && b == Choice::Hidden ==> shares_of(bet, deposit, a, b).first_payout
            == 2 * bet + deposit && shares_of(bet, deposit, a, b).second_payout == 0,
        a == Choice::Hidden && b != Choice::Hidden ==> shares_of(bet, deposit, a, b).second_payout
            == 2 * bet + deposit && shares_of(bet, deposit, a, b).first_payout == 0,
        shares_of(bet, deposit, a, b).first_payout + shares_of(bet, deposit, a, b).second_payout
            == shares_of(bet, deposit, a, b).first_debit + shares_of(
            bet,
            deposit,
            a,
            b,
        ).second_debit,
        shares_of(bet, deposit, a, b).first_payout + shares_of(bet, deposit, a, b).second_payout
            <= 2 * (bet + deposit),
        shares_of(bet, deposit, a, b).first_debit <= bet + deposit,
        shares_of(bet, deposit, a, b).second_debit <= bet + deposit,
{
}

/// A distribution creates no funds: what it pays is what leaves the escrow,
/// each payout is covered by the two balances it is taken from, and the
/// game is back at the first commit with no seat taken and no deadline.
pub proof fn law_distribute_conserves(before: RPS, after: RPS, paid: Settlement)
    requires
        before.wf(),
        before.distribute_step(&after, paid),
    ensures
        after.escrow() + paid.first_payout@ + paid.second_payout@ == before.escrow(),
        paid.first_payout@ + paid.second_payout@ <= before.balance_of(paid.first@)
            + before.balance_of(paid.second@),
        after.balance_of(paid.first@) + after.balance_of(paid.second@) + paid.first_payout@
            + paid.second_payout@ == before.balance_of(paid.first@) + before.balance_of(
            paid.second@,
        ),
        after@.stage == Stage::FirstCommit,
        after@.slots.len() == 0,
        after@.reveal_deadline == 0,
{
    law_payout_table(
        before@.bet,
        before@.deposit,
        before@.slots[0].revealed,
        before@.slots[1].revealed,
    );
    before.lemma_wf();
}

/// Once the distribution stage is reached on a running game, the round is
/// owed: the distribution succeeds whenever the transfers go through and the
/// prize, two bets and a deposit, fits in 256 bits. Where a transfer is
/// rejected it fails with `DistributeFailed`.
pub proof fn law_distribution_is_owed(g: GameView)
    requires
        !g.locked,
        g.stage == Stage::Distribute,
        2 * g.bet + g.deposit < word_modulus(),
    ensures
        distribute_outcome(g, true).is_ok(),
        distribute_outcome(g, false) == Err::<(), GameError>(GameError::DistributeFailed),
{
}

/// A distribution pays by the table of payouts. With `a` and `b` the first
/// and the second player's revealed choices: the player whose move beats the
/// other's is paid two bets and a deposit and the other their deposit; equal
/// moves pay a bet and a deposit to each; and where nobody revealed, each is
/// paid the deposit and nothing else.
pub proof fn law_distribute_pays_the_table(before: RPS, after: RPS, paid: Settlement)
    requires
        before.wf(),
        before.distribute_step(&after, paid),
    ensures
        ({
            let a = before@.slots[0].revealed;
            let b = before@.slots[1].revealed;
            let bet = before@.bet;
            let deposit = before@.deposit;
            &&& beats(a, b) ==> paid.first_payout@ == 2 * bet + deposit && paid.second_payout@
                == deposit
            &&& beats(b, a) ==> paid.second_payout@ == 2 * bet + deposit && paid.first_payout@
                == deposit
            &&& a == b && a != Choice::Hidden ==> paid.first_payout@ == bet + deposit
                && paid.second_payout@ == bet + deposit
            &&& a == Choice::Hidden && b == Choice::Hidden ==> paid.first_payout@ == deposit
                && paid.second_payout@ == deposit
            &&& a != Choice::Hidden && b == Choice::Hidden ==> paid.first_payout@ == 2 * bet
                + deposit && paid.second_payout@ == 0
            &&& a == Choice::Hidden && b != Choice::Hidden ==> paid.second_payout@ == 2 * bet
                + deposit && paid.first_payout@ == 0
        }),
{
}

/// While the second reveal is awaited, the forfeit cannot be forced at a
/// block up to the deadline, and can at any later block. Once forced, the
/// player who revealed wins the round: two bets and a deposit are theirs,
/// and the absent player is paid nothing.
pub proof fn law_forfeit_after_deadline(g: GameView, height: nat)
    requires
        g.consistent(),
        !g.locked,
        g.stage == Stage::SecondReveal,
    ensures
        height <= g.reveal_deadline ==> forfeit_outcome(g, height) == Err::<(), GameError>(
            GameError::InvalidStage,
        ),
        height > g.reveal_deadline ==> forfeit_outcome(g, height).is_ok(),
        g.slots[1].revealed == Choice::Hidden ==> outcome_of(
            g.slots[0].revealed,
            g.slots[1].revealed,
        ) == Outcome::FirstWins && shares_due(g).first_payout == 2 * g.bet + g.deposit
            && shares_due(g).second_payout == 0,
        g.slots[0].revealed == Choice::Hidden ==> outcome_of(
            g.slots[0].revealed,
            g.slots[1].revealed,
        ) == Outcome::SecondWins && shares_due(g).second_payout == 2 * g.bet + g.deposit
            && shares_due(g).first_payout == 0,
{
}

/// Suspending a suspended game, or resuming a running one, changes nothing:
/// doing either twice is the same as doing it once.
pub proof fn law_lock_idempotent(g: GameView, locked: bool)
    ensures
        g.with_lock(locked).with_lock(locked) == g.with_lock(locked),
        g.with_lock(locked).locked == locked,
        g.locked == locked ==> g.with_lock(locked) == g,
{
}

/// The stage only moves forward: a reveal leads from the first reveal to
/// the second and from the second to the distribution, and the deadline is
/// armed by the first reveal alone.
pub proof fn law_reveal_advances(g: GameView, seat: int, choice: Choice, height: nat)
    requires
        g.consistent(),
        g.stage == Stage::FirstReveal || g.stage == Stage::SecondReveal,
        0 <= seat < 2,
        choice != Choice::Hidden,
        g.slots[seat].revealed == Choice::Hidden,
    ensures
        after_reveal(g, seat, choice, height).consistent(),
        g.stage == Stage::FirstReveal ==> after_reveal(g, seat, choice, height).stage
            == Stage::SecondReveal,
        g.stage == Stage::SecondReveal ==> after_reveal(g, seat, choice, height).stage
            == Stage::Distribute && after_reveal(g, seat, choice, height).reveal_deadline
            == g.reveal_deadline,
        after_reveal(g, seat, choice, height).slots[seat].revealed == choice,
        after_reveal(g, seat, choice, height).slots[1 - seat] == g.slots[1 - seat],
{
}

/// A suspended game refuses every step that would move a balance or the
/// stage.
pub proof fn law_locked_game_refuses(
    g: GameView,
    sender: Seq<u8>,
    held: nat,
    value: nat,
    choice: u8,
    digest: Seq<u8>,
    height: nat,
    paid: bool,
)
    requires
        g.locked,
    ensures
        commit_outcome(g, held, sender, value) == Err::<nat, GameError>(GameError::Locked),
        reveal_outcome(g, sender, choice, digest) == Err::<(), GameError>(GameError::Locked),
        forfeit_outcome(g, height) == Err::<(), GameError>(GameError::Locked),
        distribute_outcome(g, paid) == Err::<(), GameError>(
            GameError::Locked,
        ),
{
}

/// On a running game, a step taken outside its stage fails with
/// `InvalidStage`.
pub proof fn law_out_of_stage_is_refused(
    g: GameView,
    sender: Seq<u8>,
    held: nat,
    value: nat,
    choice: u8,
    digest: Seq<u8>,
    height: nat,
    paid: bool,
)
    requires
        !g.locked,
    ensures
        g.stage != Stage::FirstCommit && g.stage != Stage::SecondCommit ==> commit_outcome(
            g,
            held,
            sender,
            value,
        ) == Err::<nat, GameError>(GameError::InvalidStage),
        g.stage != Stage::FirstReveal && g.stage != Stage::SecondReveal ==> reveal_outcome(
            g,
            sender,
            choice,
            digest,
        ) == Err::<(), GameError>(GameError::InvalidStage),
        g.stage != Stage::SecondReveal ==> forfeit_outcome(g, height) == Err::<(), GameError>(
            GameError::InvalidStage,
        ),
        g.stage != Stage::Distribute ==> distribute_outcome(g, paid)
            == Err::<(), GameError>(GameError::InvalidStage),
{
}

/// The stage moves forward one step at a time, and back to the first commit
/// only by a distribution: a commit, a reveal and a forced forfeit each lead
/// to a later stage, and all of them keep a consistent game consistent.
pub proof fn law_stage_moves_forward(
    g: GameView,
    sender: Address,
    commitment: Bytes32,
    seat: int,
    choice: Choice,
    height: nat,
)
    requires
        g.consistent(),
    ensures
        (g.stage == Stage::FirstCommit || g.stage == Stage::SecondCommit) ==> stage_code(
            after_commit(g, sender, commitment).stage,
        ) == stage_code(g.stage) + 1,
        (g.stage == Stage::FirstCommit || g.stage == Stage::SecondCommit) && g.seat_of(
            sender@,
        ).is_none() ==> after_commit(g, sender, commitment).consistent(),
        (g.stage == Stage::FirstReveal || g.stage == Stage::SecondReveal) ==> stage_code(
            after_reveal(g, seat, choice, height).stage,
        ) == stage_code(g.stage) + 1,
        g.stage == Stage::SecondReveal ==> (GameView { stage: Stage::Distribute, ..g }).consistent(),
        after_distribute(g).stage == Stage::FirstCommit,
        after_distribute(g).consistent(),
        after_distribute(g).reveal_deadline == 0,
{
}

/// A snapshot taken from a suspended game can be imported into any
/// suspended game whose escrow holds a stake for each of its seats, and into
/// no other.
pub proof fn law_snapshot_round_trip(source: GameView, target: GameView, snapshot: Snapshot)
    requires
        target.locked,
        snapshot.valid(),
        snapshot.describes() == source,
    ensures
        import_outcome(target, &snapshot, true).is_ok(),
        import_outcome(target, &snapshot, false) == Err::<(), GameError>(
            GameError::InsufficientFunds,
        ),
        source.locked,
        source.consistent(),
{
}

/// A commit that sends less than the bet and the deposit is refused for
/// want of funds, whoever sends it, in both commit stages.
pub proof fn law_short_commit_is_refused(g: GameView, held: nat, sender: Seq<u8>, value: nat)
    requires
        !g.locked,
        g.stage == Stage::FirstCommit || g.stage == Stage::SecondCommit,
        value < g.bet + g.deposit,
    ensures
        commit_outcome(g, held, sender, value) == Err::<nat, GameError>(
            GameError::InsufficientFunds,
        ),
{
}

} // verus!
