//! The three moves, and who wins a round.

use vstd::prelude::*;

verus! {

/// What a player has revealed: nothing yet, or one of the three moves.
#[derive(Clone, Copy, Debug, PartialEq, Eq, Structural)]
pub enum Choice {
    /// Nothing revealed.
    Hidden,
    Rock,
    Paper,
    Scissors,
}

/// How a round ends.
#[derive(Clone, Copy, Debug, PartialEq, Eq, Structural)]
pub enum Outcome {
    /// Both revealed the same move.
    Draw,
    /// The first player's move beats the second's, or the second never revealed.
    FirstWins,
    /// The second player's move beats the first's, or the first never revealed.
    SecondWins,
    /// Neither player revealed.
    Invalid,
}

/// The number was none of 0 (nothing), 1 (rock), 2 (paper), 3 (scissors).
#[derive(Clone, Copy, Debug, PartialEq, Eq, Structural)]
pub struct InvalidChoice;

/// Whether move `a` beats move `b`: rock beats scissors, scissors beats paper,
/// paper beats rock.
pub open spec fn beats(a: Choice, b: Choice) -> bool {
    ||| (a == Choice::Rock && b == Choice::Scissors)
    ||| (a == Choice::Scissors && b == Choice::Paper)
    ||| (a == Choice::Paper && b == Choice::Rock)
}

/// The outcome of a round in which the first player revealed `a` and the
/// second `b`. A player who revealed nothing loses to one who revealed a move.
pub open spec fn outcome_of(a: Choice, b: Choice) -> Outcome {
    if a == Choice::Hidden && b == Choice::Hidden {
        Outcome::Invalid
    } else if b == Choice::Hidden {
        Outcome::FirstWins
    } else if a == Choice::Hidden {
        Outcome::SecondWins
    } else if a == b {
        Outcome::Draw
    } else if beats(a, b) {
        Outcome::FirstWins
    } else {
        Outcome::SecondWins
    }
}

/// The choice that the number `code` stands for: 1 is rock, 2 paper, 3
/// scissors, and any other number nothing.
pub open spec fn choice_of_code(code: u8) -> Choice {
    if code == 1 {
        Choice::Rock
    } else if code == 2 {
        Choice::Paper
    } else if code == 3 {
        Choice::Scissors
    } else {
        Choice::Hidden
    }
}

impl Choice {
    /// The number that stands for the choice.
    pub open spec fn code(self) -> u8 {
        match self {
            Choice::Hidden => 0,
            Choice::Rock => 1,
            Choice::Paper => 2,
            Choice::Scissors => 3,
        }
    }

    /// Whether the choice is one of the three moves.
    pub open spec fn is_move(self) -> bool {
        self != Choice::Hidden
    }

    /// The choice that `value` stands for; numbers above 3 stand for none.
    pub fn from_u8(value: u8) -> (r: Result<Choice, InvalidChoice>)
        ensures
            r.is_ok() <==> value <= 3,
            r.is_ok() ==> r.unwrap() == choice_of_code(value) && r.unwrap().code() == value,
    {
        if value == 0 {
            Ok(Choice::Hidden)
        } else if value == 1 {
            Ok(Choice::Rock)
        } else if value == 2 {
            Ok(Choice::Paper)
        } else if value == 3 {
            Ok(Choice::Scissors)
        } else {
            Err(InvalidChoice)
        }
    }

    /// The number that stands for the choice.
    pub fn to_u8(self) -> (r: u8)
        ensures
            r == self.code(),
            r <= 3,
    {
        match self {
            Choice::Hidden => 0,
            Choice::Rock => 1,
            Choice::Paper => 2,
            Choice::Scissors => 3,
        }
    }

    /// Whether the choice is one of the three moves.
    pub fn played(self) -> (r: bool)
        ensures
            r == self.is_move(),
    {
        match self {
            Choice::Hidden => false,
            _ => true,
        }
    }
}

impl From<Choice> for u8 {
    /// The number that stands for the choice.
    fn from(choice: Choice) -> (r: u8) {
        choice.to_u8()
    }
}

impl vstd::std_specs::convert::FromSpecImpl<Choice> for u8 {
    open spec fn obeys_from_spec() -> bool {
        true
    }

    open spec fn from_spec(choice: Choice) -> u8 {
        choice.code()
    }
}

/// Decides a round from the two revealed choices.
pub fn resolve(a: Choice, b: Choice) -> (r: Outcome)
    ensures
        r == outcome_of(a, b),
{
    match (a, b) {
        (Choice::Hidden, Choice::Hidden) => Outcome::Invalid,
        (_, Choice::Hidden) => Outcome::FirstWins,
        (Choice::Hidden, _) => Outcome::SecondWins,
        (Choice::Rock, Choice::Scissors) | (Choice::Scissors, Choice::Paper) | (
            Choice::Paper,
            Choice::Rock,
        ) => Outcome::FirstWins,
        (Choice::Rock, Choice::Rock) | (Choice::Paper, Choice::Paper) | (
            Choice::Scissors,
            Choice::Scissors,
        ) => Outcome::Draw,
        _ => Outcome::SecondWins,
    }
}

/// Swapping the players swaps the winner and changes nothing else.
pub proof fn lemma_resolve_symmetric(a: Choice, b: Choice)
    ensures
        outcome_of(a, b) == Outcome::FirstWins <==> outcome_of(b, a) == Outcome::SecondWins,
        outcome_of(a, b) == Outcome::Draw <==> outcome_of(b, a) == Outcome::Draw,
        outcome_of(a, b) == Outcome::Invalid <==> outcome_of(b, a) == Outcome::Invalid,
{
}

/// A round between two revealed moves is a draw exactly when the moves are
/// equal, and otherwise goes to the player whose move beats the other's.
pub proof fn lemma_resolve_moves(a: Choice, b: Choice)
    requires
        a.is_move(),
        b.is_move(),
    ensures
        outcome_of(a, b) == Outcome::Draw <==> a == b,
        outcome_of(a, b) == Outcome::FirstWins <==> beats(a, b),
        outcome_of(a, b) == Outcome::SecondWins <==> beats(b, a),
        outcome_of(a, b) != Outcome::Invalid,
{
}

} // verus!
