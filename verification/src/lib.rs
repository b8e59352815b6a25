//! A two-player rock-paper-scissors wager: commit-reveal state machine,
//! escrow ledger and payout rules, with verified contracts.

pub mod word;
pub mod choice;
pub mod commitment;
pub mod error;
pub mod ledger;
pub mod game;
pub mod machine;
pub mod laws;
