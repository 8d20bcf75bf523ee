//! A parimutuel prediction-market settlement engine.
//!
//! Markets run rounds over a binary outcome ("facet") of a reference token.
//! Bettors stake for, against, or on the underdog while betting is open;
//! token holders then vote on the real-world outcome; once the vote
//! threshold is reached each participant claims settlement exactly once,
//! and the round closes when every roster member has been consolidated.
//!
//! The ledger runtime around the protocol (account derivation, signatures,
//! fund transfers, the clock) is not modelled here: entry points take plain
//! state and a clock reading, and report the transfers to perform.

pub mod constants;
pub mod error;
pub mod states;
pub mod functions;
pub mod initialise_market;
pub mod start_market;
pub mod wager;
pub mod vote;
pub mod wager_results;
pub mod voter_results;
pub mod call_market;
pub mod laws;
pub mod invariants;
pub mod treasury;
pub mod voting_tokens;
