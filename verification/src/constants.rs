//! Protocol parameters shared by the market, treasury and token programs.

use vstd::prelude::*;

verus! {

/// Number of lamports in one SOL.
pub const LAMPORTS_PER_SOL: u64 = 1_000_000_000;

/// Largest betting timeout an operator may configure (two weeks, ms).
pub const MAX_ALLOWED_TIMEOUT: i64 = 14 * 24 * 60 * 60 * 1_000;

/// Smallest betting timeout an operator may configure (one day, ms).
pub const MIN_ALLOWED_TIMEOUT: i64 = 24 * 60 * 60 * 1_000;

/// Maximum number of people placing wagers in one round.
pub const MAX_WAGERS: u16 = 10_000;

/// Largest voting-token stake a single vote may carry.
pub const MAX_VOTE_AMOUNT: u64 = 100 * LAMPORTS_PER_SOL;

/// Smallest voting-token stake a single vote may carry.
pub const MIN_VOTE_AMOUNT: u64 = 1_000_000;

/// Number of votes at which a poll closes.
pub const VOTE_THRESHOLD: u16 = 1_000;

/// Share of the winnings pot paid out to winning bettors (per cent).
pub const PERCENTAGE_WINNINGS_KEPT: u64 = 95;

/// Fixed-point scaling buffer applied before each division in the
/// returns calculation, to preserve precision through chained
/// multiply-divide sequences.
pub const DIV_BUFFER: u128 = 1_000_000_000;

} // verus!
