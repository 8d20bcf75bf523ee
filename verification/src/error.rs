//! Error codes of the market program.
//!
//! Every entry point validates all of its preconditions before mutating any
//! state; the first violated precondition aborts the whole call with its
//! specific code and nothing is changed.

use vstd::prelude::*;

verus! {

/// Market initialisation failures.
#[derive(Clone, Copy, Debug, PartialEq, Eq, Structural)]
pub enum InitError {
    /// No facets have been provided for the market to be initialised.
    NoFacetsProvided,
    /// The betting timeout is larger than the maximum allowed (2 weeks).
    TimeoutTooLarge,
    /// The betting timeout is smaller than the minimum allowed (1 day).
    TimeoutTooSmall,
}

/// Facet identity failures.
#[derive(Clone, Copy, Debug, PartialEq, Eq, Structural)]
pub enum FacetError {
    /// The selected facet is not present in the given market.
    FacetNotInMarket,
    /// The poll and escrow must be for the same facet.
    NotTheSameFacet,
}

/// Treasury identity failures.
#[derive(Clone, Copy, Debug, PartialEq, Eq, Structural)]
pub enum TreasuryError {
    /// The authority of the supplied treasury is not the authority provided.
    TreasuryAuthoritiesDontMatch,
    /// This is not the expected treasury.
    WrongTreasury,
    /// The account supplied is not for the treasury program.
    NotTheRightTreasuryProgramPK,
}

/// Voting-token mint identity failures.
#[derive(Clone, Copy, Debug, PartialEq, Eq, Structural)]
pub enum MintError {
    /// This is not the expected voting-tokens mint.
    NotTheRightMintPK,
    /// The account supplied is not for the voting-tokens program.
    NotTheRightMintProgramPK,
}

/// Market identity and lifecycle failures.
#[derive(Clone, Copy, Debug, PartialEq, Eq, Structural)]
pub enum MarketError {
    /// The poll/escrow must be for the same market.
    NotTheSameMarket,
    /// The market is in the wrong state.
    MarketInWrongState,
}

/// Reference-token identity failures.
#[derive(Clone, Copy, Debug, PartialEq, Eq, Structural)]
pub enum TokenError {
    /// The token address provided does not correspond to the market.
    NotTheSameToken,
}

/// Wager ingestion failures.
#[derive(Clone, Copy, Debug, PartialEq, Eq, Structural)]
pub enum BettingError {
    /// You have tried to start an ongoing market.
    StartingWithBetsInPlace,
    /// The bettor needs to be the same person who signs the transaction.
    SignerDifferentFromBettor,
    /// Not enough funds to place the bet.
    InsufficientFunds,
    /// The market is not in the betting state right now.
    MarketNotInBettingState,
    /// There need to be standard wagers placed before an underdog bet can be placed.
    UnderdogBetTooEarly,
    /// Cannot place an underdog bet with a regular bet already in place.
    UnderdogWithOtherBet,
    /// Cannot place another bet when an underdog bet is in place.
    BetWithUnderdogBet,
    /// Too many bettors in the market.
    TooManyBettors,
}

/// Vote ingestion failures.
#[derive(Clone, Copy, Debug, PartialEq, Eq, Structural)]
pub enum VotingError {
    /// You have tried to start an ongoing poll.
    StartingWithVotesInPlace,
    /// It is not the voting period yet.
    NotVotingTime,
    /// The voter needs to come from the same person who signs the transaction.
    SignerDifferentFromVoter,
    /// Provided token account does not match the mint and signer.
    IncorrectATA,
    /// Provided token account is not for the treasury.
    IncorrectTreasuryATA,
    /// Cannot vote on a market in which you have already placed bets.
    CannotVoteWithBets,
    /// Only one vote allowed per market.
    AlreadyVoted,
    /// The voting has finished for this round.
    VotingClosed,
    /// Not enough voting tokens to make that transaction.
    InsufficientVotingTokens,
    /// The mint provided is not the expected mint.
    IncorrectMint,
    /// Voting amount too low.
    AmountTooLow,
    /// Voting amount too high.
    AmountTooHigh,
}

/// Settlement and round-close failures.
#[derive(Clone, Copy, Debug, PartialEq, Eq, Structural)]
pub enum ResultsError {
    /// Voting has not yet finished.
    VotingNotFinished,
    /// Given address is not a bettor in this market-facet combination.
    NotABettor,
    /// The signer is not the person receiving the results.
    SignerNotPK,
    /// This person is either not a voter or has already tried to receive their voting reward.
    NotAVoter,
    /// The wager numbers don't add up.
    WagersDontAddUp,
    /// The votes don't add up.
    VotesDontAddUp,
    /// This bettor has already been reimbursed.
    BettorAlreadyConsolidated,
    /// This voter has already been reimbursed.
    VoterAlreadyConsolidated,
    /// Not all of the bets have been consolidated.
    NotAllBetsConsolidated,
    /// Not all of the votes have been consolidated.
    NotAllVotesConsolidated,
}

/// Cross-program invocation failures.
#[derive(Clone, Copy, Debug, PartialEq, Eq, Structural)]
pub enum CpiError {
    /// The program ID for the cross-call was unexpected.
    WrongProgramID,
}

/// The error surface of the market program: each entry point aborts with
/// exactly one of these codes, and the ledgers are left untouched.
#[derive(Clone, Copy, Debug, PartialEq, Eq, Structural)]
pub enum ProtocolError {
    Init(InitError),
    Facet(FacetError),
    Treasury(TreasuryError),
    Mint(MintError),
    Market(MarketError),
    Token(TokenError),
    Betting(BettingError),
    Voting(VotingError),
    Results(ResultsError),
    Cpi(CpiError),
}

} // verus!
