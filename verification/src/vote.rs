//! Vote ingestion: after betting closes, token holders who placed no bets
//! stake voting tokens on the real-world outcome.
//!
//! Each voter counts as exactly one vote toward the poll's quorum; the
//! staked token amount only weights the voter's eventual payout.  The first
//! vote that finds the market still in `Betting` flips it to `Voting`.

use vstd::prelude::*;

use crate::constants::{MAX_VOTE_AMOUNT, MIN_VOTE_AMOUNT, VOTE_THRESHOLD};
use crate::error::{FacetError, ProtocolError, TokenError, VotingError};
use crate::states::{
    betting_expired, facet_registered, poll_tally, roster_contains, roster_record, roster_seq,
    Escrow, Market, MarketParams, MarketState, Poll, Voter,
};

verus! {

/// State read and written by one vote call.
pub struct Vote {
    /// The voting participant.
    pub signer: u64,
    pub market: Market,
    pub escrow: Escrow,
    pub poll: Poll,
    /// The participant's vote record for this market facet.
    pub voter: Voter,
    /// Voting-token balance of the participant, read from the ledger.
    pub voting_token_balance: u64,
}

/// The first violated vote precondition, if any: the token matches the
/// market, the betting round has ended at `now` and the market is not past
/// voting, the participant has not voted and placed no bets, the poll is
/// below its threshold, the stake is covered and within bounds, and the
/// facet is registered.
pub open spec fn add_vote_guard(s: Vote, params: MarketParams, now: i64, amount: u64) -> Option<
    ProtocolError,
> {
    if s.market.token != params.authensus_token {
        Some(ProtocolError::Token(TokenError::NotTheSameToken))
    } else if !betting_expired(s.market, now) {
        Some(ProtocolError::Voting(VotingError::NotVotingTime))
    } else if !(s.market.state == MarketState::Betting || s.market.state == MarketState::Voting) {
        Some(ProtocolError::Voting(VotingError::NotVotingTime))
    } else if roster_seq(s.poll.voters).contains(s.signer) {
        Some(ProtocolError::Voting(VotingError::AlreadyVoted))
    } else if poll_tally(s.poll) >= VOTE_THRESHOLD as int {
        Some(ProtocolError::Voting(VotingError::VotingClosed))
    } else if s.voting_token_balance < amount {
        Some(ProtocolError::Voting(VotingError::InsufficientVotingTokens))
    } else if amount < MIN_VOTE_AMOUNT {
        Some(ProtocolError::Voting(VotingError::AmountTooLow))
    } else if amount > MAX_VOTE_AMOUNT {
        Some(ProtocolError::Voting(VotingError::AmountTooHigh))
    } else if roster_seq(s.escrow.bettors).contains(s.signer) {
        Some(ProtocolError::Voting(VotingError::CannotVoteWithBets))
    } else if !s.market.facets@.contains(params.facet) {
        Some(ProtocolError::Facet(FacetError::FacetNotInMarket))
    } else {
        None
    }
}

/// An accepted vote: the market is in `Voting` (flipped from `Betting` if
/// need be), the voter joins the roster, one vote is tallied on the chosen
/// side, and the vote record holds the stake and direction.
pub open spec fn add_vote_applied(
    pre: Vote,
    post: Vote,
    params: MarketParams,
    amount: u64,
    direction: bool,
) -> bool {
    &&& post.market == (Market { state: MarketState::Voting, ..pre.market })
    &&& post.signer == pre.signer
    &&& post.escrow == pre.escrow
    &&& post.voting_token_balance == pre.voting_token_balance
    &&& post.poll.market == pre.poll.market
    &&& post.poll.facet == pre.poll.facet
    &&& post.poll.voters is Some
    &&& roster_seq(post.poll.voters) == roster_seq(pre.poll.voters).push(pre.signer)
    &&& post.poll.voters_consolidated == pre.poll.voters_consolidated
    &&& post.poll.total_for == pre.poll.total_for + (if direction {
        1int
    } else {
        0int
    })
    &&& post.poll.total_against == pre.poll.total_against + (if direction {
        0int
    } else {
        1int
    })
    &&& post.voter == (Voter {
        pk: pre.signer,
        market: params.authensus_token,
        facet: params.facet,
        amount,
        direction,
    })
}

impl Vote {
    /// Casts a vote of one unit in `direction`, staking `amount` voting
    /// tokens.  Returns the first violated precondition with nothing
    /// changed; on success the caller transfers `amount` voting tokens to
    /// treasury custody.
    pub fn add_vote(
        &mut self,
        params: &MarketParams,
        now: i64,
        amount: u64,
        direction: bool,
    ) -> (r: Result<(), ProtocolError>)
        ensures
            match add_vote_guard(*old(self), *params, now, amount) {
                Some(e) => r == Err::<(), ProtocolError>(e) && *final(self) == *old(self),
                None => r == Ok::<(), ProtocolError>(()) && add_vote_applied(
                    *old(self),
                    *final(self),
                    *params,
                    amount,
                    direction,
                ),
            },
    {
        if self.market.token != params.authensus_token {
            return Err(ProtocolError::Token(TokenError::NotTheSameToken));
        }
        if !((self.market.start_time as i128) + (self.market.timeout as i128) < (now as i128)) {
            return Err(ProtocolError::Voting(VotingError::NotVotingTime));
        }
        if !(self.market.state == MarketState::Betting || self.market.state
            == MarketState::Voting) {
            return Err(ProtocolError::Voting(VotingError::NotVotingTime));
        }
        let already_voted: bool = match &self.poll.voters {
            Some(v) => roster_contains(v, self.signer),
            None => false,
        };
        if already_voted {
            return Err(ProtocolError::Voting(VotingError::AlreadyVoted));
        }
        if (self.poll.total_for as u32) + (self.poll.total_against as u32) >= (
        VOTE_THRESHOLD as u32) {
            return Err(ProtocolError::Voting(VotingError::VotingClosed));
        }
        if self.voting_token_balance < amount {
            return Err(ProtocolError::Voting(VotingError::InsufficientVotingTokens));
        }
        if amount < MIN_VOTE_AMOUNT {
            return Err(ProtocolError::Voting(VotingError::AmountTooLow));
        }
        if amount > MAX_VOTE_AMOUNT {
            return Err(ProtocolError::Voting(VotingError::AmountTooHigh));
        }
        let has_bets: bool = match &self.escrow.bettors {
            Some(v) => roster_contains(v, self.signer),
            None => false,
        };
        if has_bets {
            return Err(ProtocolError::Voting(VotingError::CannotVoteWithBets));
        }
        if !facet_registered(&self.market.facets, params.facet) {
            return Err(ProtocolError::Facet(FacetError::FacetNotInMarket));
        }

        // The first vote after the timeout moves the market on to voting.
        if self.market.state == MarketState::Betting {
            self.market.state = MarketState::Voting;
        }

        roster_record(&mut self.poll.voters, self.signer);
        if direction {
            self.poll.total_for = self.poll.total_for + 1;
        } else {
            self.poll.total_against = self.poll.total_against + 1;
        }

        // The not-already-voted check makes this record fresh this round.
        self.voter = Voter {
            pk: self.signer,
            market: params.authensus_token,
            facet: params.facet,
            amount,
            direction,
        };

        Ok(())
    }
}

} // verus!
