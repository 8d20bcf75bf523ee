//! Per-voter settlement: once consolidation has begun, each registered
//! voter claims their reward exactly once.
//!
//! A voter on the poll's winning side is reimbursed their staked amount;
//! one on the losing side gets nothing.  On a tie every voter has their
//! original token stake minted back instead.  The vote record's amount is
//! zeroed before any payout is reported.

use vstd::prelude::*;

use crate::error::{FacetError, ProtocolError, ResultsError, TokenError, TreasuryError};
use crate::functions::{calc_winnings_from_votes, spec_winnings_from_votes};
use crate::states::{
    facet_registered, poll_direction, poll_tied, roster_contains, roster_record, roster_seq,
    Market, MarketParams, MarketState, Poll, Voter,
};

verus! {

/// What a settled voter is owed; the caller performs the transfers.
#[derive(Clone, Copy, Debug, PartialEq, Eq, Structural)]
pub enum VoterPayout {
    /// The poll tied: the voter's original token stake is minted back.
    TieRefund { amount: u64 },
    /// The voter chose the losing side: nothing is paid.
    NoPayout,
    /// The voter chose the winning side: `amount` is reimbursed from
    /// treasury custody.
    Winnings { amount: u64 },
}

/// State read and written by one voter-settlement call.
pub struct VoterResult {
    /// The treasury signing the payout, and the address configured for
    /// this deployment.
    pub treasury: u64,
    pub treasury_address: u64,
    /// The voter claiming settlement.
    pub signer: u64,
    pub market: Market,
    pub poll: Poll,
    /// The claimant's vote record for this market facet.
    pub voter: Voter,
}

/// The first violated voter-settlement precondition, if any: settlement has
/// begun, the claimant is a registered voter not yet consolidated, and the
/// facet, token and treasury identities match.
pub open spec fn voter_result_guard(s: VoterResult, params: MarketParams) -> Option<
    ProtocolError,
> {
    if s.market.state != MarketState::Consolidating {
        Some(ProtocolError::Results(ResultsError::VotingNotFinished))
    } else if !roster_seq(s.poll.voters).contains(s.signer) {
        Some(ProtocolError::Results(ResultsError::NotAVoter))
    } else if roster_seq(s.poll.voters_consolidated).contains(s.signer) {
        Some(ProtocolError::Results(ResultsError::VoterAlreadyConsolidated))
    } else if !s.market.facets@.contains(params.facet) {
        Some(ProtocolError::Facet(FacetError::FacetNotInMarket))
    } else if s.market.token != params.authensus_token {
        Some(ProtocolError::Token(TokenError::NotTheSameToken))
    } else if s.treasury != s.treasury_address {
        Some(ProtocolError::Treasury(TreasuryError::WrongTreasury))
    } else {
        None
    }
}

/// What the claimant is owed, from the pre-call state.
pub open spec fn spec_voter_payout(s: VoterResult) -> VoterPayout {
    if poll_tied(s.poll) {
        VoterPayout::TieRefund { amount: s.voter.amount }
    } else {
        let winnings = spec_winnings_from_votes(
            poll_direction(s.poll),
            s.voter.direction,
            s.voter.amount,
        );
        if winnings == 0 {
            VoterPayout::NoPayout
        } else {
            VoterPayout::Winnings { amount: winnings }
        }
    }
}

/// A successful settlement's effect: the claimant joins the consolidated
/// roster and the vote record's amount is zeroed; everything else is
/// untouched.
pub open spec fn voter_consolidated_applied(pre: VoterResult, post: VoterResult) -> bool {
    &&& post.treasury == pre.treasury
    &&& post.treasury_address == pre.treasury_address
    &&& post.signer == pre.signer
    &&& post.market == pre.market
    &&& post.poll.market == pre.poll.market
    &&& post.poll.facet == pre.poll.facet
    &&& post.poll.voters == pre.poll.voters
    &&& post.poll.voters_consolidated is Some
    &&& roster_seq(post.poll.voters_consolidated) == roster_seq(
        pre.poll.voters_consolidated,
    ).push(pre.signer)
    &&& post.poll.total_for == pre.poll.total_for
    &&& post.poll.total_against == pre.poll.total_against
    &&& post.voter == (Voter { amount: 0, ..pre.voter })
}

impl VoterResult {
    /// Settles the claimant's vote for this round.  Returns the first
    /// violated precondition with nothing changed; on success the claimant
    /// is consolidated, their vote record is zeroed, the payout owed is
    /// returned for the caller to perform, and a second call for the same
    /// claimant is guaranteed to fail as a double action.
    pub fn distribute_sol_to_voter(&mut self, params: &MarketParams) -> (r: Result<
        VoterPayout,
        ProtocolError,
    >)
        ensures
            match voter_result_guard(*old(self), *params) {
                Some(e) => r == Err::<VoterPayout, ProtocolError>(e) && *final(self) == *old(
                    self,
                ),
                None => {
                    &&& r == Ok::<VoterPayout, ProtocolError>(spec_voter_payout(*old(self)))
                    &&& voter_consolidated_applied(*old(self), *final(self))
                    &&& voter_result_guard(*final(self), *params) == Some(
                        ProtocolError::Results(ResultsError::VoterAlreadyConsolidated),
                    )
                },
            },
    {
        if self.market.state != MarketState::Consolidating {
            return Err(ProtocolError::Results(ResultsError::VotingNotFinished));
        }
        let is_voter: bool = match &self.poll.voters {
            Some(v) => roster_contains(v, self.signer),
            None => false,
        };
        if !is_voter {
            return Err(ProtocolError::Results(ResultsError::NotAVoter));
        }
        let is_consolidated: bool = match &self.poll.voters_consolidated {
            Some(v) => roster_contains(v, self.signer),
            None => false,
        };
        if is_consolidated {
            return Err(ProtocolError::Results(ResultsError::VoterAlreadyConsolidated));
        }
        if !facet_registered(&self.market.facets, params.facet) {
            return Err(ProtocolError::Facet(FacetError::FacetNotInMarket));
        }
        if self.market.token != params.authensus_token {
            return Err(ProtocolError::Token(TokenError::NotTheSameToken));
        }
        if self.treasury != self.treasury_address {
            return Err(ProtocolError::Treasury(TreasuryError::WrongTreasury));
        }

        roster_record(&mut self.poll.voters_consolidated, self.signer);
        proof {
            let s = roster_seq(self.poll.voters_consolidated);
            assert(s[s.len() - 1] == self.signer);
            assert(s.contains(self.signer));
        }

        if self.poll.total_for == self.poll.total_against {
            // Tie: the voter's original token stake is minted back.
            let amount: u64 = self.voter.amount;
            self.voter.amount = 0;
            return Ok(VoterPayout::TieRefund { amount });
        }

        let direction: bool = self.poll.total_for > self.poll.total_against;
        let winnings: u64 = calc_winnings_from_votes(
            direction,
            self.voter.direction,
            self.voter.amount,
        );
        self.voter.amount = 0;

        if winnings == 0 {
            return Ok(VoterPayout::NoPayout);
        }
        Ok(VoterPayout::Winnings { amount: winnings })
    }
}

} // verus!
