//! Per-bettor settlement: once voting has finished, each registered bettor
//! claims their returns exactly once.
//!
//! The claim adds the bettor to the consolidated roster and zeroes their
//! stake record *before* any payout is reported, so a repeated call fails
//! with a double-action error and cannot move funds twice.  On a tie every
//! bettor is refunded their full stake with zero profit and the returns
//! calculator is never consulted.

use vstd::prelude::*;

use crate::constants::{PERCENTAGE_WINNINGS_KEPT, VOTE_THRESHOLD};
use crate::error::{FacetError, ProtocolError, ResultsError, TokenError, TreasuryError};
use crate::functions::{
    compute_returns, returns_defined, returns_fits, returns_within_limits, spec_bet_returned,
    spec_winnings_pre,
};
use crate::states::{
    facet_registered, poll_direction, poll_tally, poll_tied, roster_contains, roster_record,
    roster_seq, Bettor, Escrow, Market, MarketParams, MarketState, Poll,
};

verus! {

/// What a settled bettor is owed; the caller performs the transfers.
#[derive(Clone, Copy, Debug, PartialEq, Eq, Structural)]
pub enum BettorPayout {
    /// The poll tied: the bettor's whole stake comes back, no profit and
    /// no tokens minted.
    TieRefund { amount: u64 },
    /// The bettor's side lost outright: nothing is reimbursed or minted.
    NoPayout,
    /// The bettor won: `bet_returned` lamports come back at par and
    /// `winnings` voting tokens are minted, the protocol fee already
    /// retained.
    Winner { bet_returned: u64, winnings: u64 },
}

/// State read and written by one bettor-settlement call.
pub struct WagerResult {
    /// The treasury signing the payout, and the address configured for
    /// this deployment.
    pub treasury: u64,
    pub treasury_address: u64,
    /// The bettor claiming settlement.
    pub signer: u64,
    pub market: Market,
    pub escrow: Escrow,
    /// The claimant's stake record for this market facet.
    pub bettor: Bettor,
    pub poll: Poll,
}

/// The wager numbers admit a settlement on this machine: on a tie the
/// bettor's stakes sum within the native width; otherwise the returns
/// calculation is defined on the pools, all its intermediates fit, and a
/// non-zero return leaves the fee multiplication in range.
pub open spec fn settlement_fits(s: WagerResult) -> bool {
    if poll_tied(s.poll) {
        s.bettor.tot_for + s.bettor.tot_against + s.bettor.tot_underdog <= u64::MAX
    } else {
        let dir = poll_direction(s.poll);
        &&& returns_defined(
            s.escrow.tot_for as int,
            s.escrow.tot_against as int,
            s.escrow.tot_underdog as int,
        )
        &&& returns_fits(
            dir,
            s.escrow.tot_for as int,
            s.escrow.tot_against as int,
            s.escrow.tot_underdog as int,
            s.bettor.tot_for as int,
            s.bettor.tot_against as int,
            s.bettor.tot_underdog as int,
        )
        &&& (spec_bet_returned(
            dir,
            s.escrow.tot_for as int,
            s.escrow.tot_against as int,
            s.escrow.tot_underdog as int,
            s.bettor.tot_for as int,
            s.bettor.tot_against as int,
            s.bettor.tot_underdog as int,
        ) != 0 ==> PERCENTAGE_WINNINGS_KEPT * spec_winnings_pre(
            dir,
            s.escrow.tot_for as int,
            s.escrow.tot_against as int,
            s.escrow.tot_underdog as int,
            s.bettor.tot_for as int,
            s.bettor.tot_against as int,
            s.bettor.tot_underdog as int,
        ) <= u64::MAX)
    }
}

/// The first violated bettor-settlement precondition, if any: voting has
/// finished, the claimant is a registered bettor not yet consolidated, the
/// facet, token and treasury identities match, and the wager numbers admit
/// a settlement.
pub open spec fn wager_result_guard(s: WagerResult, params: MarketParams) -> Option<
    ProtocolError,
> {
    if poll_tally(s.poll) < VOTE_THRESHOLD as int {
        Some(ProtocolError::Results(ResultsError::VotingNotFinished))
    } else if !roster_seq(s.escrow.bettors).contains(s.signer) {
        Some(ProtocolError::Results(ResultsError::NotABettor))
    } else if roster_seq(s.escrow.bettors_consolidated).contains(s.signer) {
        Some(ProtocolError::Results(ResultsError::BettorAlreadyConsolidated))
    } else if !s.market.facets@.contains(params.facet) {
        Some(ProtocolError::Facet(FacetError::FacetNotInMarket))
    } else if s.market.token != params.authensus_token {
        Some(ProtocolError::Token(TokenError::NotTheSameToken))
    } else if s.treasury != s.treasury_address {
        Some(ProtocolError::Treasury(TreasuryError::WrongTreasury))
    } else if !settlement_fits(s) {
        Some(ProtocolError::Results(ResultsError::WagersDontAddUp))
    } else {
        None
    }
}

/// What the claimant is owed, from the pre-call state: a full refund on a
/// tie, nothing when their side lost with nothing staked on the winner,
/// and otherwise par plus fee-adjusted winnings from the returns
/// calculator.
pub open spec fn spec_bettor_payout(s: WagerResult) -> BettorPayout {
    if poll_tied(s.poll) {
        BettorPayout::TieRefund {
            amount: (s.bettor.tot_for + s.bettor.tot_against + s.bettor.tot_underdog) as u64,
        }
    } else {
        let dir = poll_direction(s.poll);
        let bet_returned = spec_bet_returned(
            dir,
            s.escrow.tot_for as int,
            s.escrow.tot_against as int,
            s.escrow.tot_underdog as int,
            s.bettor.tot_for as int,
            s.bettor.tot_against as int,
            s.bettor.tot_underdog as int,
        );
        let winnings_pre = spec_winnings_pre(
            dir,
            s.escrow.tot_for as int,
            s.escrow.tot_against as int,
            s.escrow.tot_underdog as int,
            s.bettor.tot_for as int,
            s.bettor.tot_against as int,
            s.bettor.tot_underdog as int,
        );
        if bet_returned == 0 {
            BettorPayout::NoPayout
        } else {
            BettorPayout::Winner {
                bet_returned: bet_returned as u64,
                winnings: (PERCENTAGE_WINNINGS_KEPT * winnings_pre / 100) as u64,
            }
        }
    }
}

/// A successful settlement's effect: the claimant joins the consolidated
/// roster, the market moves from `Voting` to `Consolidating` if it had not
/// yet, and the claimant's stake record is zeroed; everything else is
/// untouched.
pub open spec fn bettor_consolidated_applied(pre: WagerResult, post: WagerResult) -> bool {
    &&& post.treasury == pre.treasury
    &&& post.treasury_address == pre.treasury_address
    &&& post.signer == pre.signer
    &&& post.market == (Market {
        state: if pre.market.state == MarketState::Voting {
            MarketState::Consolidating
        } else {
            pre.market.state
        },
        ..pre.market
    })
    &&& post.poll == pre.poll
    &&& post.escrow.initialiser == pre.escrow.initialiser
    &&& post.escrow.market == pre.escrow.market
    &&& post.escrow.facet == pre.escrow.facet
    &&& post.escrow.bettors == pre.escrow.bettors
    &&& post.escrow.bettors_consolidated is Some
    &&& roster_seq(post.escrow.bettors_consolidated) == roster_seq(
        pre.escrow.bettors_consolidated,
    ).push(pre.signer)
    &&& post.escrow.tot_for == pre.escrow.tot_for
    &&& post.escrow.tot_against == pre.escrow.tot_against
    &&& post.escrow.tot_underdog == pre.escrow.tot_underdog
    &&& post.bettor == (Bettor { tot_for: 0, tot_against: 0, tot_underdog: 0, ..pre.bettor })
}

impl WagerResult {
    /// Settles the claimant's wagers for this round.  Returns the first
    /// violated precondition with nothing changed; on success the claimant
    /// is consolidated, their stake record is zeroed, the payout owed is
    /// returned for the caller to perform, and a second call for the same
    /// claimant is guaranteed to fail as a double action.
    pub fn assign_tokens_and_markets_to_bettor(&mut self, params: &MarketParams) -> (r: Result<
        BettorPayout,
        ProtocolError,
    >)
        ensures
            match wager_result_guard(*old(self), *params) {
                Some(e) => r == Err::<BettorPayout, ProtocolError>(e) && *final(self) == *old(
                    self,
                ),
                None => {
                    &&& r == Ok::<BettorPayout, ProtocolError>(spec_bettor_payout(*old(self)))
                    &&& bettor_consolidated_applied(*old(self), *final(self))
                    &&& wager_result_guard(*final(self), *params) == Some(
                        ProtocolError::Results(ResultsError::BettorAlreadyConsolidated),
                    )
                },
            },
    {
        if (self.poll.total_for as u32) + (self.poll.total_against as u32) < (
        VOTE_THRESHOLD as u32) {
            return Err(ProtocolError::Results(ResultsError::VotingNotFinished));
        }
        let is_bettor: bool = match &self.escrow.bettors {
            Some(v) => roster_contains(v, self.signer),
            None => false,
        };
        if !is_bettor {
            return Err(ProtocolError::Results(ResultsError::NotABettor));
        }
        let is_consolidated: bool = match &self.escrow.bettors_consolidated {
            Some(v) => roster_contains(v, self.signer),
            None => false,
        };
        if is_consolidated {
            return Err(ProtocolError::Results(ResultsError::BettorAlreadyConsolidated));
        }
        if !facet_registered(&self.market.facets, params.facet) {
            return Err(ProtocolError::Facet(FacetError::FacetNotInMarket));
        }
        if self.market.token != params.authensus_token {
            return Err(ProtocolError::Token(TokenError::NotTheSameToken));
        }
        if self.treasury != self.treasury_address {
            return Err(ProtocolError::Treasury(TreasuryError::WrongTreasury));
        }

        if self.poll.total_for == self.poll.total_against {
            // Tie: everyone gets their stake back in full, no profit.
            let total_bets: u64 = match self.bettor.tot_for.checked_add(self.bettor.tot_against) {
                Some(t) => match t.checked_add(self.bettor.tot_underdog) {
                    Some(total) => total,
                    None => {
                        return Err(ProtocolError::Results(ResultsError::WagersDontAddUp));
                    },
                },
                None => {
                    return Err(ProtocolError::Results(ResultsError::WagersDontAddUp));
                },
            };
            roster_record(&mut self.escrow.bettors_consolidated, self.signer);
            if self.market.state == MarketState::Voting {
                self.market.state = MarketState::Consolidating;
            }
            self.bettor.tot_for = 0;
            self.bettor.tot_against = 0;
            self.bettor.tot_underdog = 0;
            proof {
                let s = roster_seq(self.escrow.bettors_consolidated);
                assert(s[s.len() - 1] == self.signer);
                assert(s.contains(self.signer));
            }
            Ok(BettorPayout::TieRefund { amount: total_bets })
        } else {
            let direction: bool = self.poll.total_for > self.poll.total_against;
            if !returns_within_limits(
                direction,
                self.escrow.tot_for,
                self.escrow.tot_against,
                self.escrow.tot_underdog,
                self.bettor.tot_for,
                self.bettor.tot_against,
                self.bettor.tot_underdog,
            ) {
                return Err(ProtocolError::Results(ResultsError::WagersDontAddUp));
            }
            let (bet_returned, winnings_pre) = compute_returns(
                direction,
                self.escrow.tot_for,
                self.escrow.tot_against,
                self.escrow.tot_underdog,
                self.bettor.tot_for,
                self.bettor.tot_against,
                self.bettor.tot_underdog,
            );
            // The protocol keeps its share of the winnings; a win too
            // large for the fee arithmetic is rejected before any change.
            let winnings: u64 = if bet_returned == 0 {
                0
            } else {
                match PERCENTAGE_WINNINGS_KEPT.checked_mul(winnings_pre) {
                    Some(kept) => kept / 100,
                    None => {
                        return Err(ProtocolError::Results(ResultsError::WagersDontAddUp));
                    },
                }
            };
            roster_record(&mut self.escrow.bettors_consolidated, self.signer);
            if self.market.state == MarketState::Voting {
                self.market.state = MarketState::Consolidating;
            }
            // Zero the stakes before reporting any payout: a duplicate
            // claim finds nothing left to pay even if the roster check
            // were bypassed.
            self.bettor.tot_for = 0;
            self.bettor.tot_against = 0;
            self.bettor.tot_underdog = 0;
            proof {
                let s = roster_seq(self.escrow.bettors_consolidated);
                assert(s[s.len() - 1] == self.signer);
                assert(s.contains(self.signer));
            }
            if bet_returned == 0 {
                Ok(BettorPayout::NoPayout)
            } else {
                Ok(BettorPayout::Winner { bet_returned, winnings })
            }
        }
    }
}

} // verus!
