//! Round close: the market ends its round only when both rosters are fully
//! mirrored by their consolidated counterparts — as sets, independent of
//! order — so no participant can be skipped before the ledgers reset.

use vstd::prelude::*;

use crate::error::{FacetError, MarketError, ProtocolError, ResultsError, TreasuryError};
use crate::functions::vec_eq;
use crate::states::{facet_registered, roster_seq, Escrow, Market, MarketParams, MarketState, Poll};

verus! {

/// State read and written by the round-close call.
pub struct CallMarket {
    /// Who signs the round close.
    pub admin: u64,
    /// The treasury authority configured for this deployment.
    pub treasury_authority: u64,
    pub market: Market,
    pub poll: Poll,
    pub escrow: Escrow,
}

/// Both rosters of identities hold the same multiset of members.
pub open spec fn rosters_match(roster: Option<Vec<u64>>, consolidated: Option<Vec<u64>>) -> bool {
    roster_seq(roster).to_multiset() == roster_seq(consolidated).to_multiset()
}

/// The first violated round-close precondition, if any.  The round closes
/// only from `Consolidating`, for matching market/facet identities, once
/// the bettor roster set-equals the consolidated bettors and the voter
/// roster set-equals the consolidated voters, at the treasury authority's
/// request.
pub open spec fn end_guard(s: CallMarket, params: MarketParams) -> Option<ProtocolError> {
    if s.escrow.bettors is None || s.escrow.bettors_consolidated is None || s.poll.voters is None
        || s.poll.voters_consolidated is None {
        Some(ProtocolError::Results(ResultsError::NotAllBetsConsolidated))
    } else if s.market.state != MarketState::Consolidating {
        Some(ProtocolError::Market(MarketError::MarketInWrongState))
    } else if !(s.escrow.market == s.market.token && s.poll.market == s.market.token
        && s.market.token == params.authensus_token) {
        Some(ProtocolError::Market(MarketError::NotTheSameMarket))
    } else if !(s.escrow.facet == s.poll.facet && s.escrow.facet == params.facet) {
        Some(ProtocolError::Facet(FacetError::NotTheSameFacet))
    } else if !s.market.facets@.contains(s.escrow.facet) {
        Some(ProtocolError::Facet(FacetError::FacetNotInMarket))
    } else if !rosters_match(s.escrow.bettors, s.escrow.bettors_consolidated) {
        Some(ProtocolError::Results(ResultsError::NotAllBetsConsolidated))
    } else if !rosters_match(s.poll.voters, s.poll.voters_consolidated) {
        Some(ProtocolError::Results(ResultsError::NotAllVotesConsolidated))
    } else if s.admin != s.treasury_authority {
        Some(ProtocolError::Treasury(TreasuryError::WrongTreasury))
    } else {
        None
    }
}

/// A copy of a roster, element for element.
fn copy_ids(v: &Vec<u64>) -> (r: Vec<u64>)
    ensures
        r@ == v@,
{
    let mut r: Vec<u64> = Vec::new();
    let mut i: usize = 0;
    while i < v.len()
        invariant
            i <= v@.len(),
            r@ == v@.subrange(0, i as int),
        decreases v@.len() - i,
    {
        r.push(v[i]);
        proof {
            assert(v@.subrange(0, i + 1 as int) =~= v@.subrange(0, i as int).push(v@[i as int]));
        }
        i += 1;
    }
    proof {
        assert(v@.subrange(0, i as int) =~= v@);
    }
    r
}

impl CallMarket {
    /// Closes the round: flips the market to `Inactive` and resets the
    /// escrow and the poll to empty, ready for the next start.  Succeeds
    /// exactly when no precondition in `end_guard` is violated; on failure
    /// everything is left untouched.
    pub fn end(&mut self, params: &MarketParams) -> (r: Result<(), ProtocolError>)
        ensures
            match end_guard(*old(self), *params) {
                Some(e) => r == Err::<(), ProtocolError>(e) && *final(self) == *old(self),
                None => r == Ok::<(), ProtocolError>(()) && *final(self) == (CallMarket {
                    market: Market { state: MarketState::Inactive, ..old(self).market },
                    escrow: Escrow {
                        bettors: None,
                        bettors_consolidated: None,
                        tot_for: 0,
                        tot_against: 0,
                        tot_underdog: 0,
                        ..old(self).escrow
                    },
                    poll: Poll {
                        voters: None,
                        voters_consolidated: None,
                        total_for: 0,
                        total_against: 0,
                        ..old(self).poll
                    },
                    ..*old(self)
                }),
            },
    {
        let (bettors, bettors_consolidated) = match (
            &self.escrow.bettors,
            &self.escrow.bettors_consolidated,
        ) {
            (Some(b), Some(bc)) => (b, bc),
            _ => {
                return Err(ProtocolError::Results(ResultsError::NotAllBetsConsolidated));
            },
        };
        let (voters, voters_consolidated) = match (
            &self.poll.voters,
            &self.poll.voters_consolidated,
        ) {
            (Some(v), Some(vc)) => (v, vc),
            _ => {
                return Err(ProtocolError::Results(ResultsError::NotAllBetsConsolidated));
            },
        };

        let mut bettors_sorted = copy_ids(bettors);
        let mut bettors_consolidated_sorted = copy_ids(bettors_consolidated);
        let bet_consolidation = vec_eq(&mut bettors_sorted, &mut bettors_consolidated_sorted);

        let mut voters_sorted = copy_ids(voters);
        let mut voters_consolidated_sorted = copy_ids(voters_consolidated);
        let vote_consolidation = vec_eq(&mut voters_sorted, &mut voters_consolidated_sorted);

        if self.market.state != MarketState::Consolidating {
            return Err(ProtocolError::Market(MarketError::MarketInWrongState));
        }
        if !(self.escrow.market == self.market.token && self.poll.market == self.market.token
            && self.market.token == params.authensus_token) {
            return Err(ProtocolError::Market(MarketError::NotTheSameMarket));
        }
        if !(self.escrow.facet == self.poll.facet && self.escrow.facet == params.facet) {
            return Err(ProtocolError::Facet(FacetError::NotTheSameFacet));
        }
        if !facet_registered(&self.market.facets, self.escrow.facet) {
            return Err(ProtocolError::Facet(FacetError::FacetNotInMarket));
        }
        if !bet_consolidation {
            return Err(ProtocolError::Results(ResultsError::NotAllBetsConsolidated));
        }
        if !vote_consolidation {
            return Err(ProtocolError::Results(ResultsError::NotAllVotesConsolidated));
        }
        if self.admin != self.treasury_authority {
            return Err(ProtocolError::Treasury(TreasuryError::WrongTreasury));
        }

        self.market.state = MarketState::Inactive;

        self.escrow.bettors = None;
        self.escrow.bettors_consolidated = None;
        self.escrow.tot_for = 0;
        self.escrow.tot_against = 0;
        self.escrow.tot_underdog = 0;

        self.poll.voters = None;
        self.poll.voters_consolidated = None;
        self.poll.total_for = 0;
        self.poll.total_against = 0;

        Ok(())
    }
}

} // verus!
