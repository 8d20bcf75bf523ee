//! Round start: seeds a fresh escrow and poll for one market facet, moves
//! the market to `Betting`, and records the initialiser's opening wager.

use vstd::prelude::*;

use crate::error::{
    BettingError, FacetError, MarketError, ProtocolError, TokenError, TreasuryError, VotingError,
};
use crate::states::{
    facet_registered, roster_seq, Bettor, Escrow, Market, MarketParams, MarketState, Poll,
};
use crate::treasury::Treasury;
use crate::wager::{stake_against, stake_for};

verus! {

/// State read and written by the round-start call.
pub struct StartMarket {
    /// The participant starting the round.
    pub signer: u64,
    /// The treasury authority co-signing the call.
    pub treasury_auth: u64,
    /// Funds balance of the signer, read from the ledger.
    pub signer_balance: u64,
    pub market: Market,
    pub escrow: Escrow,
    pub poll: Poll,
    /// The initialiser's stake record for this market facet.
    pub initialiser: Bettor,
    pub treasury: Treasury,
}

/// The first violated round-start precondition, if any: the facet and token
/// match the market, the market is between rounds, both ledgers are empty,
/// and the treasury authority is the one on record.
pub open spec fn start_guard(s: StartMarket, params: MarketParams) -> Option<ProtocolError> {
    if !s.market.facets@.contains(params.facet) {
        Some(ProtocolError::Facet(FacetError::FacetNotInMarket))
    } else if s.market.token != params.authensus_token {
        Some(ProtocolError::Token(TokenError::NotTheSameToken))
    } else if !(s.market.state == MarketState::Initialised || s.market.state
        == MarketState::Inactive) {
        Some(ProtocolError::Market(MarketError::MarketInWrongState))
    } else if !(s.escrow.bettors is None && s.escrow.bettors_consolidated is None
        && s.escrow.tot_for + s.escrow.tot_against == 0) {
        Some(ProtocolError::Betting(BettingError::StartingWithBetsInPlace))
    } else if !(s.poll.voters is None && s.poll.voters_consolidated is None && s.poll.total_for
        + s.poll.total_against == 0) {
        Some(ProtocolError::Voting(VotingError::StartingWithVotesInPlace))
    } else if s.treasury_auth != s.treasury.authority {
        Some(ProtocolError::Treasury(TreasuryError::TreasuryAuthoritiesDontMatch))
    } else {
        None
    }
}

/// The first violated precondition of the opening wager, if any.
pub open spec fn first_bet_guard(s: StartMarket, params: MarketParams, amount: u64) -> Option<
    ProtocolError,
> {
    if !s.market.facets@.contains(params.facet) {
        Some(ProtocolError::Facet(FacetError::FacetNotInMarket))
    } else if s.market.token != params.authensus_token {
        Some(ProtocolError::Token(TokenError::NotTheSameToken))
    } else if !(s.escrow.bettors is None && s.escrow.tot_for + s.escrow.tot_against == 0) {
        Some(ProtocolError::Betting(BettingError::StartingWithBetsInPlace))
    } else if !(s.signer_balance > amount) {
        Some(ProtocolError::Betting(BettingError::InsufficientFunds))
    } else if s.market.state != MarketState::Betting {
        Some(ProtocolError::Betting(BettingError::MarketNotInBettingState))
    } else if s.treasury_auth != s.treasury.authority {
        Some(ProtocolError::Treasury(TreasuryError::TreasuryAuthoritiesDontMatch))
    } else {
        None
    }
}

impl StartMarket {
    /// Starts the next round: resets the escrow and the poll to empty for
    /// this facet, stamps the start time with the clock reading `now`,
    /// moves the market to `Betting` and increments the round counter.
    pub fn start(&mut self, params: &MarketParams, now: i64) -> (r: Result<(), ProtocolError>)
        requires
            start_guard(*old(self), *params) is None ==> old(self).market.round < u16::MAX,
        ensures
            match start_guard(*old(self), *params) {
                Some(e) => r == Err::<(), ProtocolError>(e) && *final(self) == *old(self),
                None => r == Ok::<(), ProtocolError>(()) && *final(self) == (StartMarket {
                    market: Market {
                        start_time: now,
                        state: MarketState::Betting,
                        round: (old(self).market.round + 1) as u16,
                        ..old(self).market
                    },
                    escrow: Escrow {
                        initialiser: old(self).signer,
                        market: params.authensus_token,
                        facet: params.facet,
                        bettors: None,
                        bettors_consolidated: None,
                        tot_for: 0,
                        tot_against: 0,
                        tot_underdog: 0,
                    },
                    poll: Poll {
                        market: params.authensus_token,
                        facet: params.facet,
                        voters: None,
                        voters_consolidated: None,
                        total_for: 0,
                        total_against: 0,
                    },
                    ..*old(self)
                }),
            },
    {
        if !facet_registered(&self.market.facets, params.facet) {
            return Err(ProtocolError::Facet(FacetError::FacetNotInMarket));
        }
        if self.market.token != params.authensus_token {
            return Err(ProtocolError::Token(TokenError::NotTheSameToken));
        }
        if !(self.market.state == MarketState::Initialised || self.market.state
            == MarketState::Inactive) {
            return Err(ProtocolError::Market(MarketError::MarketInWrongState));
        }
        if !(self.escrow.bettors.is_none() && self.escrow.bettors_consolidated.is_none()
            && self.escrow.tot_for == 0 && self.escrow.tot_against == 0) {
            return Err(ProtocolError::Betting(BettingError::StartingWithBetsInPlace));
        }
        if !(self.poll.voters.is_none() && self.poll.voters_consolidated.is_none()
            && self.poll.total_for == 0 && self.poll.total_against == 0) {
            return Err(ProtocolError::Voting(VotingError::StartingWithVotesInPlace));
        }
        if self.treasury_auth != self.treasury.authority {
            return Err(ProtocolError::Treasury(TreasuryError::TreasuryAuthoritiesDontMatch));
        }

        self.escrow = Escrow {
            initialiser: self.signer,
            market: params.authensus_token,
            facet: params.facet,
            bettors: None,
            bettors_consolidated: None,
            tot_for: 0,
            tot_against: 0,
            tot_underdog: 0,
        };

        self.poll = Poll {
            market: params.authensus_token,
            facet: params.facet,
            voters: None,
            voters_consolidated: None,
            total_for: 0,
            total_against: 0,
        };

        self.market.start_time = now;
        self.market.state = MarketState::Betting;
        self.market.round = self.market.round + 1;

        Ok(())
    }

    /// Records the opening wager of the round: the signer becomes the only
    /// roster member, the escrow totals start from this stake, and the
    /// initialiser's stake record is claimed.  On success the caller
    /// transfers `amount` to treasury custody.
    pub fn first_bet(&mut self, params: &MarketParams, amount: u64, direction: bool) -> (r: Result<
        (),
        ProtocolError,
    >)
        ensures
            match first_bet_guard(*old(self), *params, amount) {
                Some(e) => r == Err::<(), ProtocolError>(e) && *final(self) == *old(self),
                None => r == Ok::<(), ProtocolError>(()) && {
                    &&& final(self).escrow.bettors is Some
                    &&& roster_seq(final(self).escrow.bettors) == seq![
                        old(self).signer,
                    ]
                    &&& final(self).escrow == (Escrow {
                        bettors: final(self).escrow.bettors,
                        tot_for: stake_for(amount, direction),
                        tot_against: stake_against(amount, direction),
                        ..old(self).escrow
                    })
                    &&& final(self).initialiser == (Bettor {
                        pk: old(self).signer,
                        market: old(self).escrow.market,
                        facet: old(self).escrow.facet,
                        tot_for: stake_for(amount, direction),
                        tot_against: stake_against(amount, direction),
                        tot_underdog: 0,
                    })
                    &&& final(self).market == old(self).market
                    &&& final(self).poll == old(self).poll
                    &&& final(self).signer == old(self).signer
                    &&& final(self).treasury_auth == old(self).treasury_auth
                    &&& final(self).signer_balance == old(self).signer_balance
                    &&& final(self).treasury == old(self).treasury
                },
            },
    {
        if !facet_registered(&self.market.facets, params.facet) {
            return Err(ProtocolError::Facet(FacetError::FacetNotInMarket));
        }
        if self.market.token != params.authensus_token {
            return Err(ProtocolError::Token(TokenError::NotTheSameToken));
        }
        if !(self.escrow.bettors.is_none() && self.escrow.tot_for == 0 && self.escrow.tot_against
            == 0) {
            return Err(ProtocolError::Betting(BettingError::StartingWithBetsInPlace));
        }
        if !(self.signer_balance > amount) {
            return Err(ProtocolError::Betting(BettingError::InsufficientFunds));
        }
        if self.market.state != MarketState::Betting {
            return Err(ProtocolError::Betting(BettingError::MarketNotInBettingState));
        }
        if self.treasury_auth != self.treasury.authority {
            return Err(ProtocolError::Treasury(TreasuryError::TreasuryAuthoritiesDontMatch));
        }

        let tot_for: u64 = if direction {
            amount
        } else {
            0
        };
        let tot_against: u64 = amount - tot_for;

        let mut roster: Vec<u64> = Vec::new();
        roster.push(self.signer);
        self.escrow.bettors = Some(roster);
        self.escrow.tot_for = tot_for;
        self.escrow.tot_against = tot_against;

        self.initialiser = Bettor {
            pk: self.signer,
            market: self.escrow.market,
            facet: self.escrow.facet,
            tot_for,
            tot_against,
            tot_underdog: 0,
        };

        Ok(())
    }
}

} // verus!
