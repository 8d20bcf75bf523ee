//! Wager ingestion: standard for/against bets and underdog bets, accepted
//! while the market is in `Betting` and the timeout has not elapsed.
//!
//! A call that arrives after the timeout flips the market to `Voting` and
//! drops the wager with no funds moved; on an accepted wager the caller
//! transfers the staked amount to treasury custody.

use vstd::prelude::*;

use crate::constants::MAX_WAGERS;
use crate::error::{BettingError, FacetError, ProtocolError, TokenError, TreasuryError};
use crate::states::{
    betting_expired, facet_registered, roster_add_unique, roster_seq, roster_with, Bettor, Escrow,
    Market, MarketParams, MarketState,
};
use crate::treasury::Treasury;

verus! {

/// Outcome of a wager call whose preconditions all held.
#[derive(Clone, Copy, Debug, PartialEq, Eq, Structural)]
pub enum WagerOutcome {
    /// The stake was recorded; the caller transfers the amount to custody.
    Accepted,
    /// The timeout had elapsed: the market flipped to `Voting` and the
    /// wager was dropped with no funds moved.
    BettingClosed,
}

/// State read and written by one wager call.
pub struct Wager {
    /// The treasury authority co-signing the call.
    pub treasury_auth: u64,
    /// The wagering participant.
    pub signer: u64,
    /// Funds balance of the participant, read from the ledger.
    pub signer_balance: u64,
    pub market: Market,
    pub escrow: Escrow,
    /// The participant's stake record for this market facet.
    pub bettor: Bettor,
    pub treasury: Treasury,
}

/// The part of `amount` staked on the "for" side.
pub open spec fn stake_for(amount: u64, direction: bool) -> u64 {
    if direction {
        amount
    } else {
        0u64
    }
}

/// The part of `amount` staked on the "against" side.
pub open spec fn stake_against(amount: u64, direction: bool) -> u64 {
    if direction {
        0u64
    } else {
        amount
    }
}

/// The first violated precondition of a standard wager, if any: the market
/// is taking bets, the participant can cover the stake, the facet and token
/// match the market, the participant holds no underdog stake, the treasury
/// authority is the one on record, and the bettor roster has room.
pub open spec fn place_wager_guard(s: Wager, params: MarketParams, amount: u64) -> Option<
    ProtocolError,
> {
    if s.market.state != MarketState::Betting {
        Some(ProtocolError::Betting(BettingError::MarketNotInBettingState))
    } else if !(s.signer_balance > amount) {
        Some(ProtocolError::Betting(BettingError::InsufficientFunds))
    } else if !s.market.facets@.contains(params.facet) {
        Some(ProtocolError::Facet(FacetError::FacetNotInMarket))
    } else if s.market.token != params.authensus_token {
        Some(ProtocolError::Token(TokenError::NotTheSameToken))
    } else if s.bettor.tot_underdog != 0 {
        Some(ProtocolError::Betting(BettingError::BetWithUnderdogBet))
    } else if s.treasury_auth != s.treasury.authority {
        Some(ProtocolError::Treasury(TreasuryError::TreasuryAuthoritiesDontMatch))
    } else if roster_seq(s.escrow.bettors).len() >= MAX_WAGERS as int {
        Some(ProtocolError::Betting(BettingError::TooManyBettors))
    } else {
        None
    }
}

/// The first violated precondition of an underdog bet, if any: as for a
/// standard wager, except that some standard stake must already be pooled
/// and the participant must hold no standard stake of their own.
pub open spec fn underdog_bet_guard(s: Wager, params: MarketParams, amount: u64) -> Option<
    ProtocolError,
> {
    if s.market.state != MarketState::Betting {
        Some(ProtocolError::Betting(BettingError::MarketNotInBettingState))
    } else if !(s.signer_balance > amount) {
        Some(ProtocolError::Betting(BettingError::InsufficientFunds))
    } else if !s.market.facets@.contains(params.facet) {
        Some(ProtocolError::Facet(FacetError::FacetNotInMarket))
    } else if s.market.token != params.authensus_token {
        Some(ProtocolError::Token(TokenError::NotTheSameToken))
    } else if !(s.escrow.tot_for + s.escrow.tot_against > 0) {
        Some(ProtocolError::Betting(BettingError::UnderdogBetTooEarly))
    } else if s.bettor.tot_for + s.bettor.tot_against != 0 {
        Some(ProtocolError::Betting(BettingError::UnderdogWithOtherBet))
    } else {
        None
    }
}

/// A wager call that found the timeout elapsed: the market flipped to
/// `Voting` and nothing else changed.
pub open spec fn betting_closed_applied(pre: Wager, post: Wager) -> bool {
    &&& post.market == (Market { state: MarketState::Voting, ..pre.market })
    &&& post.escrow == pre.escrow
    &&& post.bettor == pre.bettor
    &&& post.treasury_auth == pre.treasury_auth
    &&& post.signer == pre.signer
    &&& post.signer_balance == pre.signer_balance
    &&& post.treasury == pre.treasury
}

/// An accepted standard wager: the stake is split by `direction` and added
/// to both the participant's record and the escrow totals, and the
/// participant joins the bettor roster if absent.  A first wager also
/// claims the participant's stake record for this market facet.
pub open spec fn place_wager_applied(
    pre: Wager,
    post: Wager,
    params: MarketParams,
    amount: u64,
    direction: bool,
) -> bool {
    let af = stake_for(amount, direction);
    let aa = stake_against(amount, direction);
    &&& post.market == pre.market
    &&& post.treasury_auth == pre.treasury_auth
    &&& post.signer == pre.signer
    &&& post.signer_balance == pre.signer_balance
    &&& post.treasury == pre.treasury
    &&& post.escrow.initialiser == pre.escrow.initialiser
    &&& post.escrow.market == pre.escrow.market
    &&& post.escrow.facet == pre.escrow.facet
    &&& post.escrow.bettors is Some
    &&& roster_seq(post.escrow.bettors) == roster_with(roster_seq(pre.escrow.bettors), pre.signer)
    &&& post.escrow.bettors_consolidated == pre.escrow.bettors_consolidated
    &&& post.escrow.tot_for == pre.escrow.tot_for + af
    &&& post.escrow.tot_against == pre.escrow.tot_against + aa
    &&& post.escrow.tot_underdog == pre.escrow.tot_underdog
    &&& post.bettor.tot_for == pre.bettor.tot_for + af
    &&& post.bettor.tot_against == pre.bettor.tot_against + aa
    &&& post.bettor.tot_underdog == pre.bettor.tot_underdog
    &&& if pre.bettor.tot_for == 0 && pre.bettor.tot_against == 0 {
        post.bettor.pk == pre.signer && post.bettor.market == params.authensus_token
            && post.bettor.facet == params.facet
    } else {
        post.bettor.pk == pre.bettor.pk && post.bettor.market == pre.bettor.market
            && post.bettor.facet == pre.bettor.facet
    }
}

/// An accepted underdog bet: the full stake goes to the participant's
/// underdog total and the escrow's underdog total, and the participant
/// joins the bettor roster if absent.
pub open spec fn underdog_bet_applied(
    pre: Wager,
    post: Wager,
    params: MarketParams,
    amount: u64,
) -> bool {
    &&& post.market == pre.market
    &&& post.treasury_auth == pre.treasury_auth
    &&& post.signer == pre.signer
    &&& post.signer_balance == pre.signer_balance
    &&& post.treasury == pre.treasury
    &&& post.escrow.initialiser == pre.escrow.initialiser
    &&& post.escrow.market == pre.escrow.market
    &&& post.escrow.facet == pre.escrow.facet
    &&& post.escrow.bettors is Some
    &&& roster_seq(post.escrow.bettors) == roster_with(roster_seq(pre.escrow.bettors), pre.signer)
    &&& post.escrow.bettors_consolidated == pre.escrow.bettors_consolidated
    &&& post.escrow.tot_for == pre.escrow.tot_for
    &&& post.escrow.tot_against == pre.escrow.tot_against
    &&& post.escrow.tot_underdog == pre.escrow.tot_underdog + amount
    &&& post.bettor.tot_for == pre.bettor.tot_for
    &&& post.bettor.tot_against == pre.bettor.tot_against
    &&& post.bettor.tot_underdog == pre.bettor.tot_underdog + amount
    &&& if pre.bettor.tot_underdog == 0 {
        post.bettor.pk == pre.signer && post.bettor.market == params.authensus_token
            && post.bettor.facet == params.facet
    } else {
        post.bettor.pk == pre.bettor.pk && post.bettor.market == pre.bettor.market
            && post.bettor.facet == pre.bettor.facet
    }
}

impl Wager {
    /// Places a standard wager of `amount` on the side given by
    /// `direction` (`true` is "for").  Returns the first violated
    /// precondition with nothing changed; flips the market to `Voting`
    /// and drops the wager when the timeout has elapsed at `now`; records
    /// the stake otherwise, after which the caller transfers `amount` to
    /// treasury custody.
    pub fn place_wager(
        &mut self,
        params: &MarketParams,
        now: i64,
        amount: u64,
        direction: bool,
    ) -> (r: Result<WagerOutcome, ProtocolError>)
        requires
            old(self).escrow.bettors is Some,
            place_wager_guard(*old(self), *params, amount) is None && !betting_expired(
                old(self).market,
                now,
            ) ==> {
                &&& old(self).escrow.tot_for + stake_for(amount, direction) <= u64::MAX
                &&& old(self).escrow.tot_against + stake_against(amount, direction) <= u64::MAX
                &&& old(self).bettor.tot_for + stake_for(amount, direction) <= u64::MAX
                &&& old(self).bettor.tot_against + stake_against(amount, direction) <= u64::MAX
            },
        ensures
            match place_wager_guard(*old(self), *params, amount) {
                Some(e) => r == Err::<WagerOutcome, ProtocolError>(e) && *final(self) == *old(
                    self,
                ),
                None => if betting_expired(old(self).market, now) {
                    r == Ok::<WagerOutcome, ProtocolError>(WagerOutcome::BettingClosed)
                        && betting_closed_applied(*old(self), *final(self))
                } else {
                    r == Ok::<WagerOutcome, ProtocolError>(WagerOutcome::Accepted)
                        && place_wager_applied(*old(self), *final(self), *params, amount, direction)
                },
            },
    {
        if self.market.state != MarketState::Betting {
            return Err(ProtocolError::Betting(BettingError::MarketNotInBettingState));
        }
        if !(self.signer_balance > amount) {
            return Err(ProtocolError::Betting(BettingError::InsufficientFunds));
        }
        if !facet_registered(&self.market.facets, params.facet) {
            return Err(ProtocolError::Facet(FacetError::FacetNotInMarket));
        }
        if self.market.token != params.authensus_token {
            return Err(ProtocolError::Token(TokenError::NotTheSameToken));
        }
        if self.bettor.tot_underdog != 0 {
            return Err(ProtocolError::Betting(BettingError::BetWithUnderdogBet));
        }
        if self.treasury_auth != self.treasury.authority {
            return Err(ProtocolError::Treasury(TreasuryError::TreasuryAuthoritiesDontMatch));
        }
        let roster_len: usize = match &self.escrow.bettors {
            Some(v) => v.len(),
            None => 0,
        };
        if roster_len >= MAX_WAGERS as usize {
            return Err(ProtocolError::Betting(BettingError::TooManyBettors));
        }

        // A call after the timeout closes betting instead of wagering.
        if (self.market.start_time as i128) + (self.market.timeout as i128) < (now as i128) {
            self.market.state = MarketState::Voting;
            return Ok(WagerOutcome::BettingClosed);
        }

        let amount_for: u64 = if direction {
            amount
        } else {
            0
        };
        let amount_against: u64 = amount - amount_for;

        if self.bettor.tot_for == 0 && self.bettor.tot_against == 0 {
            self.bettor = Bettor {
                pk: self.signer,
                market: params.authensus_token,
                facet: params.facet,
                tot_for: amount_for,
                tot_against: amount_against,
                tot_underdog: 0,
            };
        } else {
            self.bettor.tot_for = self.bettor.tot_for + amount_for;
            self.bettor.tot_against = self.bettor.tot_against + amount_against;
        }

        roster_add_unique(&mut self.escrow.bettors, self.signer);

        self.escrow.tot_for = self.escrow.tot_for + amount_for;
        self.escrow.tot_against = self.escrow.tot_against + amount_against;

        Ok(WagerOutcome::Accepted)
    }

    /// Places an underdog bet of `amount`, a stake assigned to neither side
    /// until settlement.  Accepted only once standard betting has started
    /// and only for a participant with no standard stake this round; the
    /// timeout behaves as for `place_wager`.
    pub fn underdog_bet(&mut self, params: &MarketParams, now: i64, amount: u64) -> (r: Result<
        WagerOutcome,
        ProtocolError,
    >)
        requires
            old(self).escrow.bettors is Some,
            underdog_bet_guard(*old(self), *params, amount) is None && !betting_expired(
                old(self).market,
                now,
            ) ==> {
                &&& old(self).escrow.tot_underdog + amount <= u64::MAX
                &&& old(self).bettor.tot_underdog + amount <= u64::MAX
            },
        ensures
            match underdog_bet_guard(*old(self), *params, amount) {
                Some(e) => r == Err::<WagerOutcome, ProtocolError>(e) && *final(self) == *old(
                    self,
                ),
                None => if betting_expired(old(self).market, now) {
                    r == Ok::<WagerOutcome, ProtocolError>(WagerOutcome::BettingClosed)
                        && betting_closed_applied(*old(self), *final(self))
                } else {
                    r == Ok::<WagerOutcome, ProtocolError>(WagerOutcome::Accepted)
                        && underdog_bet_applied(*old(self), *final(self), *params, amount)
                },
            },
    {
        if self.market.state != MarketState::Betting {
            return Err(ProtocolError::Betting(BettingError::MarketNotInBettingState));
        }
        if !(self.signer_balance > amount) {
            return Err(ProtocolError::Betting(BettingError::InsufficientFunds));
        }
        if !facet_registered(&self.market.facets, params.facet) {
            return Err(ProtocolError::Facet(FacetError::FacetNotInMarket));
        }
        if self.market.token != params.authensus_token {
            return Err(ProtocolError::Token(TokenError::NotTheSameToken));
        }
        if !(self.escrow.tot_for > 0 || self.escrow.tot_against > 0) {
            return Err(ProtocolError::Betting(BettingError::UnderdogBetTooEarly));
        }
        if !(self.bettor.tot_for == 0 && self.bettor.tot_against == 0) {
            return Err(ProtocolError::Betting(BettingError::UnderdogWithOtherBet));
        }

        // A call after the timeout closes betting instead of wagering.
        if (self.market.start_time as i128) + (self.market.timeout as i128) < (now as i128) {
            self.market.state = MarketState::Voting;
            return Ok(WagerOutcome::BettingClosed);
        }

        if self.bettor.tot_underdog == 0 {
            self.bettor = Bettor {
                pk: self.signer,
                market: params.authensus_token,
                facet: params.facet,
                tot_for: 0,
                tot_against: 0,
                tot_underdog: amount,
            };
        } else {
            self.bettor.tot_underdog = self.bettor.tot_underdog + amount;
        }

        roster_add_unique(&mut self.escrow.bettors, self.signer);

        self.escrow.tot_underdog = self.escrow.tot_underdog + amount;

        Ok(WagerOutcome::Accepted)
    }
}

} // verus!
