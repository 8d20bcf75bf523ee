//! Market initialisation: creates a market for one reference token with a
//! fixed, non-empty set of facets and a bounded betting timeout.

use vstd::prelude::*;

use crate::constants::{MAX_ALLOWED_TIMEOUT, MIN_ALLOWED_TIMEOUT};
use crate::error::InitError;
use crate::states::{Facet, Market, MarketState};

verus! {

/// State written by the market initialisation call.
pub struct InitialiseMarket {
    /// The market account being created.
    pub market: Market,
}

/// The first violated initialisation precondition, if any: at least one
/// facet, and a timeout between one day and two weeks.
pub open spec fn init_market_guard(facets: Seq<Facet>, timeout: i64) -> Option<InitError> {
    if facets.len() < 1 {
        Some(InitError::NoFacetsProvided)
    } else if timeout > MAX_ALLOWED_TIMEOUT {
        Some(InitError::TimeoutTooLarge)
    } else if timeout < MIN_ALLOWED_TIMEOUT {
        Some(InitError::TimeoutTooSmall)
    } else {
        None
    }
}

impl InitialiseMarket {
    /// Creates the market: round zero, no start time, state `Initialised`.
    pub fn init_market(&mut self, token: u64, facets: Vec<Facet>, timeout: i64) -> (r: Result<
        (),
        InitError,
    >)
        ensures
            match init_market_guard(facets@, timeout) {
                Some(e) => r == Err::<(), InitError>(e) && *final(self) == *old(self),
                None => r == Ok::<(), InitError>(()) && *final(self) == (InitialiseMarket {
                    market: Market {
                        token,
                        facets,
                        start_time: 0,
                        timeout,
                        state: MarketState::Initialised,
                        round: 0,
                    },
                }),
            },
    {
        if facets.len() < 1 {
            return Err(InitError::NoFacetsProvided);
        }
        if timeout > MAX_ALLOWED_TIMEOUT {
            return Err(InitError::TimeoutTooLarge);
        }
        if timeout < MIN_ALLOWED_TIMEOUT {
            return Err(InitError::TimeoutTooSmall);
        }
        self.market = Market {
            token,
            facets,
            start_time: 0,
            timeout,
            state: MarketState::Initialised,
            round: 0,
        };
        Ok(())
    }
}

} // verus!
