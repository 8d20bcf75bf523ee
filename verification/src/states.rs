//! Persistent state of the protocol: the market and its lifecycle, the
//! escrow and poll ledgers of the current round, and the per-participant
//! bettor and voter records.
//!
//! Account identities (participants, tokens, authorities) are plain `u64`
//! values: the host ledger's key derivation and signature machinery stays
//! outside the library, which only ever compares identities for equality
//! and keeps rosters of them.

use vstd::prelude::*;

verus! {

/// One binary-outcome dimension a market can be wagered and voted on.
#[derive(Clone, Copy, Debug, PartialEq, Eq, Structural)]
pub enum Facet {
    Truthfulness,
    Originality,
    Authenticity,
}

/// Lifecycle of a market round.
#[derive(Clone, Copy, Debug, PartialEq, Eq, Structural)]
pub enum MarketState {
    /// Set once at creation, never re-entered.
    Initialised,
    /// Terminal for a round; the next start re-enters `Betting`.
    Inactive,
    /// Wagers are accepted while the timeout has not elapsed.
    Betting,
    /// Token holders vote until the vote threshold is reached.
    Voting,
    /// Participants claim settlement one by one.
    Consolidating,
}

/// One market per (reference token, set of facets); persists across rounds.
#[derive(Clone, Debug, PartialEq, Eq)]
pub struct Market {
    /// Reference token to which the market corresponds.
    pub token: u64,
    /// Facets around which wagers can be made and votes must be cast;
    /// non-empty and fixed at creation.
    pub facets: Vec<Facet>,
    /// Time at which the most recent round started.
    pub start_time: i64,
    /// Total time for which the betting market operates.
    pub timeout: i64,
    /// Current lifecycle state.
    pub state: MarketState,
    /// Number of this round of the market.
    pub round: u16,
}

/// Identifies one facet of one market in an entry-point call.
#[derive(Clone, Copy, Debug, PartialEq, Eq, Structural)]
pub struct MarketParams {
    pub authensus_token: u64,
    pub facet: Facet,
}

/// Wager ledger for one round of one market facet.
#[derive(Clone, Debug, PartialEq, Eq)]
pub struct Escrow {
    /// Who initialised this round of the market.
    pub initialiser: u64,
    /// Token identity of the owning market.
    pub market: u64,
    /// The facet for which the escrow exists within the market.
    pub facet: Facet,
    /// Everyone who has placed a bet in escrow.
    pub bettors: Option<Vec<u64>>,
    /// Every bettor whose winnings have been computed and reimbursed.
    pub bettors_consolidated: Option<Vec<u64>>,
    /// Total amount in normal bets for.
    pub tot_for: u64,
    /// Total amount in normal bets against.
    pub tot_against: u64,
    /// Total amount in underdog bets.
    pub tot_underdog: u64,
}

/// Vote ledger for one round of one market facet.  The tallies count votes
/// (one unit per voter); the staked token amount only weights the voter's
/// eventual payout.
#[derive(Clone, Debug, PartialEq, Eq)]
pub struct Poll {
    /// Token identity of the owning market.
    pub market: u64,
    /// The facet for which the poll exists within the market.
    pub facet: Facet,
    /// Everyone who has cast a vote in the poll.
    pub voters: Option<Vec<u64>>,
    /// Every voter whose winnings have been computed and reimbursed.
    pub voters_consolidated: Option<Vec<u64>>,
    /// Count of votes for the facet.
    pub total_for: u16,
    /// Count of votes against the facet.
    pub total_against: u16,
}

/// One participant's stakes in one market facet, reset after consolidation.
#[derive(Clone, Copy, Debug, PartialEq, Eq, Structural)]
pub struct Bettor {
    pub pk: u64,
    /// Token identity of the owning market.
    pub market: u64,
    pub facet: Facet,
    pub tot_for: u64,
    pub tot_against: u64,
    pub tot_underdog: u64,
}

/// One participant's vote in one market facet, reset after consolidation.
#[derive(Clone, Copy, Debug, PartialEq, Eq, Structural)]
pub struct Voter {
    pub pk: u64,
    /// Token identity of the owning market.
    pub market: u64,
    pub facet: Facet,
    /// Staked voting-token amount; weights the payout.
    pub amount: u64,
    /// Chosen direction: `true` is a vote for the facet.
    pub direction: bool,
}

/// The identities a roster holds; an absent roster holds none.
pub open spec fn roster_seq(r: Option<Vec<u64>>) -> Seq<u64> {
    match r {
        Some(v) => v@,
        None => Seq::empty(),
    }
}

/// A roster after recording `pk` once, whether or not it was present.
pub open spec fn roster_with(s: Seq<u64>, pk: u64) -> Seq<u64> {
    if s.contains(pk) {
        s
    } else {
        s.push(pk)
    }
}

/// The betting window of market `m` has elapsed at time `now`.
pub open spec fn betting_expired(m: Market, now: i64) -> bool {
    m.start_time + m.timeout < now
}

/// Total number of votes cast in poll `p`.
pub open spec fn poll_tally(p: Poll) -> int {
    p.total_for + p.total_against
}

/// The poll ended in a tie.
pub open spec fn poll_tied(p: Poll) -> bool {
    p.total_for == p.total_against
}

/// The poll's winning direction (meaningful only when not tied).
pub open spec fn poll_direction(p: Poll) -> bool {
    p.total_for > p.total_against
}

/// Whether facet `f` is registered among `facets`.
pub fn facet_registered(facets: &Vec<Facet>, f: Facet) -> (r: bool)
    ensures
        r == facets@.contains(f),
{
    let mut i: usize = 0;
    while i < facets.len()
        invariant
            i <= facets@.len(),
            forall|q: int| 0 <= q < i ==> facets@[q] != f,
        decreases facets@.len() - i,
    {
        if facets[i] == f {
            return true;
        }
        i += 1;
    }
    false
}

/// Whether identity `pk` appears in roster `v`.
pub fn roster_contains(v: &Vec<u64>, pk: u64) -> (r: bool)
    ensures
        r == v@.contains(pk),
{
    let mut i: usize = 0;
    while i < v.len()
        invariant
            i <= v@.len(),
            forall|q: int| 0 <= q < i ==> v@[q] != pk,
        decreases v@.len() - i,
    {
        if v[i] == pk {
            return true;
        }
        i += 1;
    }
    false
}

/// Records `pk` in a roster that is known to exist, unless already present.
pub fn roster_add_unique(r: &mut Option<Vec<u64>>, pk: u64)
    requires
        (*old(r)) is Some,
    ensures
        (*final(r)) is Some,
        roster_seq(*final(r)) == roster_with(roster_seq(*old(r)), pk),
{
    match r {
        Some(v) => {
            if !roster_contains(v, pk) {
                v.push(pk);
            }
        },
        None => {},
    }
}

/// Records `pk` in a roster, creating the roster if absent.  The caller is
/// responsible for any not-already-present check; this always appends.
pub fn roster_record(r: &mut Option<Vec<u64>>, pk: u64)
    ensures
        (*final(r)) is Some,
        roster_seq(*final(r)) == roster_seq(*old(r)).push(pk),
{
    match r {
        Some(v) => {
            v.push(pk);
        },
        None => {
            let mut v: Vec<u64> = Vec::new();
            v.push(pk);
            proof {
                assert(roster_seq(*old(r)).push(pk) =~= v@);
            }
            *r = Some(v);
        },
    }
}

} // verus!
