//! Ledger invariants: what holds of an escrow and a poll throughout a
//! round, and proofs that every entry point preserves it.
//!
//! These are the data-model facts the settlement protocol leans on: a
//! bettor or voter appears in a roster at most once, everyone consolidated
//! was registered first, the poll's tally never passes the vote threshold,
//! and the tally counts exactly the voters on the roster.

use vstd::prelude::*;

use crate::constants::VOTE_THRESHOLD;
use crate::states::{poll_tally, roster_seq, Escrow, Poll};
use crate::start_market::{start_guard, StartMarket};
use crate::vote::{add_vote_applied, add_vote_guard, Vote};
use crate::voter_results::{voter_consolidated_applied, voter_result_guard, VoterResult};
use crate::wager::{
    place_wager_applied, place_wager_guard, underdog_bet_applied, underdog_bet_guard, Wager,
};
use crate::wager_results::{bettor_consolidated_applied, wager_result_guard, WagerResult};

verus! {

/// The escrow ledger is well formed: no bettor is listed twice, and every
/// consolidated bettor is a registered bettor.
pub open spec fn escrow_wf(e: Escrow) -> bool {
    &&& roster_seq(e.bettors).no_duplicates()
    &&& roster_seq(e.bettors_consolidated).no_duplicates()
    &&& forall|pk: u64|
        #[trigger] roster_seq(e.bettors_consolidated).contains(pk) ==> roster_seq(
            e.bettors,
        ).contains(pk)
}

/// The poll ledger is well formed: the tally is bounded by the vote
/// threshold and counts exactly the voters on the roster, no voter is
/// listed twice, and every consolidated voter is a registered voter.
pub open spec fn poll_wf(p: Poll) -> bool {
    &&& poll_tally(p) <= VOTE_THRESHOLD as int
    &&& roster_seq(p.voters).len() == poll_tally(p)
    &&& roster_seq(p.voters).no_duplicates()
    &&& roster_seq(p.voters_consolidated).no_duplicates()
    &&& forall|pk: u64|
        #[trigger] roster_seq(p.voters_consolidated).contains(pk) ==> roster_seq(
            p.voters,
        ).contains(pk)
}

/// Whatever a sequence contains it still contains after a push.
proof fn lemma_push_keeps_contains(s: Seq<u64>, x: u64, y: u64)
    requires
        s.contains(x),
    ensures
        s.push(y).contains(x),
{
    let i = choose|i: int| 0 <= i < s.len() && s[i] == x;
    assert(s.push(y)[i] == x);
}

/// Pushing a fresh element keeps a sequence duplicate-free.
proof fn lemma_push_no_duplicates(s: Seq<u64>, y: u64)
    requires
        s.no_duplicates(),
        !s.contains(y),
    ensures
        s.push(y).no_duplicates(),
{
    let t = s.push(y);
    assert forall|i: int, j: int|
        0 <= i < t.len() && 0 <= j < t.len() && i != j implies t[i] != t[j] by {
        if i < s.len() && j < s.len() {
        } else if j == s.len() {
            assert(t[i] == s[i]);
            assert(!s.contains(t[j]));
        } else {
            assert(t[j] == s[j]);
            assert(!s.contains(t[i]));
        }
    }
}

/// Freshly reset ledgers — as a round start or a round close leaves them —
/// are well formed.
pub proof fn lemma_reset_ledgers_wf(e: Escrow, p: Poll)
    requires
        e.bettors is None,
        e.bettors_consolidated is None,
        p.voters is None,
        p.voters_consolidated is None,
        p.total_for == 0,
        p.total_against == 0,
    ensures
        escrow_wf(e),
        poll_wf(p),
{
}

/// A standard wager preserves escrow well-formedness: the claimant is
/// recorded once, and the consolidated roster is untouched.
pub proof fn lemma_place_wager_preserves_wf(
    pre: Wager,
    post: Wager,
    params: crate::states::MarketParams,
    amount: u64,
    direction: bool,
)
    requires
        escrow_wf(pre.escrow),
        place_wager_guard(pre, params, amount) is None,
        place_wager_applied(pre, post, params, amount, direction),
    ensures
        escrow_wf(post.escrow),
{
    lemma_roster_with_preserves_wf(pre.escrow, post.escrow, pre.signer);
}

/// An underdog bet preserves escrow well-formedness in the same way.
pub proof fn lemma_underdog_bet_preserves_wf(
    pre: Wager,
    post: Wager,
    params: crate::states::MarketParams,
    amount: u64,
)
    requires
        escrow_wf(pre.escrow),
        underdog_bet_guard(pre, params, amount) is None,
        underdog_bet_applied(pre, post, params, amount),
    ensures
        escrow_wf(post.escrow),
{
    lemma_roster_with_preserves_wf(pre.escrow, post.escrow, pre.signer);
}

/// The common roster step of both wagers: recording a bettor (fresh or
/// repeat) keeps the escrow well formed.
proof fn lemma_roster_with_preserves_wf(pre: Escrow, post: Escrow, pk: u64)
    requires
        escrow_wf(pre),
        roster_seq(post.bettors) == crate::states::roster_with(roster_seq(pre.bettors), pk),
        post.bettors_consolidated == pre.bettors_consolidated,
    ensures
        escrow_wf(post),
{
    let b = roster_seq(pre.bettors);
    if !b.contains(pk) {
        lemma_push_no_duplicates(b, pk);
        assert forall|q: u64|
            #[trigger] roster_seq(post.bettors_consolidated).contains(q) implies roster_seq(
            post.bettors,
        ).contains(q) by {
            lemma_push_keeps_contains(b, q, pk);
        }
    }
}

/// A vote preserves poll well-formedness: one fresh voter joins the roster
/// and the tally grows by exactly one, still within the threshold.
pub proof fn lemma_add_vote_preserves_wf(
    pre: Vote,
    post: Vote,
    params: crate::states::MarketParams,
    now: i64,
    amount: u64,
    direction: bool,
)
    requires
        poll_wf(pre.poll),
        add_vote_guard(pre, params, now, amount) is None,
        add_vote_applied(pre, post, params, amount, direction),
    ensures
        poll_wf(post.poll),
{
    let v = roster_seq(pre.poll.voters);
    lemma_push_no_duplicates(v, pre.signer);
    assert forall|q: u64|
        #[trigger] roster_seq(post.poll.voters_consolidated).contains(q) implies roster_seq(
        post.poll.voters,
    ).contains(q) by {
        lemma_push_keeps_contains(v, q, pre.signer);
    }
}

/// A bettor's settlement preserves escrow well-formedness: the claimant
/// joins the consolidated roster once, and was a registered bettor.
pub proof fn lemma_bettor_settlement_preserves_wf(
    pre: WagerResult,
    post: WagerResult,
    params: crate::states::MarketParams,
)
    requires
        escrow_wf(pre.escrow),
        wager_result_guard(pre, params) is None,
        bettor_consolidated_applied(pre, post),
    ensures
        escrow_wf(post.escrow),
{
    let c = roster_seq(pre.escrow.bettors_consolidated);
    lemma_push_no_duplicates(c, pre.signer);
    assert forall|q: u64|
        #[trigger] roster_seq(post.escrow.bettors_consolidated).contains(q) implies roster_seq(
        post.escrow.bettors,
    ).contains(q) by {
        let t = roster_seq(post.escrow.bettors_consolidated);
        let i = choose|i: int| 0 <= i < t.len() && t[i] == q;
        if i < c.len() {
            assert(c.contains(q));
        } else {
            assert(q == pre.signer);
        }
    }
}

/// A voter's settlement preserves poll well-formedness in the same way.
pub proof fn lemma_voter_settlement_preserves_wf(
    pre: VoterResult,
    post: VoterResult,
    params: crate::states::MarketParams,
)
    requires
        poll_wf(pre.poll),
        voter_result_guard(pre, params) is None,
        voter_consolidated_applied(pre, post),
    ensures
        poll_wf(post.poll),
{
    let c = roster_seq(pre.poll.voters_consolidated);
    lemma_push_no_duplicates(c, pre.signer);
    assert forall|q: u64|
        #[trigger] roster_seq(post.poll.voters_consolidated).contains(q) implies roster_seq(
        post.poll.voters,
    ).contains(q) by {
        let t = roster_seq(post.poll.voters_consolidated);
        let i = choose|i: int| 0 <= i < t.len() && t[i] == q;
        if i < c.len() {
            assert(c.contains(q));
        } else {
            assert(q == pre.signer);
        }
    }
}

/// A start that passes its guard finds the ledgers already empty, so the
/// reset discards no stakes and no votes.
pub proof fn lemma_start_finds_empty_ledgers(s: StartMarket, params: crate::states::MarketParams)
    requires
        start_guard(s, params) is None,
    ensures
        roster_seq(s.escrow.bettors).len() == 0,
        roster_seq(s.poll.voters).len() == 0,
        poll_tally(s.poll) == 0,
{
}

} // verus!
