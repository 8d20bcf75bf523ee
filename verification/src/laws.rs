//! Laws of the returns calculator.
//!
//! These lemmas pin down the global shape of the payout algorithm: the two
//! directions are mirror images of one another, the calculation degenerates
//! to the textbook parimutuel split when there are no underdog bets, and a
//! bettor whose side is the entire pool gets exactly par back.

use vstd::prelude::*;
use vstd::arithmetic::div_mod::{
    lemma_div_multiples_vanish, lemma_div_multiples_vanish_quotient, lemma_div_of0,
    lemma_fundamental_div_mod,
};

use crate::constants::DIV_BUFFER;
use crate::functions::{
    pool_against_weight, pool_for_weight, spec_bet_returned, spec_winnings_pre,
    underdog_share_against, underdog_share_for,
};

verus! {

/// Returns symmetry: flipping the winning direction while swapping the two
/// sides' pool totals and the bettor's for/against stakes swaps the results.
pub proof fn lemma_returns_symmetry(a: int, b: int, c: int, vnf: int, vna: int, vu: int)
    ensures
        spec_bet_returned(true, a, b, c, vnf, vna, vu) == spec_bet_returned(
            false,
            b,
            a,
            c,
            vna,
            vnf,
            vu,
        ),
        spec_winnings_pre(true, a, b, c, vnf, vna, vu) == spec_winnings_pre(
            false,
            b,
            a,
            c,
            vna,
            vnf,
            vu,
        ),
{
    assert(pool_for_weight(b, a, c) == pool_against_weight(a, b, c)) by (nonlinear_arith);
    assert(pool_against_weight(b, a, c) == pool_for_weight(a, b, c)) by (nonlinear_arith);
    assert(underdog_share_against(b, a, vu) == underdog_share_for(a, b, vu));
}

/// No-underdog degeneration: with an empty underdog pool, a pure for-bettor
/// on the winning side is owed the classic parimutuel split
/// `floor(b * vnf / a)`, whenever the buffered ratio is exact (the scaling
/// buffer times `b` divides evenly by `a`).
pub proof fn lemma_no_underdog_degeneration(a: int, b: int, vnf: int)
    requires
        0 < a,
        0 < b,
        0 <= vnf,
        (DIV_BUFFER as int * b) % a == 0,
    ensures
        spec_bet_returned(true, a, b, 0, vnf, 0, 0) == vnf,
        spec_winnings_pre(true, a, b, 0, vnf, 0, 0) == b * vnf / a,
{
    let buf = DIV_BUFFER as int;
    lemma_div_of0(a + b);
    lemma_div_of0(buf);
    assert(underdog_share_for(a, b, 0) == 0) by {
        assert(buf * b * 0 == 0) by (nonlinear_arith);
    }
    assert(spec_bet_returned(true, a, b, 0, vnf, 0, 0) == vnf);

    // The buffered ratio collapses: the common factor (a + b) cancels.
    let r = buf * pool_against_weight(a, b, 0) / pool_for_weight(a, b, 0);
    assert(r == buf * b / a) by {
        lemma_div_multiples_vanish_quotient(a + b, buf * b, a);
        assert(buf * pool_against_weight(a, b, 0) == (a + b) * (buf * b)) by (nonlinear_arith);
        assert(pool_for_weight(a, b, 0) == (a + b) * a) by (nonlinear_arith);
        assert(buf * b >= 0) by (nonlinear_arith)
            requires
                0 < b,
                0 < buf,
        ;
    }

    // Exactness: a divides buf * b, so r * a recovers buf * b.
    lemma_fundamental_div_mod(buf * b, a);
    assert(buf * b == a * r);

    // Removing the buffer leaves the classic split.
    assert(r * vnf / buf == b * vnf / a) by {
        assert(r >= 0) by (nonlinear_arith)
            requires
                buf * b == a * r,
                0 < a,
                0 < buf,
                0 < b,
        ;
        assert(r * vnf >= 0) by (nonlinear_arith)
            requires
                r >= 0,
                vnf >= 0,
        ;
        assert(b * vnf >= 0) by (nonlinear_arith)
            requires
                0 < b,
                vnf >= 0,
        ;
        lemma_div_multiples_vanish_quotient(a, r * vnf, buf);
        lemma_div_multiples_vanish_quotient(buf, b * vnf, a);
        assert(a * (r * vnf) == buf * (b * vnf)) by (nonlinear_arith)
            requires
                buf * b == a * r,
        ;
        assert(a * buf == buf * a) by (nonlinear_arith);
    }
    assert(spec_winnings_pre(true, a, b, 0, vnf, 0, 0) == r * vnf / buf) by {
        assert(r * underdog_share_for(a, b, 0) == 0) by (nonlinear_arith)
            requires
                underdog_share_for(a, b, 0) == 0,
        ;
        lemma_div_of0(buf);
    }
}

/// With no opposing standard stake, a winning for-bettor's stake comes
/// back exactly at par, whatever the underdog pool holds: an empty
/// "against" side leaves nothing to split into the virtual shares.
pub proof fn lemma_full_pool_bet_returned(a: int, c: int, vnf: int, vna: int, vu: int)
    requires
        0 < a,
    ensures
        spec_bet_returned(true, a, 0, c, vnf, vna, vu) == vnf,
{
    lemma_div_of0(a);
    lemma_div_of0(DIV_BUFFER as int);
    assert(underdog_share_for(a, 0, vu) == 0) by {
        assert((DIV_BUFFER as int) * 0 * vu == 0) by (nonlinear_arith);
    }
}

/// Full-pool-wins identity: when the bettor's side is the entire
/// non-underdog pool (`b == 0`) and the underdog pool mirrors it exactly
/// (`c == a`), a winning for-bettor gets par back and par again in
/// pre-fee winnings: there is no opposing stake to profit from beyond the
/// mirrored pool.
pub proof fn lemma_full_pool_returns_par(a: int, c: int, vnf: int, vna: int, vu: int)
    requires
        0 < a,
        c == a,
        0 <= vnf,
        0 <= vu,
    ensures
        spec_bet_returned(true, a, 0, c, vnf, vna, vu) == vnf,
        spec_winnings_pre(true, a, 0, c, vnf, vna, vu) == vnf,
{
    let buf = DIV_BUFFER as int;
    lemma_div_of0(a);
    lemma_div_of0(buf);
    assert(underdog_share_for(a, 0, vu) == 0) by {
        assert(buf * 0 * vu == 0) by (nonlinear_arith);
    }
    assert(spec_bet_returned(true, a, 0, c, vnf, vna, vu) == vnf);

    assert(pool_for_weight(a, 0, c) == a * a) by {
        assert(a * (a + 0) + 0 * c == a * a) by (nonlinear_arith);
    }
    assert(pool_against_weight(a, 0, c) == a * a) by {
        assert(0 * (a + 0) + a * c == a * a) by (nonlinear_arith)
            requires
                c == a,
        ;
    }
    assert(a * a > 0) by (nonlinear_arith)
        requires
            0 < a,
    ;
    let r = buf * pool_against_weight(a, 0, c) / pool_for_weight(a, 0, c);
    assert(r == buf) by {
        lemma_div_multiples_vanish(buf, a * a);
        assert(buf * (a * a) == (a * a) * buf) by (nonlinear_arith);
    }
    assert(spec_winnings_pre(true, a, 0, c, vnf, vna, vu) == (buf * vnf) / buf) by {
        assert(buf * underdog_share_for(a, 0, vu) == 0) by (nonlinear_arith)
            requires
                underdog_share_for(a, 0, vu) == 0,
        ;
    }
    lemma_div_multiples_vanish(vnf, buf);
}

} // verus!
