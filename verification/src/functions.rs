//! The returns calculator, the vote tally, and the order-independent
//! roster comparison.
//!
//! All stake arithmetic is done in `u128` with the `DIV_BUFFER` fixed-point
//! buffer applied before each division; every division truncates toward
//! zero.  The spec functions below state the exact integer value of every
//! intermediate, so each executable result is pinned to one mathematical
//! expression.

use vstd::prelude::*;
use vstd::assert_multisets_equal;
use vstd::relations::{sorted_by, total_ordering};
use vstd::seq_lib::{group_to_multiset_ensures, lemma_multiset_commutative, lemma_sorted_unique};

use crate::constants::DIV_BUFFER;

verus! {

/// Weight of the "for" side once the underdog pool is apportioned:
/// `(a + b) * final_for` where `final_for = a + c*b/(a+b)`.
pub open spec fn pool_for_weight(a: int, b: int, c: int) -> int {
    a * (a + b) + b * c
}

/// Weight of the "against" side once the underdog pool is apportioned:
/// `(a + b) * final_against` where `final_against = b + c*a/(a+b)`.
pub open spec fn pool_against_weight(a: int, b: int, c: int) -> int {
    b * (a + b) + a * c
}

/// Buffered ratio `final_against / final_for`, truncated.
pub open spec fn ratio_against_for(a: int, b: int, c: int) -> int {
    (DIV_BUFFER as int) * pool_against_weight(a, b, c) / pool_for_weight(a, b, c)
}

/// Buffered ratio `final_for / final_against`, truncated.
pub open spec fn ratio_for_against(a: int, b: int, c: int) -> int {
    (DIV_BUFFER as int) * pool_for_weight(a, b, c) / pool_against_weight(a, b, c)
}

/// Buffered virtual "for" share of one bettor's underdog stake `vu`.
pub open spec fn underdog_share_for(a: int, b: int, vu: int) -> int {
    (DIV_BUFFER as int) * b * vu / (a + b)
}

/// Buffered virtual "against" share of one bettor's underdog stake `vu`.
pub open spec fn underdog_share_against(a: int, b: int, vu: int) -> int {
    (DIV_BUFFER as int) * a * vu / (a + b)
}

/// The bettor's own stake returned at par by `compute_returns`.
pub open spec fn spec_bet_returned(
    direction: bool,
    a: int,
    b: int,
    c: int,
    vnf: int,
    vna: int,
    vu: int,
) -> int {
    if direction {
        vnf + underdog_share_for(a, b, vu) / (DIV_BUFFER as int)
    } else {
        vna + underdog_share_against(a, b, vu) / (DIV_BUFFER as int)
    }
}

/// The bettor's additional profit before the protocol fee, as computed by
/// `compute_returns`.
pub open spec fn spec_winnings_pre(
    direction: bool,
    a: int,
    b: int,
    c: int,
    vnf: int,
    vna: int,
    vu: int,
) -> int {
    let buf = DIV_BUFFER as int;
    if direction {
        let r = ratio_against_for(a, b, c);
        (r * vnf + r * underdog_share_for(a, b, vu) / buf) / buf
    } else {
        let r = ratio_for_against(a, b, c);
        (r * vna + r * underdog_share_against(a, b, vu) / buf) / buf
    }
}

/// The pool totals on which the returns calculation is defined: the
/// non-underdog pool is non-empty and neither apportioned side is empty,
/// so no division hits a zero denominator.
pub open spec fn returns_defined(a: int, b: int, c: int) -> bool {
    &&& a + b > 0
    &&& pool_for_weight(a, b, c) > 0
    &&& pool_against_weight(a, b, c) > 0
}

/// Every intermediate of the returns calculation fits in `u128` and the two
/// selected results fit in `u64`.  The conjuncts mirror the products the
/// calculation forms, in the order it forms them.
pub open spec fn returns_fits(
    direction: bool,
    a: int,
    b: int,
    c: int,
    vnf: int,
    vna: int,
    vu: int,
) -> bool {
    let buf = DIV_BUFFER as int;
    let s = a + b;
    let r_af = ratio_against_for(a, b, c);
    let r_fa = ratio_for_against(a, b, c);
    let ud_f = underdog_share_for(a, b, vu);
    let ud_a = underdog_share_against(a, b, vu);
    &&& b * s <= u128::MAX
    &&& b * s + a * c <= u128::MAX
    &&& buf * (b * s + a * c) <= u128::MAX
    &&& a * s <= u128::MAX
    &&& a * s + b * c <= u128::MAX
    &&& buf * (a * s + b * c) <= u128::MAX
    &&& buf * b * vu <= u128::MAX
    &&& buf * a * vu <= u128::MAX
    &&& if direction {
        &&& r_af * vnf <= u128::MAX
        &&& r_af * ud_f <= u128::MAX
        &&& r_af * vnf + r_af * ud_f / buf <= u128::MAX
    } else {
        &&& r_fa * vna <= u128::MAX
        &&& r_fa * ud_a <= u128::MAX
        &&& r_fa * vna + r_fa * ud_a / buf <= u128::MAX
    }
    &&& spec_bet_returned(direction, a, b, c, vnf, vna, vu) <= u64::MAX
    &&& spec_winnings_pre(direction, a, b, c, vnf, vna, vu) <= u64::MAX
}

/// The parimutuel payout calculation.
///
/// Inputs: the winning `direction` (`true` means the "for" side won), the
/// escrow totals `(a, b, c)` for for/against/underdog stakes, and one
/// bettor's totals `(vnf, vna, vu)` of the same shape.
///
/// The underdog pool `c` is first apportioned between the two sides in
/// proportion to the *opposite* side's share of the non-underdog pool, and
/// a bettor's own underdog stake `vu` is split into virtual for/against
/// shares by the same pool ratio.  The result is the pair
/// `(bet_returned, winnings_pre)`: the bettor's own stake returned at par,
/// and the additional profit before the protocol fee.
pub fn compute_returns(
    direction: bool,
    a: u64,
    b: u64,
    c: u64,
    vnf: u64,
    vna: u64,
    vu: u64,
) -> (r: (u64, u64))
    requires
        returns_defined(a as int, b as int, c as int),
        returns_fits(
            direction,
            a as int,
            b as int,
            c as int,
            vnf as int,
            vna as int,
            vu as int,
        ),
    ensures
        r.0 == spec_bet_returned(
            direction,
            a as int,
            b as int,
            c as int,
            vnf as int,
            vna as int,
            vu as int,
        ),
        r.1 == spec_winnings_pre(
            direction,
            a as int,
            b as int,
            c as int,
            vnf as int,
            vna as int,
            vu as int,
        ),
{
    let sum: u128 = a as u128 + b as u128;

    let against_for_ratio: u128 = (DIV_BUFFER * (b as u128 * sum + a as u128 * c as u128))
        / (a as u128 * sum + b as u128 * c as u128);
    let for_against_ratio: u128 = (DIV_BUFFER * (a as u128 * sum + b as u128 * c as u128))
        / (b as u128 * sum + a as u128 * c as u128);

    let underdog_for: u128 = (DIV_BUFFER * b as u128 * vu as u128) / sum;
    let underdog_against: u128 = (DIV_BUFFER * a as u128 * vu as u128) / sum;

    if direction {
        let bet_returned: u128 = vnf as u128 + underdog_for / DIV_BUFFER;
        let winnings_pre: u128 = (against_for_ratio * vnf as u128
            + against_for_ratio * underdog_for / DIV_BUFFER) / DIV_BUFFER;
        (bet_returned as u64, winnings_pre as u64)
    } else {
        let bet_returned: u128 = vna as u128 + underdog_against / DIV_BUFFER;
        let winnings_pre: u128 = (for_against_ratio * vna as u128
            + for_against_ratio * underdog_against / DIV_BUFFER) / DIV_BUFFER;
        (bet_returned as u64, winnings_pre as u64)
    }
}

/// What a voter is owed: the full staked `amount` when the poll agreed with
/// the voter's direction, nothing otherwise.
pub open spec fn spec_winnings_from_votes(
    poll_direction: bool,
    voter_direction: bool,
    amount: u64,
) -> u64 {
    if poll_direction == voter_direction {
        amount
    } else {
        0
    }
}

/// A voter's settlement: `amount` if the poll's winning direction matches
/// the voter's chosen direction, `0` otherwise.
pub fn calc_winnings_from_votes(
    poll_direction: bool,
    voter_direction: bool,
    amount: u64,
) -> (winnings: u64)
    ensures
        winnings == spec_winnings_from_votes(poll_direction, voter_direction, amount),
{
    match !(poll_direction ^ voter_direction) {
        true => amount,
        false => 0,
    }
}

/// A product of two native stake values always fits the widened domain.
proof fn lemma_u64_mul_fits(x: u64, y: u64)
    ensures
        x as int * y as int <= u128::MAX,
{
    assert(x as int * y as int <= (u64::MAX as int) * (u64::MAX as int)) by (nonlinear_arith)
        requires
            0 <= x as int <= u64::MAX as int,
            0 <= y as int <= u64::MAX as int,
    ;
}

/// True exactly when `compute_returns` is defined on these inputs and every
/// intermediate of the calculation stays within the machine arithmetic.
/// Settlement tests this before computing a payout, so a pool on which the
/// calculation would be undefined is rejected rather than computed.
pub fn returns_within_limits(
    direction: bool,
    a: u64,
    b: u64,
    c: u64,
    vnf: u64,
    vna: u64,
    vu: u64,
) -> (ok: bool)
    ensures
        ok == (returns_defined(a as int, b as int, c as int) && returns_fits(
            direction,
            a as int,
            b as int,
            c as int,
            vnf as int,
            vna as int,
            vu as int,
        )),
{
    let s: u128 = a as u128 + b as u128;
    if s == 0 {
        return false;
    }
    let b_s: Option<u128> = (b as u128).checked_mul(s);
    let a_s: Option<u128> = (a as u128).checked_mul(s);
    if b_s.is_none() || a_s.is_none() {
        return false;
    }
    proof {
        lemma_u64_mul_fits(a, c);
        lemma_u64_mul_fits(b, c);
    }
    let naf: Option<u128> = b_s.unwrap().checked_add(a as u128 * c as u128);
    let nfa: Option<u128> = a_s.unwrap().checked_add(b as u128 * c as u128);
    if naf.is_none() || nfa.is_none() {
        return false;
    }
    let naf: u128 = naf.unwrap();
    let nfa: u128 = nfa.unwrap();
    if naf == 0 || nfa == 0 {
        return false;
    }
    let buf_naf: Option<u128> = DIV_BUFFER.checked_mul(naf);
    let buf_nfa: Option<u128> = DIV_BUFFER.checked_mul(nfa);
    if buf_naf.is_none() || buf_nfa.is_none() {
        return false;
    }
    let buf_b_vu: Option<u128> = (DIV_BUFFER * b as u128).checked_mul(vu as u128);
    let buf_a_vu: Option<u128> = (DIV_BUFFER * a as u128).checked_mul(vu as u128);
    if buf_b_vu.is_none() || buf_a_vu.is_none() {
        return false;
    }
    if direction {
        let r_af: u128 = buf_naf.unwrap() / nfa;
        let ud_f: u128 = buf_b_vu.unwrap() / s;
        let m1: Option<u128> = r_af.checked_mul(vnf as u128);
        let m2: Option<u128> = r_af.checked_mul(ud_f);
        if m1.is_none() || m2.is_none() {
            return false;
        }
        let total: Option<u128> = m1.unwrap().checked_add(m2.unwrap() / DIV_BUFFER);
        if total.is_none() {
            return false;
        }
        let bet_returned: u128 = vnf as u128 + ud_f / DIV_BUFFER;
        let winnings_pre: u128 = total.unwrap() / DIV_BUFFER;
        bet_returned <= u64::MAX as u128 && winnings_pre <= u64::MAX as u128
    } else {
        let r_fa: u128 = buf_nfa.unwrap() / naf;
        let ud_a: u128 = buf_a_vu.unwrap() / s;
        let m1: Option<u128> = r_fa.checked_mul(vna as u128);
        let m2: Option<u128> = r_fa.checked_mul(ud_a);
        if m1.is_none() || m2.is_none() {
            return false;
        }
        let total: Option<u128> = m1.unwrap().checked_add(m2.unwrap() / DIV_BUFFER);
        if total.is_none() {
            return false;
        }
        let bet_returned: u128 = vna as u128 + ud_a / DIV_BUFFER;
        let winnings_pre: u128 = total.unwrap() / DIV_BUFFER;
        bet_returned <= u64::MAX as u128 && winnings_pre <= u64::MAX as u128
    }
}

/// `s` is in ascending order.
pub open spec fn sorted_ids(s: Seq<u64>) -> bool {
    forall|i: int, j: int| 0 <= i < j < s.len() ==> s[i] <= s[j]
}

/// Sorts a roster of identities in place, ascending.
fn sort_ids(v: &mut Vec<u64>)
    ensures
        sorted_ids(final(v)@),
        final(v)@.to_multiset() == old(v)@.to_multiset(),
{
    broadcast use group_to_multiset_ensures;

    let mut out: Vec<u64> = Vec::new();
    let mut i: usize = 0;
    while i < v.len()
        invariant
            i <= v@.len(),
            v@ == old(v)@,
            sorted_ids(out@),
            out@.to_multiset() == v@.subrange(0, i as int).to_multiset(),
        decreases v@.len() - i,
    {
        let x: u64 = v[i];
        let mut p: usize = 0;
        while p < out.len() && out[p] < x
            invariant
                p <= out@.len(),
                forall|q: int| 0 <= q < p ==> out@[q] < x,
            decreases out@.len() - p,
        {
            p += 1;
        }
        let ghost pre = out@;
        out.insert(p, x);
        proof {
            broadcast use vstd::multiset::group_multiset_axioms;
            broadcast use group_to_multiset_ensures;

            let sub1 = pre.subrange(0, p as int);
            let sub2 = pre.subrange(p as int, pre.len() as int);
            assert(out@ == sub1.push(x) + sub2);
            assert(sorted_ids(out@)) by {
                assert(forall|q: int|
                    0 <= q < out@.len() ==> out@[q] == pre.insert(p as int, x)[q]);
            }
            assert(pre =~= sub1 + sub2);
            lemma_multiset_commutative(sub1, sub2);
            lemma_multiset_commutative(sub1.push(x), sub2);
            assert(sub1.push(x).to_multiset() =~= sub1.to_multiset().insert(x));
            assert_multisets_equal!(out@.to_multiset(), pre.to_multiset().insert(x));
            assert(v@.subrange(0, i + 1 as int) =~= v@.subrange(0, i as int).push(x));
        }
        i += 1;
    }
    proof {
        assert(v@.subrange(0, i as int) =~= v@);
    }
    *v = out;
}

/// Order-independent comparison of two rosters: sorts both in place and
/// compares them, so the result says whether the two held the same
/// identities with the same multiplicities, in any order.
pub fn vec_eq(v1: &mut Vec<u64>, v2: &mut Vec<u64>) -> (equal: bool)
    ensures
        equal == (old(v1)@.to_multiset() == old(v2)@.to_multiset()),
        final(v1)@.to_multiset() == old(v1)@.to_multiset(),
        final(v2)@.to_multiset() == old(v2)@.to_multiset(),
        sorted_ids(final(v1)@),
        sorted_ids(final(v2)@),
{
    sort_ids(v1);
    sort_ids(v2);
    let equal = ids_equal(v1, v2);
    proof {
        if !equal && v1@.to_multiset() == v2@.to_multiset() {
            let leq = |x: u64, y: u64| x <= y;
            assert(total_ordering(leq)) by {
                assert forall|x: u64, y: u64| !(#[trigger] leq(x, y)) implies leq(y, x) by {}
            }
            assert(sorted_by(v1@, leq));
            assert(sorted_by(v2@, leq));
            lemma_sorted_unique(v1@, v2@, leq);
            assert(false);
        }
    }
    equal
}

/// Element-wise equality of two rosters.
fn ids_equal(v1: &Vec<u64>, v2: &Vec<u64>) -> (r: bool)
    ensures
        r == (v1@ == v2@),
{
    if v1.len() != v2.len() {
        return false;
    }
    let mut i: usize = 0;
    while i < v1.len()
        invariant
            i <= v1@.len(),
            v1@.len() == v2@.len(),
            forall|q: int| 0 <= q < i ==> v1@[q] == v2@[q],
        decreases v1@.len() - i,
    {
        if v1[i] != v2[i] {
            return false;
        }
        i += 1;
    }
    proof {
        assert(v1@ =~= v2@);
    }
    true
}

} // verus!
