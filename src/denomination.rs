//! The first and the last sat of each whole coin inside a sat range.
use crate::height::COIN_VALUE;
use crate::ordered::{lemma_ascending_matches_unique, matches_between};
use vstd::prelude::*;
use vstd::seq_lib::lemma_seq_concat_contains_all_elements;

verus! {

/// The first sat of a whole coin.
pub open spec fn coin_first(v: int) -> bool {
    v % COIN_VALUE as int == 0
}

/// The last sat of a whole coin.
pub open spec fn coin_last(v: int) -> bool {
    (v + 1) % COIN_VALUE as int == 0
}

/// The first sat of each whole coin in `[start, end)`, ascending.
pub open spec fn coin_firsts(start: u64, end: u64) -> Seq<u64> {
    matches_between(start as int, end - 1, |v: int| coin_first(v))
}

/// The last sat of each whole coin in `[start, end)`, descending.
pub open spec fn coin_lasts(start: u64, end: u64) -> Seq<u64> {
    matches_between(start as int, end - 1, |v: int| coin_last(v)).reverse()
}

/// The first sat of each whole coin in `[start, end)`, ascending.
pub fn get_alpha_from_sat_range(start: u64, end: u64) -> (r: Vec<u64>)
    ensures
        r@ == coin_firsts(start, end),
        forall|i: int, j: int| 0 <= i < j < r.len() ==> r@[i] < r@[j],
        forall|v: u64| #[trigger] r@.contains(v) <==> start <= v < end && coin_first(v as int),
{
    let mut alphas: Vec<u64> = Vec::new();
    let unit = COIN_VALUE as u128;
    let mut alpha: u128 = (start as u128 + unit - 1) / unit * unit;
    proof {
        assert(alpha % unit == 0);
        assert(start <= alpha < start + unit);
    }
    while alpha < end as u128
        invariant
            unit == COIN_VALUE,
            alpha % unit == 0,
            start <= alpha,
            forall|i: int, j: int| 0 <= i < j < alphas.len() ==> alphas@[i] < alphas@[j],
            forall|i: int| 0 <= i < alphas.len() ==> alphas@[i] < alpha,
            forall|v: u64| #[trigger] alphas@.contains(v) <==> start <= v < alpha && v < end && coin_first(v as int),
        decreases end as int + unit - alpha,
    {
        let ghost prev = alphas@;
        alphas.push(alpha as u64);
        proof {
            assert forall|v: u64| #[trigger] alphas@.contains(v) <==> start <= v < alpha + unit
                && v < end && coin_first(v as int) by {
                lemma_seq_concat_contains_all_elements(prev, seq![alpha as u64], v);
                assert(alphas@ == prev + seq![alpha as u64]);
                if seq![alpha as u64].contains(v) {
                    assert(seq![alpha as u64][0] == alpha);
                }
                if v == alpha {
                    assert(seq![alpha as u64][0] == v);
                }
            }
        }
        alpha = alpha + unit;
    }
    proof {
        lemma_ascending_matches_unique(alphas@, start as int, end - 1, |v: int| coin_first(v));
    }
    alphas
}

/// The last sat of each whole coin in `[start, end)`, descending.
pub fn get_omega_from_sat_range(start: u64, end: u64) -> (r: Vec<u64>)
    ensures
        r@ == coin_lasts(start, end),
        forall|i: int, j: int| 0 <= i < j < r.len() ==> r@[i] > r@[j],
        forall|v: u64| #[trigger] r@.contains(v) <==> start <= v < end && coin_last(v as int),
{
    let mut omegas: Vec<u64> = Vec::new();
    let mut next: u64 = end / COIN_VALUE * COIN_VALUE;
    while next > start
        invariant
            next % COIN_VALUE == 0,
            next <= end,
            forall|i: int, j: int| 0 <= i < j < omegas.len() ==> omegas@[i] > omegas@[j],
            forall|i: int| 0 <= i < omegas.len() ==> omegas@[i] >= next,
            forall|v: u64| #[trigger] omegas@.contains(v) <==> start <= v && next <= v < end && coin_last(
                v as int,
            ),
        decreases next,
    {
        let ghost prev = omegas@;
        omegas.push(next - 1);
        proof {
            assert forall|v: u64| #[trigger] omegas@.contains(v) <==> start <= v && next
                - COIN_VALUE <= v < end && coin_last(v as int) by {
                lemma_seq_concat_contains_all_elements(prev, seq![(next - 1) as u64], v);
                assert(omegas@ == prev + seq![(next - 1) as u64]);
                if seq![(next - 1) as u64].contains(v) {
                    assert(seq![(next - 1) as u64][0] == next - 1);
                }
                if v == next - 1 {
                    assert(seq![(next - 1) as u64][0] == v);
                }
            }
        }
        next = next - COIN_VALUE;
    }
    proof {
        let up = omegas@.reverse();
        assert forall|i: int, j: int| 0 <= i < j < up.len() implies up[i] < up[j] by {
            assert(up[i] == omegas@[omegas.len() - 1 - i]);
            assert(up[j] == omegas@[omegas.len() - 1 - j]);
        }
        assert forall|v: u64| #[trigger] up.contains(v) <==> omegas@.contains(v) by {
            if up.contains(v) {
                let i = choose|i: int| 0 <= i < up.len() && up[i] == v;
                assert(omegas@[omegas.len() - 1 - i] == v);
            }
            if omegas@.contains(v) {
                let i = choose|i: int| 0 <= i < omegas.len() && omegas@[i] == v;
                assert(up[omegas.len() - 1 - i] == v);
            }
        }
        lemma_ascending_matches_unique(up, start as int, end - 1, |v: int| coin_last(v));
        assert(omegas@ =~= up.reverse());
    }
    omegas
}

} // verus!
