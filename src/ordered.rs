//! Sequences of sat indices in increasing order, and the sequence of all
//! numbers of a range that pass a test.
use vstd::prelude::*;

verus! {

/// The values of `s` increase strictly from each position to the next.
pub open spec fn strictly_ascending(s: Seq<u64>) -> bool {
    forall|i: int, j: int| 0 <= i < j < s.len() ==> s[i] < s[j]
}

/// Every number from `lo` to `hi` inclusive that passes `pred`, in ascending
/// order, as found by testing each number of the range in turn.
pub open spec fn matches_between(lo: int, hi: int, pred: spec_fn(int) -> bool) -> Seq<u64>
    decreases hi + 1 - lo,
{
    if hi < lo {
        seq![]
    } else {
        let below = matches_between(lo, hi - 1, pred);
        if pred(hi) {
            below.push(hi as u64)
        } else {
            below
        }
    }
}

/// An ascending sequence that holds exactly the numbers of a range that pass
/// a test is the one found by testing each number of the range.
pub proof fn lemma_ascending_matches_unique(s: Seq<u64>, lo: int, hi: int, pred: spec_fn(int) -> bool)
    requires
        0 <= lo,
        hi <= u64::MAX,
        strictly_ascending(s),
        forall|x: u64| #[trigger] s.contains(x) <==> lo <= x <= hi && pred(x as int),
    ensures
        s == matches_between(lo, hi, pred),
    decreases hi + 1 - lo,
{
    if hi < lo {
        if s.len() > 0 {
            assert(s.contains(s[0]));
            assert(false);
        }
        assert(s =~= seq![]);
    } else if pred(hi) {
        let top = hi as u64;
        assert(s.contains(top));
        let i = choose|i: int| 0 <= i < s.len() && s[i] == top;
        let last = s[s.len() - 1];
        assert(s.contains(last));
        if i < s.len() - 1 {
            assert(s[i] < last);
        }
        let rest = s.drop_last();
        assert forall|x: u64| #[trigger] rest.contains(x) <==> lo <= x <= hi - 1 && pred(x as int) by {
            if rest.contains(x) {
                let j = choose|j: int| 0 <= j < rest.len() && rest[j] == x;
                assert(s[j] == x);
                assert(s.contains(x));
                assert(s[j] < s[s.len() - 1]);
            }
            if lo <= x <= hi - 1 && pred(x as int) {
                assert(s.contains(x));
                let j = choose|j: int| 0 <= j < s.len() && s[j] == x;
                assert(rest[j] == x);
            }
        }
        lemma_ascending_matches_unique(rest, lo, hi - 1, pred);
        assert(s =~= rest.push(top));
    } else {
        assert forall|x: u64| #[trigger] s.contains(x) <==> lo <= x <= hi - 1 && pred(x as int) by {
            if s.contains(x) {
                assert(x != hi);
            }
        }
        lemma_ascending_matches_unique(s, lo, hi - 1, pred);
    }
}

/// Two ascending sequences, the first wholly below the second, join into an
/// ascending sequence.
pub proof fn lemma_join_ascending(a: Seq<u64>, b: Seq<u64>, bound: int)
    requires
        strictly_ascending(a),
        strictly_ascending(b),
        forall|i: int| 0 <= i < a.len() ==> a[i] < bound,
        forall|j: int| 0 <= j < b.len() ==> bound <= b[j],
    ensures
        strictly_ascending(a + b),
{
    assert forall|i: int, j: int| 0 <= i < j < (a + b).len() implies (a + b)[i] < (a + b)[j] by {
        if j < a.len() {
        } else if i < a.len() {
            assert((a + b)[i] == a[i]);
            assert((a + b)[j] == b[j - a.len()]);
        } else {
            assert((a + b)[i] == b[i - a.len()]);
            assert((a + b)[j] == b[j - a.len()]);
        }
    }
}

} // verus!
