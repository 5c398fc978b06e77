//! Curated sat intervals: the table that holds them per block height, and
//! the intersection of a query range with them.
use crate::height::FIRST_EPOCH_SUBSIDY;
use std::collections::HashMap;
use vstd::prelude::*;
use vstd::std_specs::hash::group_hash_axioms;

verus! {

/// `n` lies in one of the half-open intervals `[lo, hi)`.
pub open spec fn covered(n: int, intervals: Seq<(u64, u64)>) -> bool {
    exists|i: int| 0 <= i < intervals.len() && intervals[i].0 <= n < #[trigger] intervals[i].1
}

/// The intervals are non-empty, ascending and pairwise disjoint.
pub open spec fn sorted_disjoint(s: Seq<(u64, u64)>) -> bool {
    &&& forall|i: int| 0 <= i < s.len() ==> #[trigger] s[i].0 < s[i].1
    &&& forall|i: int, j: int| 0 <= i < j < s.len() ==> #[trigger] s[i].1 <= #[trigger] s[j].0
}

/// Each interval cut down to `[start, end)`, in the same order, leaving out
/// those that miss it.
pub open spec fn clip_all(start: u64, end: u64, s: Seq<(u64, u64)>) -> Seq<(u64, u64)>
    decreases s.len(),
{
    if s.len() == 0 {
        seq![]
    } else {
        let before = clip_all(start, end, s.drop_last());
        let (lo, hi) = s.last();
        if start >= hi || end <= lo {
            before
        } else {
            before.push((if lo > start { lo } else { start }, if hi < end { hi } else { end }))
        }
    }
}

/// The intervals, in order, that start in the block of height `h` of the
/// first subsidy epoch.
pub open spec fn bucket(s: Seq<(u64, u64)>, h: u32) -> Seq<(u64, u64)>
    decreases s.len(),
{
    if s.len() == 0 {
        seq![]
    } else {
        let before = bucket(s.drop_last(), h);
        if s.last().0 / FIRST_EPOCH_SUBSIDY == h {
            before.push(s.last())
        } else {
            before
        }
    }
}

/// A sat lies in the clipped intervals exactly when it lies in the range and
/// in one of the intervals.
pub proof fn lemma_clip_all_covers(start: u64, end: u64, s: Seq<(u64, u64)>, n: int)
    ensures
        covered(n, clip_all(start, end, s)) <==> start <= n < end && covered(n, s),
    decreases s.len(),
{
    if s.len() > 0 {
        let rest = s.drop_last();
        lemma_clip_all_covers(start, end, rest, n);
        let before = clip_all(start, end, rest);
        let c = clip_all(start, end, s);
        if covered(n, s) && start <= n < end {
            let i = choose|i: int| 0 <= i < s.len() && s[i].0 <= n < #[trigger] s[i].1;
            if i < rest.len() {
                assert(rest[i] == s[i]);
                let k = choose|k: int| 0 <= k < before.len() && before[k].0 <= n < #[trigger] before[k].1;
                assert(c[k] == before[k]);
            } else {
                assert(c[c.len() - 1].0 <= n < c[c.len() - 1].1);
            }
        }
        if covered(n, c) {
            let k = choose|k: int| 0 <= k < c.len() && c[k].0 <= n < #[trigger] c[k].1;
            if k < before.len() {
                assert(c[k] == before[k]);
                let i = choose|i: int| 0 <= i < rest.len() && rest[i].0 <= n < #[trigger] rest[i].1;
                assert(s[i] == rest[i]);
            } else {
                assert(s[s.len() - 1].0 <= n < s[s.len() - 1].1);
            }
        }
    }
}

/// Clipping sorted disjoint intervals to a non-empty range leaves sorted
/// disjoint intervals, none of them ending past the last interval.
pub proof fn lemma_clip_all_sorted(start: u64, end: u64, s: Seq<(u64, u64)>)
    requires
        sorted_disjoint(s),
        start < end,
    ensures
        sorted_disjoint(clip_all(start, end, s)),
        s.len() > 0 ==> forall|k: int|
            0 <= k < clip_all(start, end, s).len() ==> #[trigger] clip_all(start, end, s)[k].1
                <= s.last().1,
    decreases s.len(),
{
    if s.len() > 0 {
        let rest = s.drop_last();
        assert(sorted_disjoint(rest)) by {
            assert forall|i: int, j: int| 0 <= i < j < rest.len() implies #[trigger] rest[i].1
                <= #[trigger] rest[j].0 by {
                assert(s[i].1 <= s[j].0);
            }
        }
        lemma_clip_all_sorted(start, end, rest);
        let before = clip_all(start, end, rest);
        if rest.len() > 0 {
            assert(rest.last().1 <= s.last().0) by {
                assert(s[rest.len() - 1].1 <= s[s.len() - 1].0);
            }
            assert(s[rest.len() - 1].0 < s[rest.len() - 1].1);
        }
        assert forall|k: int| 0 <= k < before.len() implies #[trigger] before[k].1 <= s.last().0 by {
            assert(rest.len() > 0);
        }
    }
}

/// A bucket keeps the order of the intervals it is drawn from.
pub proof fn lemma_bucket_sorted(s: Seq<(u64, u64)>, h: u32)
    requires
        sorted_disjoint(s),
    ensures
        sorted_disjoint(bucket(s, h)),
        forall|k: int| 0 <= k < bucket(s, h).len() ==> s.contains(#[trigger] bucket(s, h)[k]),
    decreases s.len(),
{
    if s.len() > 0 {
        let rest = s.drop_last();
        assert(sorted_disjoint(rest)) by {
            assert forall|i: int, j: int| 0 <= i < j < rest.len() implies #[trigger] rest[i].1
                <= #[trigger] rest[j].0 by {
                assert(s[i].1 <= s[j].0);
            }
        }
        lemma_bucket_sorted(rest, h);
        let before = bucket(rest, h);
        let b = bucket(s, h);
        assert forall|k: int| 0 <= k < before.len() implies #[trigger] before[k].1 <= s.last().0
            && s.contains(before[k]) by {
            assert(rest.contains(before[k]));
            let i = choose|i: int| 0 <= i < rest.len() && rest[i] == before[k];
            assert(s[i] == rest[i]);
            assert(s[i].1 <= s[s.len() - 1].0);
        }
        assert(s.contains(s.last())) by {
            assert(s[s.len() - 1] == s.last());
        }
        assert forall|k: int| 0 <= k < b.len() implies s.contains(#[trigger] b[k]) by {
            if k < before.len() {
                assert(b[k] == before[k]);
            }
        }
    }
}

/// Whether `n` lies in one of the half-open intervals.
pub fn in_range(n: &u64, ranges: &Vec<(u64, u64)>) -> (r: bool)
    ensures
        r == covered(*n as int, ranges@),
{
    let mut i: usize = 0;
    while i < ranges.len()
        invariant
            i <= ranges.len(),
            forall|k: int| 0 <= k < i ==> !(ranges@[k].0 <= *n < #[trigger] ranges@[k].1),
        decreases ranges.len() - i,
    {
        if *n >= ranges[i].0 && *n < ranges[i].1 {
            return true;
        }
        i = i + 1;
    }
    false
}

/// The parts of the intervals that lie in `[start, end)`: each interval that
/// meets the range, cut down to it, in the intervals' order.
pub fn intersect_chunks(start: u64, end: u64, intervals: &Vec<(u64, u64)>) -> (r: Vec<(u64, u64)>)
    ensures
        r@ == clip_all(start, end, intervals@),
        forall|n: int| covered(n, r@) <==> start <= n < end && covered(n, intervals@),
        sorted_disjoint(intervals@) && start < end ==> sorted_disjoint(r@),
{
    let mut chunks: Vec<(u64, u64)> = Vec::new();
    let mut i: usize = 0;
    while i < intervals.len()
        invariant
            i <= intervals.len(),
            chunks@ == clip_all(start, end, intervals@.take(i as int)),
        decreases intervals.len() - i,
    {
        let (lo, hi) = intervals[i];
        proof {
            assert(intervals@.take(i + 1).drop_last() =~= intervals@.take(i as int));
        }
        if !(start >= hi || end <= lo) {
            let chunk_start = if lo > start { lo } else { start };
            let chunk_end = if hi < end { hi } else { end };
            chunks.push((chunk_start, chunk_end));
        }
        i = i + 1;
    }
    proof {
        assert(intervals@.take(intervals.len() as int) =~= intervals@);
        assert forall|n: int| covered(n, chunks@) <==> start <= n < end && covered(n, intervals@) by {
            lemma_clip_all_covers(start, end, intervals@, n);
        }
        if sorted_disjoint(intervals@) && start < end {
            lemma_clip_all_sorted(start, end, intervals@);
        }
    }
    chunks
}

/// Curated sat intervals grouped by the block of the first subsidy epoch in
/// which each starts. Built once from the interval list; never changed.
pub struct RangeTable {
    by_height: HashMap<u32, Vec<(u64, u64)>>,
}

impl RangeTable {
    /// The intervals that start in the block of height `h`, in order.
    pub closed spec fn intervals_at(&self, h: u32) -> Seq<(u64, u64)> {
        if self.by_height@.contains_key(h) {
            self.by_height@[h]@
        } else {
            seq![]
        }
    }

    /// The intervals of each height are non-empty, ascending and disjoint.
    pub open spec fn wf(&self) -> bool {
        forall|h: u32| sorted_disjoint(#[trigger] self.intervals_at(h))
    }

    /// Groups the intervals by height; refuses a list whose intervals are
    /// not non-empty, ascending and disjoint.
    pub fn from_intervals(intervals: &[(u64, u64)]) -> (r: Option<RangeTable>)
        ensures
            r.is_some() <==> sorted_disjoint(intervals@),
            r.is_some() ==> r.unwrap().wf(),
            r.is_some() ==> forall|h: u32| #[trigger] r.unwrap().intervals_at(h) == bucket(intervals@, h),
    {
        broadcast use group_hash_axioms;

        if !is_sorted_disjoint(intervals) {
            return None;
        }
        let mut by_height: HashMap<u32, Vec<(u64, u64)>> = HashMap::new();
        let mut i: usize = 0;
        while i < intervals.len()
            invariant
                i <= intervals.len(),
                forall|h: u32|
                    #[trigger] bucket(intervals@.take(i as int), h) == if by_height@.contains_key(h) {
                        by_height@[h]@
                    } else {
                        seq![]
                    },
            decreases intervals.len() - i,
        {
            let (lo, hi) = intervals[i];
            let h = (lo / FIRST_EPOCH_SUBSIDY) as u32;
            proof {
                assert(u64::MAX / FIRST_EPOCH_SUBSIDY < u32::MAX);
                assert(intervals@.take(i + 1).drop_last() =~= intervals@.take(i as int));
                assert(intervals@.take(i + 1).last() == (lo, hi));
            }
            let ghost before = by_height@;
            let mut group = match by_height.remove(&h) {
                Some(v) => v,
                None => Vec::new(),
            };
            proof {
                assert(group@ == bucket(intervals@.take(i as int), h));
            }
            group.push((lo, hi));
            by_height.insert(h, group);
            proof {
                assert forall|h2: u32|
                    #[trigger] bucket(intervals@.take(i + 1), h2) == if by_height@.contains_key(h2) {
                        by_height@[h2]@
                    } else {
                        seq![]
                    } by {
                    assert(bucket(intervals@.take(i as int), h2) == if before.contains_key(h2) {
                        before[h2]@
                    } else {
                        seq![]
                    });
                    if h2 != h {
                        assert(by_height@.contains_key(h2) == before.contains_key(h2));
                    }
                }
            }
            i = i + 1;
        }
        proof {
            assert(intervals@.take(intervals.len() as int) =~= intervals@);
        }
        let table = RangeTable { by_height };
        proof {
            assert forall|h: u32| sorted_disjoint(#[trigger] table.intervals_at(h)) by {
                lemma_bucket_sorted(intervals@, h);
            }
        }
        Some(table)
    }

    /// The parts of the intervals of height `height` that lie in `[start, end)`.
    pub fn chunks_at(&self, height: u32, start: u64, end: u64) -> (r: Vec<(u64, u64)>)
        ensures
            r@ == clip_all(start, end, self.intervals_at(height)),
            forall|n: int| covered(n, r@) <==> start <= n < end && covered(n, self.intervals_at(height)),
            self.wf() && start < end ==> sorted_disjoint(r@),
    {
        broadcast use group_hash_axioms;

        match self.by_height.get(&height) {
            Some(intervals) => intersect_chunks(start, end, intervals),
            None => {
                let none: Vec<(u64, u64)> = Vec::new();
                proof {
                    assert(none@ =~= clip_all(start, end, seq![]));
                    assert(self.intervals_at(height) == Seq::<(u64, u64)>::empty());
                }
                none
            },
        }
    }

    /// Whether sat `n` lies in one of the intervals of height `height`.
    pub fn contains_at(&self, height: u32, n: u64) -> (r: bool)
        ensures
            r == covered(n as int, self.intervals_at(height)),
    {
        broadcast use group_hash_axioms;

        match self.by_height.get(&height) {
            Some(intervals) => in_range(&n, intervals),
            None => false,
        }
    }
}

/// Whether the intervals are non-empty, ascending and pairwise disjoint.
pub fn is_sorted_disjoint(intervals: &[(u64, u64)]) -> (r: bool)
    ensures
        r == sorted_disjoint(intervals@),
{
    let mut i: usize = 0;
    while i < intervals.len()
        invariant
            i <= intervals.len(),
            forall|k: int| 0 <= k < i ==> #[trigger] intervals@[k].0 < intervals@[k].1,
            forall|k: int| 0 < k < i ==> intervals@[k - 1].1 <= #[trigger] intervals@[k].0,
        decreases intervals.len() - i,
    {
        if intervals[i].0 >= intervals[i].1 {
            return false;
        }
        if i > 0 && intervals[i - 1].1 > intervals[i].0 {
            return false;
        }
        i = i + 1;
    }
    proof {
        assert forall|a: int, b: int| 0 <= a < b < intervals.len() implies #[trigger] intervals@[a].1
            <= #[trigger] intervals@[b].0 by {
            lemma_chain_disjoint(intervals@, a, b);
        }
    }
    true
}

/// Neighbouring intervals that do not overlap make all pairs disjoint.
proof fn lemma_chain_disjoint(s: Seq<(u64, u64)>, a: int, b: int)
    requires
        0 <= a < b < s.len(),
        forall|k: int| 0 <= k < s.len() ==> #[trigger] s[k].0 < s[k].1,
        forall|k: int| 0 < k < s.len() ==> s[k - 1].1 <= #[trigger] s[k].0,
    ensures
        s[a].1 <= s[b].0,
    decreases b - a,
{
    if b > a + 1 {
        lemma_chain_disjoint(s, a, b - 1);
        assert(s[b - 1].0 < s[b - 1].1);
    }
}

} // verus!
