//! Palindromic sat indices: the predicates, and an enumeration of all
//! palindromes in a range that costs time in proportion to the number of
//! digits and of matches, not to the width of the range.
use crate::digits::{
    count_digits, decimal, decimal_digits, digits, lemma_decimal_reversal,
    lemma_low_digits_injective, lemma_low_digits_len, lemma_low_digits_split,
    lemma_num_digits_between, lemma_num_digits_bounds, lemma_num_digits_exact, lemma_pow10_add,
    lemma_pow10_monotone, lemma_pow10_one, lemma_pow10_positive, lemma_pow10_u64_range,
    lemma_reversed_low_digits, low_digits, num_digits, pow10, pow10_u64, reverse_low_digits,
    reversed_low_digits,
};
use crate::ordered::{
    lemma_ascending_matches_unique, lemma_join_ascending, matches_between, strictly_ascending,
};
use vstd::arithmetic::div_mod::*;
use vstd::arithmetic::mul::*;
use vstd::prelude::*;
use vstd::seq_lib::lemma_seq_concat_contains_all_elements;

verus! {

/// `n` reads the same forwards and backwards in decimal.
pub open spec fn palindromic(n: nat) -> bool {
    decimal(n) == decimal(n).reverse()
}

/// Every decimal digit of `n` is the same, as in `4444`.
pub open spec fn uniform_digits(n: nat) -> bool {
    forall|i: int| 0 <= i < digits(n).len() ==> #[trigger] digits(n)[i] == digits(n)[0]
}

/// The decimal string of `n` is one palindrome written twice over, as in
/// `7685867 7685867`.
pub open spec fn twice_written_palindrome(n: nat) -> bool {
    let ds = digits(n);
    let half = ds.subrange(0, (ds.len() / 2) as int);
    &&& ds.len() % 2 == 0
    &&& ds == half + half
    &&& half == half.reverse()
}

/// The palindrome of `len` digits whose leading `len - len / 2` digits write
/// `k`; its trailing `len / 2` digits mirror the leading ones, the middle digit
/// of an odd length standing once.
pub open spec fn mirror(k: nat, len: nat) -> nat {
    k * pow10(len / 2) + reversed_low_digits(k / pow10(len % 2), len / 2)
}

/// A number of `len` digits is a palindrome exactly when it is the mirror of
/// its leading `len - len / 2` digits.
pub proof fn lemma_palindrome_is_mirror(n: nat, len: nat)
    requires
        num_digits(n) == len,
    ensures
        palindromic(n) <==> n == mirror(n / pow10(len / 2), len),
{
    let h = len / 2;
    let o = len % 2;
    let ph = pow10(h);
    let po = pow10(o);
    lemma_pow10_positive(h);
    lemma_pow10_positive(o);
    let k = n / ph;
    let r = n % ph;
    lemma_fundamental_div_mod(n as int, ph as int);
    lemma_mul_is_commutative(ph as int, k as int);
    lemma_mod_bound(n as int, ph as int);
    lemma_low_digits_split(k, r, (len - h) as nat, h);
    assert((len - h) as nat + h == len);
    let m = k / po;
    let c = k % po;
    lemma_fundamental_div_mod(k as int, po as int);
    lemma_mul_is_commutative(po as int, m as int);
    lemma_mod_bound(k as int, po as int);
    lemma_low_digits_split(m, c, h, o);
    assert(h + o == (len - h) as nat);
    let s1 = low_digits(m, h);
    let s2 = low_digits(c, o);
    let s3 = low_digits(r, h);
    lemma_low_digits_len(m, h);
    lemma_low_digits_len(c, o);
    lemma_low_digits_len(r, h);
    let ds = digits(n);
    assert(ds == s1 + s2 + s3);
    let big_r = reversed_low_digits(m, h);
    lemma_reversed_low_digits(m, h);
    lemma_decimal_reversal(n);
    if ds == ds.reverse() {
        assert forall|i: int| 0 <= i < h implies s3[i] == s1.reverse()[i] by {
            assert(ds[h + o + i] == ds.reverse()[h + o + i]);
        }
        assert(s3 =~= s1.reverse());
        lemma_low_digits_injective(r, big_r, h);
    }
    if r == big_r {
        assert forall|j: int| 0 <= j < len implies ds[j] == ds.reverse()[j] by {
            if j < h {
                assert(ds[j] == s1[j]);
                assert(ds.reverse()[j] == ds[len - 1 - j]);
                assert(ds[len - 1 - j] == s3[h - 1 - j]);
                assert(s1.reverse()[h - 1 - j] == s1[j]);
            } else if j < h + o {
                assert(len - 1 - j == j);
            } else {
                assert(ds[j] == s3[j - h - o]);
                assert(ds.reverse()[j] == ds[len - 1 - j]);
                assert(ds[len - 1 - j] == s1[len - 1 - j]);
                assert(s1.reverse()[j - h - o] == s1[h - 1 - (j - h - o)]);
            }
        }
        assert(ds =~= ds.reverse());
    }
}

/// The mirror of a prefix of `len - len / 2` digits is a palindrome of `len`
/// digits that starts with that prefix.
pub proof fn lemma_mirror_shape(k: nat, len: nat)
    requires
        len >= 1,
        k < pow10((len - len / 2) as nat),
        len == 1 || pow10((len - len / 2 - 1) as nat) <= k,
    ensures
        num_digits(mirror(k, len)) == len,
        mirror(k, len) / pow10(len / 2) == k,
        palindromic(mirror(k, len)),
        k * pow10(len / 2) <= mirror(k, len) < (k + 1) * pow10(len / 2),
{
    let h = len / 2;
    let pl = (len - h) as nat;
    let ph = pow10(h);
    lemma_pow10_positive(h);
    lemma_pow10_positive(len % 2);
    let big_r = reversed_low_digits(k / pow10(len % 2), h);
    lemma_reversed_low_digits(k / pow10(len % 2), h);
    let p = mirror(k, len);
    assert(p == k * ph + big_r);
    lemma_fundamental_div_mod_converse(p as int, ph as int, k as int, big_r as int);
    lemma_mul_is_distributive_add_other_way(ph as int, k as int, 1);
    lemma_mul_inequality((k + 1) as int, pow10(pl) as int, ph as int);
    lemma_pow10_add(pl, h);
    assert(pl + h == len);
    if len == 1 {
        lemma_pow10_one();
        lemma_num_digits_exact(p, len);
    } else {
        let pl1 = (pl - 1) as nat;
        lemma_mul_inequality(pow10(pl1) as int, k as int, ph as int);
        lemma_pow10_add(pl1, h);
        assert(pl1 + h == (len - 1) as nat);
        lemma_num_digits_exact(p, len);
    }
    lemma_palindrome_is_mirror(p, len);
}

/// Mirrors grow with their prefix.
pub proof fn lemma_mirror_increasing(k1: nat, k2: nat, len: nat)
    requires
        k1 < k2,
    ensures
        mirror(k1, len) < mirror(k2, len),
{
    let h = len / 2;
    let ph = pow10(h);
    lemma_pow10_positive(h);
    lemma_pow10_positive(len % 2);
    lemma_reversed_low_digits(k1 / pow10(len % 2), h);
    lemma_mul_is_distributive_add_other_way(ph as int, k1 as int, 1);
    lemma_mul_inequality((k1 + 1) as int, k2 as int, ph as int);
}

/// Whether the decimal string of `n` equals its own reversal.
pub fn is_palindrome(n: &u64) -> (r: bool)
    ensures
        r == palindromic(*n as nat),
{
    let ds = decimal_digits(*n);
    proof {
        lemma_decimal_reversal(*n as nat);
    }
    let len = ds.len();
    let mut i: usize = 0;
    while i < len / 2
        invariant
            len == ds.len(),
            ds@ == digits(*n as nat),
            i <= len / 2,
            forall|j: int| 0 <= j < i ==> #[trigger] ds@[j] == ds@[len - 1 - j],
        decreases len / 2 - i,
    {
        if ds[i] != ds[len - 1 - i] {
            proof {
                lemma_decimal_reversal(*n as nat);
            }
            assert(ds@.reverse()[i as int] == ds@[len - 1 - i]);
            return false;
        }
        i = i + 1;
    }
    assert forall|j: int| 0 <= j < len implies ds@[j] == ds@.reverse()[j] by {
        if j >= len / 2 {
            if len - 1 - j < len / 2 {
                assert(ds@[len - 1 - j] == ds@[len - 1 - (len - 1 - j)]);
            }
        }
    }
    assert(ds@ =~= ds@.reverse());
    true
}

/// Whether every decimal digit of `n` is the same.
pub fn is_uniform_palindrome(n: &u64) -> (r: bool)
    ensures
        r == uniform_digits(*n as nat),
{
    let ds = decimal_digits(*n);
    proof {
        lemma_num_digits_bounds(*n as nat);
        lemma_low_digits_len(*n as nat, num_digits(*n as nat));
    }
    let first = ds[0];
    let mut i: usize = 1;
    while i < ds.len()
        invariant
            ds@ == digits(*n as nat),
            first == ds@[0],
            1 <= i <= ds.len(),
            forall|j: int| 0 <= j < i ==> ds@[j] == first,
        decreases ds.len() - i,
    {
        if ds[i] != first {
            return false;
        }
        i = i + 1;
    }
    true
}

/// Whether the decimal string of `n` is one palindrome written twice over.
pub fn is_perfect_palindrome(n: &u64) -> (r: bool)
    ensures
        r == twice_written_palindrome(*n as nat),
{
    let ds = decimal_digits(*n);
    let len = ds.len();
    let ghost whole = ds@;
    let ghost half_seq = whole.subrange(0, (len / 2) as int);
    if len % 2 != 0 {
        return false;
    }
    let half = len / 2;
    let mut i: usize = 0;
    while i < half
        invariant
            len == ds.len(),
            ds@ == whole,
            whole == digits(*n as nat),
            half == len / 2,
            len % 2 == 0,
            half_seq == whole.subrange(0, half as int),
            i <= half,
            forall|j: int| 0 <= j < i ==> #[trigger] ds@[j] == ds@[half + j] && ds@[j] == ds@[half - 1 - j],
        decreases half - i,
    {
        if ds[i] != ds[half + i] {
            assert((half_seq + half_seq)[half + i] == half_seq[i as int]);
            return false;
        }
        if ds[i] != ds[half - 1 - i] {
            assert(half_seq.reverse()[i as int] == half_seq[half - 1 - i]);
            return false;
        }
        i = i + 1;
    }
    assert(whole =~= half_seq + half_seq);
    assert(half_seq =~= half_seq.reverse());
    true
}

/// Every palindrome from `lo` to `hi` inclusive, in ascending order, as found
/// by testing each number of the range in turn.
pub open spec fn palindromes_between(lo: int, hi: int) -> Seq<u64> {
    matches_between(lo, hi, |x: int| palindromic(x as nat))
}

/// The mirrors of the prefixes `lo, lo + 1, ..., hi - 1`, in that order.
pub open spec fn mirrors(lo: nat, hi: nat, len: nat) -> Seq<u64> {
    Seq::new(if hi > lo { (hi - lo) as nat } else { 0 }, |i: int| mirror((lo + i) as nat, len) as u64)
}

/// The leading `len - len / 2` digits of a number of `len` digits.
pub proof fn lemma_prefix_bounds(x: nat, len: nat)
    requires
        num_digits(x) == len,
    ensures
        len >= 1,
        x / pow10(len / 2) < pow10((len - len / 2) as nat),
        len == 1 || pow10((len - len / 2 - 1) as nat) <= x / pow10(len / 2),
{
    lemma_num_digits_bounds(x);
    let h = len / 2;
    let pl = (len - h) as nat;
    let ph = pow10(h);
    lemma_pow10_positive(h);
    lemma_pow10_add(pl, h);
    assert(pl + h == len);
    lemma_fundamental_div_mod(x as int, ph as int);
    lemma_mod_bound(x as int, ph as int);
    if x / ph >= pow10(pl) {
        lemma_mul_inequality(pow10(pl) as int, (x / ph) as int, ph as int);
        lemma_mul_is_commutative(ph as int, (x / ph) as int);
    }
    if len >= 2 {
        let pl1 = (pl - 1) as nat;
        lemma_pow10_add(pl1, h);
        assert(pl1 + h == (len - 1) as nat);
        lemma_div_is_ordered((pow10(pl1) * ph) as int, x as int, ph as int);
        lemma_mul_is_commutative(ph as int, pow10(pl1) as int);
        lemma_div_multiples_vanish(pow10(pl1) as int, ph as int);
    }
}

/// The mirror of `k` at `len` digits, computed wide enough never to overflow.
fn mirror_u128(k: u64, len: u32) -> (r: u128)
    requires
        1 <= len <= 20,
    ensures
        r == mirror(k as nat, len as nat),
{
    let h = len / 2;
    let ph = pow10_u64(h);
    let po = pow10_u64(len % 2);
    proof {
        lemma_pow10_positive((len % 2) as nat);
        lemma_pow10_monotone(h as nat, 10);
        lemma_pow10_u64_range();
        lemma_reversed_low_digits((k / po) as nat, h as nat);
        lemma_mul_inequality(k as int, u64::MAX as int, ph as int);
        lemma_mul_inequality(ph as int, 10_000_000_000, u64::MAX as int);
        lemma_mul_is_commutative(ph as int, u64::MAX as int);
    }
    let tail = reverse_low_digits(k / po, h);
    (k as u128) * (ph as u128) + (tail as u128)
}

/// All palindromes between `start` and `end` inclusive, ascending, where both
/// ends have the same number of digits.
pub fn get_palindromes_from_equal_length_range(start: u64, end: u64) -> (r: Vec<u64>)
    requires
        num_digits(start as nat) == num_digits(end as nat),
    ensures
        strictly_ascending(r@),
        forall|x: u64| #[trigger] r@.contains(x) <==> start <= x <= end && palindromic(x as nat),
{
    let len = count_digits(start);
    let h = len / 2;
    let ph = pow10_u64(h);
    proof {
        lemma_pow10_positive(h as nat);
    }
    let first = start / ph;
    let last = end / ph;
    let ghost lenn = len as nat;
    let ghost pl = (lenn - h) as nat;
    proof {
        lemma_prefix_bounds(start as nat, lenn);
        lemma_prefix_bounds(end as nat, lenn);
        lemma_pow10_monotone(pl, 10);
        lemma_pow10_u64_range();
        lemma_fundamental_div_mod(start as int, ph as int);
        lemma_mod_bound(start as int, ph as int);
        lemma_fundamental_div_mod(end as int, ph as int);
        lemma_mul_is_commutative(ph as int, first as int);
        lemma_mul_is_commutative(ph as int, last as int);
        lemma_mul_is_distributive_add_other_way(ph as int, first as int, 1);
    }
    let mut out: Vec<u64> = Vec::new();
    let m = mirror_u128(first, len);
    proof {
        lemma_mirror_shape(first as nat, lenn);
    }
    if start as u128 <= m && m <= end as u128 {
        out.push(m as u64);
    }
    let ghost pre = out@;
    let mut k: u64 = first + 1;
    while k < last
        invariant
            lenn == len == num_digits(start as nat),
            1 <= len <= 20,
            h == len / 2,
            pl == (lenn - h) as nat,
            ph == pow10(h as nat),
            ph >= 1,
            first == start / ph,
            last == end / ph,
            last < pow10(pl),
            first < pow10(pl),
            len == 1 || pow10((pl - 1) as nat) <= first,
            first + 1 <= k,
            k <= last || k == first + 1,
            start < (first + 1) * ph,
            last * ph <= end,
            out@ == pre + mirrors((first + 1) as nat, k as nat, lenn),
            pre.len() <= 1,
            pre.len() == 1 ==> pre[0] == mirror(first as nat, lenn),
            start <= mirror(first as nat, lenn) <= end ==> pre.len() == 1,
            strictly_ascending(out@),
            forall|i: int|
                0 <= i < out.len() ==> start <= #[trigger] out@[i] <= end && palindromic(out@[i] as nat)
                    && out@[i] < k * ph,
        decreases last - k,
    {
        let m = mirror_u128(k, len);
        proof {
            lemma_mirror_shape(k as nat, lenn);
            lemma_mul_is_distributive_add_other_way(ph as int, k as int, 1);
            lemma_mul_inequality((k + 1) as int, last as int, ph as int);
            lemma_mul_inequality((first + 1) as int, k as int, ph as int);
        }
        let ghost before = out@;
        out.push(m as u64);
        proof {
            assert(out@ =~= pre + mirrors((first + 1) as nat, (k + 1) as nat, lenn));
            assert forall|i: int| 0 <= i < out.len() implies start <= #[trigger] out@[i] <= end
                && palindromic(out@[i] as nat) && out@[i] < (k + 1) * ph by {
                if i < before.len() {
                    assert(out@[i] == before[i]);
                }
            }
        }
        k = k + 1;
    }
    let ghost k_end = k;
    let ghost middle = out@;
    if first != last {
        let m = mirror_u128(last, len);
        if start as u128 <= m && m <= end as u128 {
            proof {
                lemma_mirror_shape(last as nat, lenn);
                if k > last {
                    lemma_mirror_increasing(last as nat, first as nat, lenn);
                    lemma_mul_is_distributive_add_other_way(ph as int, last as int, 1);
                    lemma_mul_inequality((last + 1) as int, first as int, ph as int);
                }
                lemma_mul_inequality(k as int, last as int, ph as int);
            }
            out.push(m as u64);
            proof {
                assert forall|i: int| 0 <= i < out.len() implies start <= #[trigger] out@[i] <= end
                    && palindromic(out@[i] as nat) by {
                    if i < middle.len() {
                        assert(out@[i] == middle[i]);
                    }
                }
            }
        }
    }
    proof {
        assert forall|x: u64| start <= x <= end && palindromic(x as nat) implies out@.contains(x) by {
            lemma_num_digits_between(start as nat, x as nat, end as nat);
            lemma_palindrome_is_mirror(x as nat, lenn);
            let q = x / ph;
            lemma_div_is_ordered(start as int, x as int, ph as int);
            lemma_div_is_ordered(x as int, end as int, ph as int);
            if q == first {
                assert(out@[0] == x);
            } else if q < last {
                let idx = pre.len() + (q - first - 1);
                assert(middle[idx] == mirror(q as nat, lenn) as u64);
                assert(out@[idx] == x);
            } else {
                assert(out@[out.len() - 1] == x);
            }
        }
        assert forall|x: u64| out@.contains(x) implies start <= x <= end && palindromic(x as nat) by {
            let i = choose|i: int| 0 <= i < out.len() && out@[i] == x;
            assert(start <= out@[i] <= end);
        }
    }
    out
}

/// A larger number has at least as many digits.
proof fn lemma_num_digits_monotone(a: nat, b: nat)
    requires
        a <= b,
    ensures
        num_digits(a) <= num_digits(b),
{
    lemma_num_digits_bounds(a);
    lemma_num_digits_bounds(b);
    if num_digits(a) > num_digits(b) {
        if a < 10 {
            assert(num_digits(a) == 1);
        }
        lemma_pow10_monotone(num_digits(b), (num_digits(a) - 1) as nat);
    }
}

/// The least and the greatest number of `d` digits.
proof fn lemma_digit_length_ends(d: nat)
    requires
        d >= 1,
    ensures
        num_digits(pow10((d - 1) as nat)) == d,
        num_digits((pow10(d) - 1) as nat) == d,
        pow10((d - 1) as nat) < pow10(d),
{
    lemma_pow10_positive((d - 1) as nat);
    assert(pow10(d) == 10 * pow10((d - 1) as nat));
    lemma_num_digits_exact(pow10((d - 1) as nat), d);
    lemma_num_digits_exact((pow10(d) - 1) as nat, d);
}

/// All palindromes from `start` to `end` inclusive, in ascending order.
///
/// The range is cut at each change of digit count, and each piece is
/// enumerated by its palindromes' leading digits.
pub fn get_palindromes_from_sat_range(start: u64, end: u64) -> (r: Vec<u64>)
    ensures
        strictly_ascending(r@),
        forall|x: u64| #[trigger] r@.contains(x) <==> start <= x <= end && palindromic(x as nat),
        r@ == palindromes_between(start as int, end as int),
{
    broadcast use lemma_seq_concat_contains_all_elements;

    if start > end {
        let r: Vec<u64> = Vec::new();
        proof {
            lemma_ascending_matches_unique(r@, start as int, end as int, |x: int| palindromic(x as nat));
        }
        return r;
    }
    let ls = count_digits(start);
    let le = count_digits(end);
    if ls == le {
        let r = get_palindromes_from_equal_length_range(start, end);
        proof {
            lemma_ascending_matches_unique(r@, start as int, end as int, |x: int| palindromic(x as nat));
        }
        return r;
    }
    proof {
        lemma_num_digits_monotone(start as nat, end as nat);
        lemma_pow10_monotone(ls as nat, 19);
        lemma_pow10_u64_range();
        lemma_digit_length_ends(ls as nat);
        lemma_num_digits_bounds(start as nat);
    }
    let top = pow10_u64(ls) - 1;
    let mut out = get_palindromes_from_equal_length_range(start, top);
    let mut i: u32 = ls + 1;
    while i < le
        invariant
            ls + 1 <= i <= le <= 20,
            le == num_digits(end as nat),
            start < pow10((i - 1) as nat),
            strictly_ascending(out@),
            forall|x: u64| #[trigger] out@.contains(x) <==> start <= x < pow10((i - 1) as nat) && palindromic(x as nat),
        decreases le - i,
    {
        proof {
            lemma_pow10_monotone(i as nat, 19);
            lemma_pow10_u64_range();
            lemma_digit_length_ends(i as nat);
        }
        let lo = pow10_u64(i - 1);
        let hi = pow10_u64(i) - 1;
        let mut piece = get_palindromes_from_equal_length_range(lo, hi);
        proof {
            assert forall|j: int| 0 <= j < out@.len() implies out@[j] < lo by {
                assert(out@.contains(out@[j]));
            }
            assert forall|j: int| 0 <= j < piece@.len() implies lo <= piece@[j] by {
                assert(piece@.contains(piece@[j]));
            }
            lemma_join_ascending(out@, piece@, lo as int);
        }
        let ghost prev = out@;
        let ghost added = piece@;
        out.append(&mut piece);
        proof {
            assert forall|x: u64| #[trigger] out@.contains(x) <==> start <= x < pow10(i as nat)
                && palindromic(x as nat) by {
                lemma_seq_concat_contains_all_elements(prev, added, x);
            }
        }
        i = i + 1;
    }
    proof {
        lemma_digit_length_ends(le as nat);
        lemma_pow10_monotone((le - 1) as nat, 19);
        lemma_pow10_u64_range();
        lemma_num_digits_bounds(end as nat);
    }
    let lo = pow10_u64(le - 1);
    let mut piece = get_palindromes_from_equal_length_range(lo, end);
    proof {
        assert forall|j: int| 0 <= j < out@.len() implies out@[j] < lo by {
            assert(out@.contains(out@[j]));
        }
        assert forall|j: int| 0 <= j < piece@.len() implies lo <= piece@[j] by {
            assert(piece@.contains(piece@[j]));
        }
        lemma_join_ascending(out@, piece@, lo as int);
    }
    let ghost prev = out@;
    let ghost added = piece@;
    out.append(&mut piece);
    proof {
        assert forall|x: u64| #[trigger] out@.contains(x) <==> start <= x <= end && palindromic(
            x as nat,
        ) by {
            lemma_seq_concat_contains_all_elements(prev, added, x);
        }
        lemma_ascending_matches_unique(out@, start as int, end as int, |x: int| palindromic(x as nat));
    }
    out
}

} // verus!
