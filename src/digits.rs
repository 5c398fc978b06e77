//! Decimal digits of natural numbers: their model as sequences, and the
//! arithmetic facts that relate a number to its digits.
use vstd::arithmetic::div_mod::*;
use vstd::arithmetic::mul::*;
use vstd::prelude::*;

verus! {

/// `10` raised to `e`.
pub open spec fn pow10(e: nat) -> nat
    decreases e,
{
    if e == 0 {
        1
    } else {
        10 * pow10((e - 1) as nat)
    }
}

/// Number of decimal digits of `n`; zero is written with one digit.
pub open spec fn num_digits(n: nat) -> nat
    decreases n,
{
    if n < 10 {
        1
    } else {
        1 + num_digits(n / 10)
    }
}

/// The `d` lowest decimal digits of `n`, most significant first, with leading
/// zeros where `n` has fewer than `d` digits.
pub open spec fn low_digits(n: nat, d: nat) -> Seq<u8>
    decreases d,
{
    if d == 0 {
        seq![]
    } else {
        low_digits(n / 10, (d - 1) as nat).push((n % 10) as u8)
    }
}

/// The decimal digits of `n`, most significant first.
pub open spec fn digits(n: nat) -> Seq<u8> {
    low_digits(n, num_digits(n))
}

/// The character that writes the digit `d`.
pub open spec fn digit_char(d: u8) -> char {
    (d + 48) as char
}

/// The decimal string of `n`.
pub open spec fn decimal(n: nat) -> Seq<char> {
    digits(n).map_values(|d: u8| digit_char(d))
}

/// The number written by a digit sequence, most significant digit first.
pub open spec fn digits_value(s: Seq<u8>) -> nat
    decreases s.len(),
{
    if s.len() == 0 {
        0
    } else {
        digits_value(s.drop_last()) * 10 + s.last() as nat
    }
}

/// The number written by the `d` lowest digits of `n` in reverse order.
pub open spec fn reversed_low_digits(n: nat, d: nat) -> nat
    decreases d,
{
    if d == 0 {
        0
    } else {
        (n % 10) * pow10((d - 1) as nat) + reversed_low_digits(n / 10, (d - 1) as nat)
    }
}

pub proof fn lemma_pow10_positive(e: nat)
    ensures
        pow10(e) >= 1,
    decreases e,
{
    if e > 0 {
        lemma_pow10_positive((e - 1) as nat);
    }
}

pub proof fn lemma_pow10_one()
    ensures
        pow10(0) == 1,
        pow10(1) == 10,
{
    assert(pow10(0) == 1);
}

pub proof fn lemma_pow10_add(a: nat, b: nat)
    ensures
        pow10(a + b) == pow10(a) * pow10(b),
    decreases a,
{
    if a == 0 {
        assert(a + b == b);
        assert(pow10(a) == 1);
        assert(pow10(a + b) == pow10(a) * pow10(b));
    } else {
        let a1 = (a - 1) as nat;
        lemma_pow10_add(a1, b);
        assert((a + b - 1) as nat == a1 + b);
        assert(pow10(a + b) == 10 * pow10(a1 + b));
        lemma_mul_is_associative(10, pow10(a1) as int, pow10(b) as int);
        assert(pow10(a) == 10 * pow10(a1));
        assert(pow10(a + b) == pow10(a) * pow10(b));
    }
}

pub proof fn lemma_pow10_monotone(a: nat, b: nat)
    requires
        a <= b,
    ensures
        pow10(a) <= pow10(b),
    decreases b,
{
    if a < b {
        lemma_pow10_monotone(a, (b - 1) as nat);
        lemma_pow10_positive((b - 1) as nat);
    }
}

pub proof fn lemma_low_digits_len(n: nat, d: nat)
    ensures
        low_digits(n, d).len() == d,
    decreases d,
{
    if d > 0 {
        lemma_low_digits_len(n / 10, (d - 1) as nat);
    }
}

/// The digits written are the number's remainder below `10^d`.
pub proof fn lemma_low_digits_value(n: nat, d: nat)
    ensures
        digits_value(low_digits(n, d)) == n % pow10(d),
    decreases d,
{
    lemma_pow10_positive(d);
    if d == 0 {
        assert(low_digits(n, d) =~= seq![]);
    } else {
        let s = low_digits(n, d);
        lemma_low_digits_value(n / 10, (d - 1) as nat);
        assert(s.drop_last() =~= low_digits(n / 10, (d - 1) as nat));
        lemma_pow10_positive((d - 1) as nat);
        lemma_mod_breakdown(n as int, 10, pow10((d - 1) as nat) as int);
        lemma_mul_is_commutative(10, (n / 10 % pow10((d - 1) as nat)) as int);
    }
}

/// Two numbers below `10^d` with the same `d` low digits are equal.
pub proof fn lemma_low_digits_injective(x: nat, y: nat, d: nat)
    requires
        x < pow10(d),
        y < pow10(d),
        low_digits(x, d) == low_digits(y, d),
    ensures
        x == y,
{
    lemma_low_digits_value(x, d);
    lemma_low_digits_value(y, d);
    lemma_small_mod(x, pow10(d));
    lemma_small_mod(y, pow10(d));
}

/// The digits of `x * 10^d + r` are those of `x` followed by the `d` digits of `r`.
pub proof fn lemma_low_digits_split(x: nat, r: nat, e: nat, d: nat)
    requires
        r < pow10(d),
    ensures
        low_digits(x * pow10(d) + r, e + d) == low_digits(x, e) + low_digits(r, d),
    decreases d,
{
    if d == 0 {
        assert(low_digits(r, d) =~= seq![]);
        assert(x * pow10(d) + r == x);
        assert(low_digits(x, e) + low_digits(r, d) =~= low_digits(x, e));
    } else {
        let p = pow10((d - 1) as nat);
        let n = x * pow10(d) + r;
        lemma_fundamental_div_mod(r as int, 10);
        assert(x * pow10(d) == 10 * (x * p)) by {
            lemma_mul_is_associative(x as int, 10, p as int);
            lemma_mul_is_commutative(x as int, 10);
            lemma_mul_is_associative(10, x as int, p as int);
        }
        assert(n == (x * p + r / 10) * 10 + r % 10) by {
            lemma_mul_is_commutative(10, (x * p + r / 10) as int);
        }
        lemma_fundamental_div_mod_converse(n as int, 10, (x * p + r / 10) as int, (r % 10) as int);
        assert(r / 10 < p) by {
            lemma_fundamental_div_mod(r as int, 10);
        }
        lemma_low_digits_split(x, r / 10, e, (d - 1) as nat);
        assert((e + d - 1) as nat == e + (d - 1) as nat);
        assert(low_digits(n, e + d) == low_digits(n / 10, (e + d - 1) as nat).push((n % 10) as u8));
        assert(low_digits(r, d) == low_digits(r / 10, (d - 1) as nat).push((r % 10) as u8));
        assert(low_digits(n, e + d) =~= low_digits(x, e) + low_digits(r, d));
    }
}

/// Reversing `d` low digits gives a number below `10^d` whose `d` digits are
/// those of `n` in reverse order.
pub proof fn lemma_reversed_low_digits(n: nat, d: nat)
    ensures
        reversed_low_digits(n, d) < pow10(d),
        low_digits(reversed_low_digits(n, d), d) == low_digits(n, d).reverse(),
    decreases d,
{
    if d == 0 {
        assert(low_digits(n, d).reverse() =~= seq![]);
    } else {
        let d1 = (d - 1) as nat;
        let p = pow10(d1);
        let rest = reversed_low_digits(n / 10, d1);
        lemma_reversed_low_digits(n / 10, d1);
        assert((n % 10) * p <= 9 * p) by {
            lemma_mul_inequality((n % 10) as int, 9, p as int);
        }
        let c = n % 10;
        lemma_low_digits_split(c, rest, 1, d1);
        assert(1 + d1 == d);
        assert(low_digits(c, 1) =~= seq![(c % 10) as u8]) by {
            assert(low_digits(c / 10, 0) =~= seq![]);
        }
        lemma_small_mod(c, 10);
        assert(low_digits(n, d) == low_digits(n / 10, d1).push((n % 10) as u8));
        assert(low_digits(reversed_low_digits(n, d), d) =~= low_digits(n, d).reverse());
    }
}

/// Bounds of a number by its count of digits.
pub proof fn lemma_num_digits_bounds(n: nat)
    ensures
        num_digits(n) >= 1,
        n < pow10(num_digits(n)),
        n >= 10 ==> pow10((num_digits(n) - 1) as nat) <= n,
    decreases n,
{
    lemma_pow10_one();
    if n >= 10 {
        lemma_fundamental_div_mod(n as int, 10);
        lemma_num_digits_bounds(n / 10);
        let k = num_digits(n / 10);
        assert(pow10(num_digits(n)) == 10 * pow10(k));
        if n / 10 >= 10 {
            assert(pow10((k - 1) as nat) <= n / 10);
            assert(pow10(k) == 10 * pow10((k - 1) as nat));
        } else {
            assert(k == 1);
        }
    }
}

/// A number between `10^(d-1)` and `10^d` has `d` digits.
pub proof fn lemma_num_digits_exact(n: nat, d: nat)
    requires
        d >= 1,
        n < pow10(d),
        d == 1 || pow10((d - 1) as nat) <= n,
    ensures
        num_digits(n) == d,
    decreases d,
{
    if d > 1 {
        let d1 = (d - 1) as nat;
        lemma_pow10_monotone(1, d1);
        lemma_pow10_one();
        assert(pow10(d) == 10 * pow10(d1));
        if d1 > 1 {
            assert(pow10(d1) == 10 * pow10((d1 - 1) as nat));
        }
        lemma_num_digits_exact(n / 10, d1);
    } else {
        lemma_pow10_one();
    }
}

/// A number lying between two numbers of `d` digits has `d` digits too.
pub proof fn lemma_num_digits_between(a: nat, x: nat, b: nat)
    requires
        a <= x <= b,
        num_digits(a) == num_digits(b),
    ensures
        num_digits(x) == num_digits(a),
{
    lemma_num_digits_bounds(a);
    lemma_num_digits_bounds(b);
    let d = num_digits(a);
    if d == 1 {
        lemma_num_digits_exact(x, d);
    } else {
        if a < 10 {
            assert(d == 1);
        }
        lemma_num_digits_exact(x, d);
    }
}

/// The decimal string of `n` is its own reversal exactly when its digit
/// sequence is.
pub proof fn lemma_decimal_reversal(n: nat)
    ensures
        (decimal(n) == decimal(n).reverse()) <==> (digits(n) == digits(n).reverse()),
{
    let s = digits(n);
    let f = |d: u8| digit_char(d);
    assert(decimal(n).reverse() =~= s.reverse().map_values(f));
    if decimal(n) == decimal(n).reverse() {
        assert forall|i: int| 0 <= i < s.len() implies s[i] == s.reverse()[i] by {
            assert(decimal(n)[i] == decimal(n).reverse()[i]);
        }
        assert(s =~= s.reverse());
    }
}

/// The powers of ten around the range of `u64`.
pub proof fn lemma_pow10_u64_range()
    ensures
        pow10(10) == 10_000_000_000nat,
        pow10(19) == 10_000_000_000_000_000_000nat,
        pow10(20) == 100_000_000_000_000_000_000nat,
{
    reveal_with_fuel(pow10, 21);
}

/// A `u64` has at most twenty digits.
pub proof fn lemma_num_digits_u64(n: u64)
    ensures
        1 <= num_digits(n as nat) <= 20,
{
    lemma_num_digits_bounds(n as nat);
    lemma_pow10_u64_range();
    if num_digits(n as nat) > 20 {
        lemma_pow10_monotone(20, (num_digits(n as nat) - 1) as nat);
    }
}

/// `10^e`, for the exponents whose power fits in a `u64`.
pub fn pow10_u64(e: u32) -> (r: u64)
    requires
        e <= 19,
    ensures
        r == pow10(e as nat),
{
    let mut r: u64 = 1;
    let mut i: u32 = 0;
    while i < e
        invariant
            i <= e <= 19,
            r == pow10(i as nat),
        decreases e - i,
    {
        proof {
            lemma_pow10_monotone((i + 1) as nat, 19);
            lemma_pow10_u64_range();
        }
        r = r * 10;
        i = i + 1;
    }
    r
}

/// The number of decimal digits of `n`.
pub fn count_digits(n: u64) -> (d: u32)
    ensures
        d == num_digits(n as nat),
        1 <= d <= 20,
{
    proof {
        lemma_num_digits_u64(n);
    }
    let mut m: u64 = n;
    let mut d: u32 = 1;
    while m >= 10
        invariant
            d + num_digits(m as nat) == num_digits(n as nat) + 1,
            num_digits(n as nat) <= 20,
            1 <= d,
        decreases m,
    {
        proof {
            lemma_num_digits_bounds((m / 10) as nat);
        }
        m = m / 10;
        d = d + 1;
    }
    d
}

/// The decimal digits of `n`, most significant first.
pub fn decimal_digits(n: u64) -> (r: Vec<u8>)
    ensures
        r@ == digits(n as nat),
{
    let len = count_digits(n);
    let mut low_first: Vec<u8> = Vec::new();
    let mut m: u64 = n;
    let mut left: u32 = len;
    while left > 0
        invariant
            digits(n as nat) == low_digits(m as nat, left as nat) + low_first@.reverse(),
        decreases left,
    {
        let ghost before = low_first@;
        low_first.push((m % 10) as u8);
        proof {
            assert(low_digits(m as nat, left as nat) == low_digits((m / 10) as nat, (left - 1) as nat).push((m % 10) as u8));
            assert(low_first@.reverse() =~= seq![(m % 10) as u8] + before.reverse());
            assert(low_digits(m as nat, left as nat) + before.reverse() =~= low_digits((m / 10) as nat, (left - 1) as nat) + low_first@.reverse());
        }
        m = m / 10;
        left = left - 1;
    }
    assert(low_digits(m as nat, 0) =~= seq![]);
    assert(digits(n as nat) =~= low_first@.reverse());
    let mut r: Vec<u8> = Vec::new();
    let total = low_first.len();
    let mut i: usize = total;
    while i > 0
        invariant
            i <= total == low_first.len(),
            r.len() == total - i,
            forall|j: int| 0 <= j < r.len() ==> r@[j] == low_first@[total - 1 - j],
        decreases i,
    {
        i = i - 1;
        r.push(low_first[i]);
    }
    assert(r@ =~= low_first@.reverse());
    r
}

/// The number written by the `d` lowest digits of `m` in reverse order.
pub fn reverse_low_digits(m: u64, d: u32) -> (r: u64)
    requires
        d <= 19,
    ensures
        r == reversed_low_digits(m as nat, d as nat),
{
    proof {
        lemma_reversed_low_digits(m as nat, d as nat);
        lemma_pow10_monotone(d as nat, 19);
        lemma_pow10_u64_range();
    }
    let mut acc: u64 = 0;
    let mut x: u64 = m;
    let mut rem: u32 = d;
    while rem > 0
        invariant
            rem <= d <= 19,
            acc + reversed_low_digits(x as nat, rem as nat) == reversed_low_digits(m as nat, d as nat),
            reversed_low_digits(m as nat, d as nat) < 10_000_000_000_000_000_000,
        decreases rem,
    {
        let p = pow10_u64(rem - 1);
        proof {
            lemma_pow10_positive((rem - 1) as nat);
            assert((x % 10) * p <= 9 * p) by {
                lemma_mul_inequality((x % 10) as int, 9, p as int);
            }
        }
        acc = acc + (x % 10) * p;
        x = x / 10;
        rem = rem - 1;
    }
    acc
}

} // verus!
