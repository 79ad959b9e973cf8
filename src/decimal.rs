//! Decimal prices as whole thousandths of the currency unit.
//!
//! Upstream sources report prices either as JSON numbers or as strings such
//! as `"1.813"`; both go through [`parse_milli`], so that a price means the
//! same whatever its source. A price of `0` is the "unavailable" sentinel.
use vstd::prelude::*;
use vstd::string::*;

verus! {

pub open spec fn is_digit(c: char) -> bool {
    '0' <= c && c <= '9'
}

pub open spec fn digit_value(c: char) -> int {
    c as int - '0' as int
}

pub open spec fn all_digits(s: Seq<char>) -> bool {
    forall|i: int| 0 <= i < s.len() ==> is_digit(#[trigger] s[i])
}

/// The number that a string of decimal digits denotes.
pub open spec fn digits_value(s: Seq<char>) -> int
    decreases s.len(),
{
    if s.len() == 0 {
        0
    } else {
        10 * digits_value(s.drop_last()) + digit_value(s.last())
    }
}

/// The first three digits after the decimal point, as thousandths; missing
/// digits count as zeros, further digits are dropped.
pub open spec fn thousandths(f: Seq<char>) -> int {
    100 * digit_at(f, 0) + 10 * digit_at(f, 1) + digit_at(f, 2)
}

pub open spec fn digit_at(f: Seq<char>, i: int) -> int {
    if i < f.len() {
        digit_value(f[i])
    } else {
        0
    }
}

/// `s` is `W.F`, with the dot at `d` and `W`, `F` non-empty strings of digits.
pub open spec fn whole_and_fraction(s: Seq<char>, d: int) -> bool {
    &&& 0 < d
    &&& d + 1 < s.len()
    &&& s[d] == '.'
    &&& all_digits(s.take(d))
    &&& all_digits(s.skip(d + 1))
}

/// The value of a decimal text in thousandths, rounded down: `W` or `W.F`
/// with `W` and `F` non-empty strings of digits. Anything else has no value.
pub open spec fn decimal_milli(s: Seq<char>) -> Option<int> {
    if 0 < s.len() && all_digits(s) {
        Some(1000 * digits_value(s))
    } else if exists|d: int| whole_and_fraction(s, d) {
        let d = choose|d: int| whole_and_fraction(s, d);
        Some(1000 * digits_value(s.take(d)) + thousandths(s.skip(d + 1)))
    } else {
        None
    }
}

/// The price that a decimal text gives: its value where it has one that fits
/// in a `u64`, and the sentinel `0` otherwise.
pub open spec fn milli_of(s: Seq<char>) -> u64 {
    match decimal_milli(s) {
        Some(v) => if v <= u64::MAX {
            v as u64
        } else {
            0
        },
        None => 0,
    }
}

proof fn lemma_digits_nonneg(s: Seq<char>)
    requires
        all_digits(s),
    ensures
        digits_value(s) >= 0,
    decreases s.len(),
{
    if s.len() > 0 {
        assert(all_digits(s.drop_last()));
        lemma_digits_nonneg(s.drop_last());
    }
}

/// Appending digits never makes the value smaller.
proof fn lemma_digits_prefix(s: Seq<char>, i: int)
    requires
        all_digits(s),
        0 <= i <= s.len(),
    ensures
        digits_value(s.take(i)) <= digits_value(s),
    decreases s.len(),
{
    if i < s.len() {
        let t = s.drop_last();
        assert(all_digits(t));
        assert(t.take(i) =~= s.take(i));
        lemma_digits_prefix(t, i);
        lemma_digits_nonneg(t);
    } else {
        assert(s.take(i) =~= s);
    }
}

proof fn lemma_digits_step(s: Seq<char>, i: int)
    requires
        0 <= i < s.len(),
    ensures
        digits_value(s.take(i + 1)) == 10 * digits_value(s.take(i)) + digit_value(s[i]),
{
    assert(s.take(i + 1).drop_last() =~= s.take(i));
}

/// Reads a string of decimal digits whose value is at most `limit`.
fn parse_digits(t: &str, limit: u64) -> (r: Option<u64>)
    ensures
        r is Some <==> (all_digits(t@) && digits_value(t@) <= limit),
        r is Some ==> r->0 == digits_value(t@),
{
    let n = t.unicode_len();
    let mut i: usize = 0;
    let mut v: u64 = 0;
    while i < n
        invariant
            n == t@.len(),
            i <= n,
            all_digits(t@.take(i as int)),
            v == digits_value(t@.take(i as int)),
            v <= limit,
        decreases n - i,
    {
        let c = t.get_char(i);
        if !('0' <= c && c <= '9') {
            assert(!is_digit(t@[i as int]));
            return None;
        }
        let d = (c as u32 - '0' as u32) as u64;
        proof {
            lemma_digits_step(t@, i as int);
            assert(all_digits(t@.take(i + 1)));
        }
        if d > limit || v > (limit - d) / 10 {
            proof {
                if d <= limit {
                    assert(10 * v + d > limit) by (nonlinear_arith)
                        requires v > (limit - d) / 10, d <= limit;
                }
                if all_digits(t@) {
                    lemma_digits_prefix(t@, i + 1);
                }
            }
            return None;
        }
        proof {
            assert(10 * v + d <= limit) by (nonlinear_arith)
                requires v <= (limit - d) / 10, d <= 9;
        }
        v = 10 * v + d;
        i = i + 1;
    }
    assert(t@.take(n as int) =~= t@);
    Some(v)
}

/// The price that a decimal text gives, `0` where it has none.
pub fn price_of_text(s: &str) -> (r: u64)
    ensures
        r == milli_of(s@),
{
    match parse_milli(s) {
        Some(v) => v,
        None => 0,
    }
}

/// Parses a decimal text into thousandths, rounding down: `W` or `W.F` with
/// `W` and `F` non-empty strings of digits. Signs, exponents, blanks and
/// values beyond `u64` give `None`.
pub fn parse_milli(s: &str) -> (r: Option<u64>)
    ensures
        r == (match decimal_milli(s@) {
            Some(v) => if v <= u64::MAX {
                Some(v as u64)
            } else {
                None
            },
            None => None,
        }),
{
    let n = s.unicode_len();
    let mut d: usize = 0;
    while d < n && s.get_char(d) != '.'
        invariant
            n == s@.len(),
            d <= n,
            forall|j: int| 0 <= j < d ==> s@[j] != '.',
        decreases n - d,
    {
        d = d + 1;
    }
    if d == 0 {
        proof {
            if n > 0 {
                assert(!is_digit(s@[0]));
                assert forall|e: int| !whole_and_fraction(s@, e) by {
                    if 0 < e <= n {
                        assert(s@.take(e)[0] == s@[0]);
                    }
                }
            }
        }
        return None;
    }
    proof {
        lemma_first_dot(s@, d as int);
    }
    let whole = parse_digits(s.substring_char(0, d), u64::MAX / 1000);
    assert(s@.subrange(0, d as int) =~= s@.take(d as int));
    let w = match whole {
        Some(w) => w,
        None => {
            proof {
                if all_digits(s@.take(d as int)) {
                    lemma_digits_nonneg(s@.take(d as int));
                    if d < n {
                        assert(whole_and_fraction(s@, d as int) ==> thousandths(s@.skip(d + 1)) >= 0);
                    } else {
                        assert(s@.take(d as int) =~= s@);
                    }
                }
            }
            return None;
        },
    };
    if d == n {
        assert(s@.take(d as int) =~= s@);
        return Some(w * 1000);
    }
    let frac = fraction_milli(s.substring_char(d + 1, n));
    assert(s@.subrange(d + 1, n as int) =~= s@.skip(d + 1));
    match frac {
        Some(m) => {
            assert(whole_and_fraction(s@, d as int));
            if m > u64::MAX - w * 1000 {
                None
            } else {
                Some(w * 1000 + m)
            }
        },
        None => None,
    }
}

/// The digits after a decimal point, as thousandths (see [`thousandths`]).
fn fraction_milli(f: &str) -> (r: Option<u64>)
    ensures
        r is Some <==> (0 < f@.len() && all_digits(f@)),
        r is Some ==> r->0 == thousandths(f@),
{
    let n = f.unicode_len();
    if n == 0 {
        return None;
    }
    let mut i: usize = 0;
    let mut m: u64 = 0;
    while i < n
        invariant
            n == f@.len(),
            i <= n,
            all_digits(f@.take(i as int)),
            m == thousandths(f@.take(i as int)),
            m <= 999,
        decreases n - i,
    {
        let c = f.get_char(i);
        if !('0' <= c && c <= '9') {
            assert(!is_digit(f@[i as int]));
            return None;
        }
        let d = (c as u32 - '0' as u32) as u64;
        assert(all_digits(f@.take(i + 1)));
        if i == 0 {
            m = m + 100 * d;
        } else if i == 1 {
            m = m + 10 * d;
        } else if i == 2 {
            m = m + d;
        }
        i = i + 1;
    }
    assert(f@.take(n as int) =~= f@);
    Some(m)
}

/// Where the first dot of `s` stands at `d` (or `s` has none, `d` being its
/// length), `d` is the only place at which `s` splits into whole and fraction.
proof fn lemma_first_dot(s: Seq<char>, d: int)
    requires
        0 < d <= s.len(),
        d < s.len() ==> s[d] == '.',
        forall|j: int| 0 <= j < d ==> s[j] != '.',
    ensures
        d < s.len() ==> !all_digits(s),
        forall|e: int| whole_and_fraction(s, e) ==> e == d,
{
    if d < s.len() {
        assert(!is_digit(s[d]));
    }
    assert forall|e: int| whole_and_fraction(s, e) implies e == d by {
        if e < d {
            assert(s[e] == '.');
        } else if e > d {
            assert(s.take(e)[d] == s[d]);
        }
    }
}

} // verus!
