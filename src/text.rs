//! Case-insensitive matching of station names.
use vstd::prelude::*;

verus! {

/// What `str::to_lowercase` makes of a text.
pub uninterp spec fn lower_of(s: Seq<char>) -> Seq<char>;

/// Relies on `str::to_lowercase`: the lowercase form of a text is a function
/// of its characters alone.
#[verifier::external_body]
fn lowercase(s: &str) -> (r: String)
    ensures
        r@ == lower_of(s@),
{
    s.to_lowercase()
}

/// `part` occurs in `whole` as a contiguous run of characters.
pub open spec fn is_infix(part: Seq<char>, whole: Seq<char>) -> bool {
    exists|i: int|
        0 <= i && i + part.len() <= whole.len() && #[trigger] whole.subrange(i, i + part.len())
            == part
}

/// Whether `part` occurs in `whole` at character index `at`.
fn occurs_at(whole: &str, part: &str, at: usize) -> (r: bool)
    requires
        at + part@.len() <= whole@.len(),
    ensures
        r == (whole@.subrange(at as int, at + part@.len()) == part@),
{
    let n = whole.unicode_len();
    let m = part.unicode_len();
    let mut j: usize = 0;
    while j < m
        invariant
            n == whole@.len(),
            m == part@.len(),
            at + m <= whole@.len(),
            j <= m,
            forall|t: int| 0 <= t < j ==> whole@[at + t] == part@[t],
        decreases m - j,
    {
        if whole.get_char(at + j) != part.get_char(j) {
            assert(whole@.subrange(at as int, at + m)[j as int] != part@[j as int]);
            return false;
        }
        j = j + 1;
    }
    assert(whole@.subrange(at as int, at + m) =~= part@);
    true
}

/// Whether `part` occurs in `whole` as a contiguous run of characters.
pub fn contains(whole: &str, part: &str) -> (r: bool)
    ensures
        r == is_infix(part@, whole@),
{
    let n = whole.unicode_len();
    let m = part.unicode_len();
    if m > n {
        return false;
    }
    let mut i: usize = 0;
    while i <= n - m
        invariant
            n == whole@.len(),
            m == part@.len(),
            m <= n,
            i <= n - m + 1,
            forall|k: int| 0 <= k < i ==> #[trigger] whole@.subrange(k, k + m) != part@,
        decreases n - m + 1 - i,
    {
        if occurs_at(whole, part, i) {
            return true;
        }
        if i == n - m {
            return false;
        }
        i = i + 1;
    }
    false
}

/// A filter matches a station where it occurs in its name or in its brand.
pub open spec fn folded_match(filter: Seq<char>, name: Seq<char>, brand: Seq<char>) -> bool {
    is_infix(filter, name) || is_infix(filter, brand)
}

/// The same match, with case folded on all three texts.
pub open spec fn station_matches(filter: Seq<char>, name: Seq<char>, brand: Seq<char>) -> bool {
    folded_match(lower_of(filter), lower_of(name), lower_of(brand))
}

/// Matches a lowercased filter against a lowercased name and brand.
pub fn matches_folded(filter: &str, name: &str, brand: &str) -> (r: bool)
    ensures
        r == folded_match(filter@, name@, brand@),
{
    contains(name, filter) || contains(brand, filter)
}

/// Matches a filter against a station's name and brand, ignoring case.
pub fn matches_station(filter: &str, name: &str, brand: &str) -> (r: bool)
    ensures
        r == station_matches(filter@, name@, brand@),
{
    let f = lowercase(filter);
    let n = lowercase(name);
    let b = lowercase(brand);
    matches_folded(f.as_str(), n.as_str(), b.as_str())
}

} // verus!
