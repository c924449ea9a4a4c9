//! Verified string helpers: equality, substring search, trimming and
//! unsigned-number parsing over `Seq<char>` views, plus the few character
//! and case facts that only the standard library can compute.

use vstd::prelude::*;
use vstd::string::StrSliceExecFns;

verus! {

/// What `str::to_lowercase` returns for a given character sequence.
pub uninterp spec fn lower_of(s: Seq<char>) -> Seq<char>;

/// Whether a character has the standard library's alphanumeric property.
pub uninterp spec fn char_alphanumeric(c: char) -> bool;

/// Whether a character has the standard library's whitespace property.
pub uninterp spec fn char_whitespace(c: char) -> bool;

/// Relies on str::to_lowercase: the result depends on the characters alone.
#[verifier::external_body]
pub fn lowercase(s: &str) -> (r: String)
    ensures
        r@ == lower_of(s@),
{
    s.to_lowercase()
}

/// Relies on char::is_alphanumeric: a fixed property of the character alone.
pub assume_specification[ char::is_alphanumeric ](c: char) -> (r: bool)
    ensures
        r == char_alphanumeric(c),
;

/// Relies on char::is_whitespace: a fixed property of the character alone.
pub assume_specification[ char::is_whitespace ](c: char) -> (r: bool)
    ensures
        r == char_whitespace(c),
;

/// An exact duplicate of an optional string.
pub fn clone_opt_string(o: &Option<String>) -> (r: Option<String>)
    ensures
        r == *o,
{
    match o {
        Some(s) => Some(s.clone()),
        None => None,
    }
}

/// Character-for-character equality of two string slices.
pub fn str_eq(a: &str, b: &str) -> (r: bool)
    ensures
        r == (a@ == b@),
{
    let n = a.unicode_len();
    if n != b.unicode_len() {
        return false;
    }
    let mut i: usize = 0;
    while i < n
        invariant
            i <= n,
            n == a@.len(),
            n == b@.len(),
            forall|j: int| 0 <= j < i ==> a@[j] == b@[j],
        decreases n - i,
    {
        if a.get_char(i) != b.get_char(i) {
            return false;
        }
        i = i + 1;
    }
    proof {
        assert(a@ =~= b@);
    }
    true
}

/// `p` occurs as a contiguous run somewhere in `s`.
pub open spec fn spec_contains(s: Seq<char>, p: Seq<char>) -> bool {
    exists|i: int| 0 <= i <= s.len() - p.len() && #[trigger] s.subrange(i, i + p.len()) == p
}

/// The characters of `pat` stand in `s` starting at position `at`.
fn matches_at(s: &str, pat: &str, at: usize) -> (r: bool)
    requires
        at + pat@.len() <= s@.len(),
        s@.len() <= usize::MAX,
    ensures
        r == (s@.subrange(at as int, at + pat@.len()) == pat@),
{
    let m = pat.unicode_len();
    let mut j: usize = 0;
    while j < m
        invariant
            j <= m,
            m == pat@.len(),
            at + m <= s@.len(),
            s@.len() <= usize::MAX,
            forall|k: int| 0 <= k < j ==> s@[at + k] == pat@[k],
        decreases m - j,
    {
        if s.get_char(at + j) != pat.get_char(j) {
            proof {
                assert(s@.subrange(at as int, at + pat@.len())[j as int] != pat@[j as int]);
            }
            return false;
        }
        j = j + 1;
    }
    proof {
        assert(s@.subrange(at as int, at + pat@.len()) =~= pat@);
    }
    true
}

/// Substring search, the way `str::contains` answers it.
pub fn contains_substr(s: &str, pat: &str) -> (r: bool)
    ensures
        r == spec_contains(s@, pat@),
{
    let n = s.unicode_len();
    let m = pat.unicode_len();
    if m > n {
        return false;
    }
    if m == 0 {
        proof {
            assert(s@.subrange(0, 0 + pat@.len() as int) =~= pat@);
            assert(spec_contains(s@, pat@));
        }
        return true;
    }
    let mut i: usize = 0;
    while i <= n - m
        invariant
            0 < m <= n,
            n == s@.len(),
            m == pat@.len(),
            i <= n - m + 1,
            forall|k: int| 0 <= k < i ==> #[trigger] s@.subrange(k, k + pat@.len()) != pat@,
        decreases n - i,
    {
        if matches_at(s, pat, i) {
            proof {
                assert(0 <= i as int <= s@.len() - pat@.len() && s@.subrange(
                    i as int,
                    i + pat@.len(),
                ) == pat@);
            }
            return true;
        }
        i = i + 1;
    }
    false
}

/// `s` with the standard library's whitespace removed from the front.
pub open spec fn ltrim(s: Seq<char>) -> Seq<char>
    decreases s.len(),
{
    if s.len() > 0 && char_whitespace(s[0]) {
        ltrim(s.drop_first())
    } else {
        s
    }
}

/// `s` with the standard library's whitespace removed from the back.
pub open spec fn rtrim(s: Seq<char>) -> Seq<char>
    decreases s.len(),
{
    if s.len() > 0 && char_whitespace(s[s.len() - 1]) {
        rtrim(s.drop_last())
    } else {
        s
    }
}

/// `s` with whitespace removed from both ends, as `str::trim` leaves it.
pub open spec fn spec_trim(s: Seq<char>) -> Seq<char> {
    rtrim(ltrim(s))
}

proof fn lemma_ltrim_step(s: Seq<char>, lo: int, n: int)
    requires
        0 <= lo < n <= s.len(),
        char_whitespace(s[lo]),
    ensures
        ltrim(s.subrange(lo, n)) == ltrim(s.subrange(lo + 1, n)),
{
    assert(s.subrange(lo, n).drop_first() =~= s.subrange(lo + 1, n));
}

proof fn lemma_rtrim_step(s: Seq<char>, lo: int, hi: int)
    requires
        0 <= lo < hi <= s.len(),
        char_whitespace(s[hi - 1]),
    ensures
        rtrim(s.subrange(lo, hi)) == rtrim(s.subrange(lo, hi - 1)),
{
    assert(s.subrange(lo, hi).drop_last() =~= s.subrange(lo, hi - 1));
}

/// The slice of `s` that remains when whitespace is trimmed from both ends.
pub fn trim_str<'a>(s: &'a str) -> (r: &'a str)
    ensures
        r@ == spec_trim(s@),
{
    let n = s.unicode_len();
    let mut lo: usize = 0;
    proof {
        assert(s@.subrange(0, n as int) =~= s@);
    }
    while lo < n && s.get_char(lo).is_whitespace()
        invariant
            lo <= n,
            n == s@.len(),
            ltrim(s@) == ltrim(s@.subrange(lo as int, n as int)),
        decreases n - lo,
    {
        proof {
            lemma_ltrim_step(s@, lo as int, n as int);
        }
        lo = lo + 1;
    }
    proof {
        if lo < n {
            assert(ltrim(s@) == s@.subrange(lo as int, n as int));
        } else {
            assert(s@.subrange(lo as int, n as int).len() == 0);
            assert(ltrim(s@) == s@.subrange(lo as int, n as int));
        }
    }
    let mut hi: usize = n;
    while hi > lo && s.get_char(hi - 1).is_whitespace()
        invariant
            lo <= hi <= n,
            n == s@.len(),
            ltrim(s@) == s@.subrange(lo as int, n as int),
            rtrim(s@.subrange(lo as int, n as int)) == rtrim(s@.subrange(lo as int, hi as int)),
        decreases hi,
    {
        proof {
            lemma_rtrim_step(s@, lo as int, hi as int);
        }
        hi = hi - 1;
    }
    proof {
        assert(rtrim(s@.subrange(lo as int, hi as int)) == s@.subrange(lo as int, hi as int));
    }
    s.substring_char(lo, hi)
}

/// A character standing for a decimal digit.
pub open spec fn is_digit_char(c: char) -> bool {
    48 <= c as u32 <= 57
}

/// The value of a decimal digit character.
pub open spec fn digit_val(c: char) -> int {
    c as u32 - 48
}

/// The number that a run of decimal digits denotes.
pub open spec fn digits_val(s: Seq<char>) -> int
    decreases s.len(),
{
    if s.len() == 0 {
        0
    } else {
        digits_val(s.drop_last()) * 10 + digit_val(s.last())
    }
}

/// The digit run of a number: everything after an optional leading plus.
pub open spec fn parse_digits_part(s: Seq<char>) -> Seq<char> {
    if s.len() > 0 && s[0] == '+' {
        s.subrange(1, s.len() as int)
    } else {
        s
    }
}

/// What `str::parse::<u32>` returns: an optional plus sign, then at least
/// one decimal digit, and a value that fits the type; anything else fails.
pub open spec fn spec_parse_u32(s: Seq<char>) -> Option<u32> {
    let digits = parse_digits_part(s);
    if digits.len() > 0 && (forall|i: int| 0 <= i < digits.len() ==> is_digit_char(digits[i]))
        && digits_val(digits) <= u32::MAX {
        Some(digits_val(digits) as u32)
    } else {
        None
    }
}

proof fn lemma_digits_val_nonneg(s: Seq<char>)
    requires
        forall|i: int| 0 <= i < s.len() ==> is_digit_char(s[i]),
    ensures
        digits_val(s) >= 0,
    decreases s.len(),
{
    if s.len() > 0 {
        lemma_digits_val_nonneg(s.drop_last());
    }
}

proof fn lemma_digits_val_extend(s: Seq<char>, i: int)
    requires
        0 <= i < s.len(),
    ensures
        digits_val(s.subrange(0, i + 1)) == digits_val(s.subrange(0, i)) * 10 + digit_val(s[i]),
{
    assert(s.subrange(0, i + 1).drop_last() =~= s.subrange(0, i));
    assert(s.subrange(0, i + 1).last() == s[i]);
}

proof fn lemma_digits_val_prefix_bound(s: Seq<char>, i: int)
    requires
        0 <= i <= s.len(),
        forall|j: int| 0 <= j < s.len() ==> is_digit_char(s[j]),
    ensures
        digits_val(s.subrange(0, i)) <= digits_val(s),
    decreases s.len() - i,
{
    if i == s.len() {
        assert(s.subrange(0, i) =~= s);
    } else {
        lemma_digits_val_extend(s, i);
        lemma_digits_val_nonneg(s.subrange(0, i));
        lemma_digits_val_prefix_bound(s, i + 1);
    }
}

/// Decimal parsing of a whole string slice, with the standard library's
/// acceptance rule for `u32`.
pub fn parse_u32_str(s: &str) -> (r: Option<u32>)
    ensures
        r == spec_parse_u32(s@),
{
    let n = s.unicode_len();
    let start: usize = if n > 0 && s.get_char(0) == '+' {
        1
    } else {
        0
    };
    let ghost digits = parse_digits_part(s@);
    proof {
        assert(digits =~= s@.subrange(start as int, n as int));
    }
    if start == n {
        return None;
    }
    let mut acc: u64 = 0;
    let mut i: usize = start;
    while i < n
        invariant
            start <= i <= n,
            n == s@.len(),
            digits == parse_digits_part(s@),
            digits == s@.subrange(start as int, n as int),
            forall|j: int| start <= j < i ==> is_digit_char(s@[j]),
            acc == digits_val(s@.subrange(start as int, i as int)),
            acc <= u32::MAX,
        decreases n - i,
    {
        let c = s.get_char(i);
        let v = c as u32;
        if v < 48 || v > 57 {
            proof {
                let j = i - start;
                assert(digits[j] == s@[i as int]);
                assert(!is_digit_char(digits[j]));
                assert(!(forall|k: int| 0 <= k < digits.len() ==> is_digit_char(digits[k])));
            }
            return None;
        }
        let d = (v - 48) as u64;
        proof {
            lemma_digits_val_extend(s@.subrange(start as int, n as int), i - start);
            assert(s@.subrange(start as int, n as int).subrange(0, i - start + 1) =~= s@.subrange(
                start as int,
                i as int + 1,
            ));
            assert(s@.subrange(start as int, n as int).subrange(0, i - start) =~= s@.subrange(
                start as int,
                i as int,
            ));
            assert(s@.subrange(start as int, n as int)[i - start] == s@[i as int]);
        }
        acc = acc * 10 + d;
        i = i + 1;
        if acc > 0xffff_ffff {
            proof {
                if forall|k: int| 0 <= k < digits.len() ==> is_digit_char(digits[k]) {
                    assert(digits.subrange(0, i - start) =~= s@.subrange(
                        start as int,
                        i as int,
                    ));
                    lemma_digits_val_prefix_bound(digits, i - start);
                    assert(digits_val(digits) > u32::MAX);
                }
                assert(spec_parse_u32(s@) is None);
            }
            return None;
        }
    }
    proof {
        assert(s@.subrange(start as int, i as int) =~= digits);
        assert(forall|j: int| 0 <= j < digits.len() ==> is_digit_char(digits[j]));
    }
    Some(acc as u32)
}

} // verus!
