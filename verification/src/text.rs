//! Verified text helpers: suffix and prefix tests, case folding,
//! concatenation, and the character-splitting specs that repository
//! references are described with.

use vstd::prelude::*;
use vstd::string::*;

verus! {

/// `suf` is a suffix of `s`.
pub open spec fn is_suffix_of(suf: Seq<char>, s: Seq<char>) -> bool {
    suf.len() <= s.len() && s.subrange(s.len() - suf.len(), s.len() as int) == suf
}

/// `pre` is a prefix of `s`.
pub open spec fn is_prefix_of(pre: Seq<char>, s: Seq<char>) -> bool {
    pre.len() <= s.len() && s.subrange(0, pre.len() as int) == pre
}

/// Whether `s` ends with `suffix`, compared by characters.
pub fn ends_with(s: &str, suffix: &str) -> (r: bool)
    ensures
        r == is_suffix_of(suffix@, s@),
{
    let n: usize = s.unicode_len();
    let m: usize = suffix.unicode_len();
    if m > n {
        return false;
    }
    let mut i: usize = 0;
    while i < m
        invariant
            m <= n,
            n == s@.len(),
            m == suffix@.len(),
            i <= m,
            forall|j: int| 0 <= j < i ==> s@[n - m + j] == suffix@[j],
        decreases m - i,
    {
        let a = s.get_char(n - m + i);
        let b = suffix.get_char(i);
        if a != b {
            assert(!is_suffix_of(suffix@, s@)) by {
                if is_suffix_of(suffix@, s@) {
                    assert(s@.subrange(n - m, n as int)[i as int] == s@[n - m + i]);
                }
            }
            return false;
        }
        i = i + 1;
    }
    assert(s@.subrange(n - m, n as int) =~= suffix@);
    true
}

/// Whether `s` starts with `prefix`, compared by characters.
pub fn starts_with(s: &str, prefix: &str) -> (r: bool)
    ensures
        r == is_prefix_of(prefix@, s@),
{
    let n: usize = s.unicode_len();
    let m: usize = prefix.unicode_len();
    if m > n {
        return false;
    }
    let mut i: usize = 0;
    while i < m
        invariant
            m <= n,
            n == s@.len(),
            m == prefix@.len(),
            i <= m,
            forall|j: int| 0 <= j < i ==> s@[j] == prefix@[j],
        decreases m - i,
    {
        let a = s.get_char(i);
        let b = prefix.get_char(i);
        if a != b {
            assert(!is_prefix_of(prefix@, s@)) by {
                if is_prefix_of(prefix@, s@) {
                    assert(s@.subrange(0, m as int)[i as int] == s@[i as int]);
                }
            }
            return false;
        }
        i = i + 1;
    }
    assert(s@.subrange(0, m as int) =~= prefix@);
    true
}

/// The lower-cased form of a character sequence, as `str::to_lowercase`
/// computes it: a function of the characters alone.
pub uninterp spec fn lower_of(s: Seq<char>) -> Seq<char>;

/// Relies on `str::to_lowercase`: the result depends on the characters
/// alone, so two texts compare equal up to case exactly when their
/// lower-cased forms are equal.
#[verifier::external_body]
pub(crate) fn to_lowercase(s: &str) -> (r: String)
    ensures
        r@ == lower_of(s@),
{
    s.to_lowercase()
}

/// The concatenation of two pieces of text.
pub fn concat2(a: &str, b: &str) -> (r: String)
    ensures
        r@ == a@ + b@,
{
    let mut s = a.to_owned();
    s.append(b);
    s
}

/// The concatenation of four pieces of text.
pub fn concat4(a: &str, b: &str, c: &str, d: &str) -> (r: String)
    ensures
        r@ == a@ + b@ + c@ + d@,
{
    let mut s = a.to_owned();
    s.append(b);
    s.append(c);
    s.append(d);
    s
}

/// The text of `s` from character position `from` on.
pub fn substring_after(s: &str, from: usize) -> (r: String)
    requires
        from <= s@.len(),
    ensures
        r@ == s@.skip(from as int),
{
    let n = s.unicode_len();
    let sub = s.substring_char(from, n);
    assert(s@.subrange(from as int, n as int) =~= s@.skip(from as int));
    sub.to_owned()
}

/// The index of the first occurrence of `c` in `s`, or `-1` if absent.
pub open spec fn first_index_of(s: Seq<char>, c: char) -> int
    decreases s.len(),
{
    if s.len() == 0 {
        -1
    } else if s[0] == c {
        0
    } else {
        let r = first_index_of(s.skip(1), c);
        if r < 0 {
            -1
        } else {
            r + 1
        }
    }
}

/// Whether `c` occurs in `s`.
pub open spec fn contains_char(s: Seq<char>, c: char) -> bool {
    first_index_of(s, c) >= 0
}

/// The text before the first occurrence of `c`, or all of `s` if absent.
pub open spec fn before_char(s: Seq<char>, c: char) -> Seq<char> {
    if contains_char(s, c) {
        s.take(first_index_of(s, c))
    } else {
        s
    }
}

/// The text after the first occurrence of `c`; empty if absent.
pub open spec fn after_char(s: Seq<char>, c: char) -> Seq<char> {
    if contains_char(s, c) {
        s.skip(first_index_of(s, c) + 1)
    } else {
        Seq::empty()
    }
}

/// How many times `c` occurs in `s`.
pub open spec fn count_char(s: Seq<char>, c: char) -> nat
    decreases s.len(),
{
    if s.len() == 0 {
        0
    } else {
        (if s[0] == c {
            1nat
        } else {
            0nat
        }) + count_char(s.skip(1), c)
    }
}

} // verus!
