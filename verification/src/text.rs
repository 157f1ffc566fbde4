//! Sequences of characters: white space, trimming and substrings.

use vstd::prelude::*;
use vstd::string::*;

verus! {

/// Whether `c` is white space in the sense of `char::is_whitespace`, that is,
/// whether it has Unicode's `White_Space` property.
pub uninterp spec fn is_whitespace(c: char) -> bool;

/// Calls `char::is_whitespace`. The contract ties the answer to the name
/// [`is_whitespace`], and so claims no more than that the answer depends on
/// the character alone.
#[verifier::external_body]
fn char_is_whitespace(c: char) -> (b: bool)
    ensures
        b == is_whitespace(c),
{
    c.is_whitespace()
}

/// Every character of `s` is white space. True of the empty sequence.
pub open spec fn is_blank(s: Seq<char>) -> bool {
    forall|i: int| 0 <= i < s.len() ==> is_whitespace(#[trigger] s[i])
}

/// The index of the first character of `s` that is not white space, or the
/// length of `s` if there is none.
pub open spec fn trim_start(s: Seq<char>) -> int
    decreases s.len(),
{
    if s.len() == 0 || !is_whitespace(s[0]) {
        0
    } else {
        1 + trim_start(s.drop_first())
    }
}

/// One past the index of the last character of `s` that is not white space,
/// or zero if there is none.
pub open spec fn trim_end(s: Seq<char>) -> int
    decreases s.len(),
{
    if s.len() == 0 || !is_whitespace(s.last()) {
        s.len() as int
    } else {
        trim_end(s.drop_last())
    }
}

/// `s` without its leading and trailing white space.
pub open spec fn trimmed(s: Seq<char>) -> Seq<char> {
    if trim_start(s) < trim_end(s) {
        s.subrange(trim_start(s), trim_end(s))
    } else {
        Seq::empty()
    }
}

/// What [`trimmed`] cuts away is white space, and what it keeps neither begins
/// nor ends with white space.
pub proof fn lemma_trim_bounds(s: Seq<char>)
    ensures
        0 <= trim_start(s) <= s.len(),
        0 <= trim_end(s) <= s.len(),
        forall|i: int| 0 <= i < trim_start(s) ==> is_whitespace(#[trigger] s[i]),
        forall|i: int| trim_end(s) <= i < s.len() ==> is_whitespace(#[trigger] s[i]),
        trim_start(s) < s.len() ==> !is_whitespace(s[trim_start(s)]),
        0 < trim_end(s) ==> !is_whitespace(s[trim_end(s) - 1]),
    decreases s.len(),
{
    if s.len() > 0 {
        if is_whitespace(s[0]) {
            let t = s.drop_first();
            lemma_trim_bounds(t);
            assert forall|i: int| 0 <= i < trim_start(s) implies is_whitespace(#[trigger] s[i]) by {
                if i > 0 {
                    assert(s[i] == t[i - 1]);
                }
            }
            if trim_start(s) < s.len() {
                assert(s[trim_start(s)] == t[trim_start(t)]);
            }
        }
        if is_whitespace(s.last()) {
            let t = s.drop_last();
            lemma_trim_bounds(t);
            assert forall|i: int| trim_end(s) <= i < s.len() implies is_whitespace(
                #[trigger] s[i],
            ) by {
                if i < s.len() - 1 {
                    assert(s[i] == t[i]);
                }
            }
            if 0 < trim_end(s) {
                assert(s[trim_end(s) - 1] == t[trim_end(t) - 1]);
            }
        }
    }
}

/// The two cuts are fixed by what they leave out and where they stop: the
/// first character that is not white space, and the last.
pub proof fn lemma_trim_unique(s: Seq<char>, a: int, b: int)
    requires
        0 <= a <= s.len(),
        0 <= b <= s.len(),
        forall|i: int| 0 <= i < a ==> is_whitespace(#[trigger] s[i]),
        forall|i: int| b <= i < s.len() ==> is_whitespace(#[trigger] s[i]),
        a < s.len() ==> !is_whitespace(s[a]),
        0 < b ==> !is_whitespace(s[b - 1]),
    ensures
        a == trim_start(s),
        b == trim_end(s),
{
    lemma_trim_bounds(s);
    let a0: int = trim_start(s);
    let b0: int = trim_end(s);
    if a < a0 {
        assert(is_whitespace(s[a]));
    }
    if a0 < a {
        assert(is_whitespace(s[a0]));
    }
    if b < b0 {
        assert(is_whitespace(s[b0 - 1]));
    }
    if b0 < b {
        assert(is_whitespace(s[b - 1]));
    }
}

/// A sequence is blank exactly when nothing is left of it after trimming.
pub proof fn lemma_blank_iff_trimmed_empty(s: Seq<char>)
    ensures
        is_blank(s) <==> trimmed(s).len() == 0,
        is_blank(s) <==> trim_start(s) == s.len(),
{
    lemma_trim_bounds(s);
    let a: int = trim_start(s);
    let b: int = trim_end(s);
    if is_blank(s) {
        if a < s.len() {
            assert(is_whitespace(s[a]));
        }
    } else {
        let i: int = choose|i: int| 0 <= i < s.len() && !is_whitespace(#[trigger] s[i]);
        assert(a <= i < b);
    }
    if a == s.len() {
        assert forall|i: int| 0 <= i < s.len() implies is_whitespace(#[trigger] s[i]) by {}
    }
    if a < s.len() {
        if b <= a {
            assert(is_whitespace(s[a]));
        }
    }
}

/// `needle` stands in `hay` at index `at`, character for character.
pub open spec fn occurs_at(hay: Seq<char>, needle: Seq<char>, at: int) -> bool {
    &&& 0 <= at
    &&& at + needle.len() <= hay.len()
    &&& hay.subrange(at, at + needle.len()) == needle
}

/// `needle` is a contiguous part of `hay`.
pub open spec fn has_substring(hay: Seq<char>, needle: Seq<char>) -> bool {
    exists|at: int| occurs_at(hay, needle, at)
}

/// Whatever is put between two sequences is a contiguous part of the whole.
pub proof fn lemma_concat_has_substring(before: Seq<char>, middle: Seq<char>, after: Seq<char>)
    ensures
        occurs_at(before + middle + after, middle, before.len() as int),
        has_substring(before + middle + after, middle),
{
    let whole = before + middle + after;
    let at: int = before.len() as int;
    assert(whole.subrange(at, at + middle.len()) =~= middle);
    assert(occurs_at(whole, middle, at));
}

/// Whether `s` holds nothing but white space.
pub fn blank(s: &str) -> (b: bool)
    ensures
        b == is_blank(s@),
{
    for c in it: s.chars()
        invariant
            it.seq() == s@,
            forall|j: int| 0 <= j < it.index() ==> is_whitespace(#[trigger] s@[j]),
    {
        if !char_is_whitespace(c) {
            return false;
        }
    }
    true
}

/// `s` without its leading and trailing white space, as a slice of `s`.
pub fn trim(s: &str) -> (r: &str)
    ensures
        r@ == trimmed(s@),
{
    let n: usize = s.unicode_len();
    let mut first: usize = n;
    let mut last: usize = 0;
    let mut i: usize = 0;
    for c in it: s.chars()
        invariant
            it.seq() == s@,
            n == s@.len(),
            i == it.index(),
            first <= n,
            first == n ==> last == 0,
            first == n ==> forall|j: int| 0 <= j < i ==> is_whitespace(#[trigger] s@[j]),
            first < n ==> first < last <= i,
            first < n ==> !is_whitespace(s@[first as int]),
            first < n ==> !is_whitespace(s@[last - 1]),
            first < n ==> forall|j: int| 0 <= j < first ==> is_whitespace(#[trigger] s@[j]),
            first < n ==> forall|j: int| last <= j < i ==> is_whitespace(#[trigger] s@[j]),
    {
        if !char_is_whitespace(c) {
            if first == n {
                first = i;
            }
            last = i + 1;
        }
        i = i + 1;
    }
    if first == n {
        proof {
            lemma_blank_iff_trimmed_empty(s@);
            assert(trimmed(s@) =~= s@.subrange(0, 0));
        }
        s.substring_char(0, 0)
    } else {
        proof {
            lemma_trim_unique(s@, first as int, last as int);
        }
        s.substring_char(first, last)
    }
}

} // verus!
