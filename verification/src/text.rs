//! Trimming of text, as the standard library does it.

use vstd::prelude::*;

verus! {

/// What `char::is_whitespace` answers for `c`.
pub uninterp spec fn is_whitespace(c: char) -> bool;

/// `s` without its leading whitespace.
pub open spec fn skip_leading(s: Seq<char>) -> Seq<char>
    decreases s.len(),
{
    if s.len() > 0 && is_whitespace(s[0]) {
        skip_leading(s.drop_first())
    } else {
        s
    }
}

/// `s` without its trailing whitespace.
pub open spec fn skip_trailing(s: Seq<char>) -> Seq<char>
    decreases s.len(),
{
    if s.len() > 0 && is_whitespace(s.last()) {
        skip_trailing(s.drop_last())
    } else {
        s
    }
}

/// `s` without its leading and trailing whitespace.
pub open spec fn trimmed(s: Seq<char>) -> Seq<char> {
    skip_trailing(skip_leading(s))
}

/// Every character of `s` is whitespace.
pub open spec fn is_blank(s: Seq<char>) -> bool {
    forall|i: int| 0 <= i < s.len() ==> is_whitespace(#[trigger] s[i])
}

/// Calls `str::trim`, which is not verified here. The contract claims that
/// the slice it returns is the argument without the characters at its start
/// and at its end for which `char::is_whitespace` holds, so that what is
/// left, unless empty, begins and ends with a character for which it does
/// not.
#[verifier::external_body]
pub(crate) fn trim(s: &str) -> (r: &str)
    ensures
        r@ == trimmed(s@),
        r@.len() > 0 ==> !is_whitespace(r@[0]) && !is_whitespace(r@.last()),
{
    s.trim()
}

/// A stretch of `s` with whitespace alone around it and none at its ends is
/// the trimmed text.
pub proof fn lemma_trimmed_is_the_stretch(s: Seq<char>, a: int, b: int)
    requires
        0 <= a <= b <= s.len(),
        forall|i: int| 0 <= i < a ==> is_whitespace(#[trigger] s[i]),
        forall|i: int| b <= i < s.len() ==> is_whitespace(#[trigger] s[i]),
        a < b ==> !is_whitespace(s[a]) && !is_whitespace(s[b - 1]),
    ensures
        trimmed(s) == s.subrange(a, b),
{
    let k = lemma_skip_leading_is_suffix(s);
    let t = skip_leading(s);
    let m = lemma_skip_trailing_is_prefix(t);
    if a < b {
        assert(k == a) by {
            if k < a {
                assert(is_whitespace(s[k]));
            }
            if a < k {
                assert(is_whitespace(s[a]));
            }
        }
        assert(k + m == b) by {
            if k + m < b {
                assert(t[b - 1 - k] == s[b - 1]);
                assert(is_whitespace(t[b - 1 - k]));
            }
            if b < k + m {
                assert(t[m - 1] == s[k + m - 1]);
                assert(is_whitespace(s[k + m - 1]));
            }
        }
        assert(t.subrange(0, m) =~= s.subrange(a, b));
    } else {
        assert(is_blank(s));
        lemma_blank_skips_to_empty(s);
        assert(trimmed(s) =~= s.subrange(a, b));
    }
}

/// Text of whitespace alone trims to nothing.
pub proof fn lemma_blank_skips_to_empty(s: Seq<char>)
    requires
        is_blank(s),
    ensures
        skip_leading(s).len() == 0,
    decreases s.len(),
{
    if s.len() > 0 {
        assert(is_whitespace(s[0]));
        let t = s.drop_first();
        assert forall|i: int| 0 <= i < t.len() implies is_whitespace(#[trigger] t[i]) by {
            assert(t[i] == s[i + 1]);
        }
        lemma_blank_skips_to_empty(t);
    }
}

/// What is left after the leading whitespace is gone is a suffix of `s`, and
/// all that went was whitespace.
pub proof fn lemma_skip_leading_is_suffix(s: Seq<char>) -> (k: int)
    ensures
        0 <= k <= s.len(),
        skip_leading(s) == s.subrange(k, s.len() as int),
        forall|i: int| 0 <= i < k ==> is_whitespace(#[trigger] s[i]),
        k < s.len() ==> !is_whitespace(s[k]),
    decreases s.len(),
{
    if s.len() > 0 && is_whitespace(s[0]) {
        let t = s.drop_first();
        let k = lemma_skip_leading_is_suffix(t);
        assert(t.subrange(k, t.len() as int) =~= s.subrange(k + 1, s.len() as int));
        assert forall|i: int| 0 <= i < k + 1 implies is_whitespace(#[trigger] s[i]) by {
            if i > 0 {
                assert(s[i] == t[i - 1]);
            }
        }
        if k < t.len() {
            assert(t[k] == s[k + 1]);
        }
        k + 1
    } else {
        assert(s.subrange(0, s.len() as int) =~= s);
        0
    }
}

/// What is left after the trailing whitespace is gone is a prefix of `s`, and
/// all that went was whitespace.
pub proof fn lemma_skip_trailing_is_prefix(s: Seq<char>) -> (k: int)
    ensures
        0 <= k <= s.len(),
        skip_trailing(s) == s.subrange(0, k),
        forall|i: int| k <= i < s.len() ==> is_whitespace(#[trigger] s[i]),
        0 < k ==> !is_whitespace(s[k - 1]),
    decreases s.len(),
{
    if s.len() > 0 && is_whitespace(s.last()) {
        let t = s.drop_last();
        let k = lemma_skip_trailing_is_prefix(t);
        assert(t.subrange(0, k) =~= s.subrange(0, k));
        assert forall|i: int| k <= i < s.len() implies is_whitespace(#[trigger] s[i]) by {
            if i < t.len() {
                assert(s[i] == t[i]);
            }
        }
        if 0 < k {
            assert(t[k - 1] == s[k - 1]);
        }
        k
    } else {
        assert(s.subrange(0, s.len() as int) =~= s);
        s.len() as int
    }
}

/// The trimmed text is empty exactly when the text is blank.
pub proof fn lemma_trimmed_empty_iff_blank(s: Seq<char>)
    ensures
        trimmed(s).len() == 0 <==> is_blank(s),
{
    let a = lemma_skip_leading_is_suffix(s);
    let t = skip_leading(s);
    let b = lemma_skip_trailing_is_prefix(t);
    if is_blank(s) {
        lemma_blank_skips_to_empty(s);
    }
    if trimmed(s).len() == 0 {
        assert(b == 0);
        assert forall|i: int| 0 <= i < s.len() implies is_whitespace(#[trigger] s[i]) by {
            if i >= a {
                assert(t[i - a] == s[i]);
            }
        }
    }
}

} // verus!
