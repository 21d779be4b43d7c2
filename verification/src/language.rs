//! The language of a code block, as its opening line names it.
//!
//! The hint may carry more than the language, after a comma (`rust,ignore`).
//! Only what stands before the first comma counts, without the white space
//! around it. Nothing is said here on whether such a language exists.

use vstd::prelude::*;
use vstd::string::*;
use crate::text::{char_is_whitespace, is_whitespace};

verus! {

/// How many characters stand before the first comma of `s`; the length of `s`
/// where it has no comma.
pub open spec fn first_comma(s: Seq<char>) -> int
    decreases s.len(),
{
    if s.len() == 0 || s[0] == ',' {
        0
    } else {
        1 + first_comma(s.drop_first())
    }
}

/// `s` without the white space at its start.
pub open spec fn trim_start(s: Seq<char>) -> Seq<char>
    decreases s.len(),
{
    if s.len() > 0 && is_whitespace(s[0]) {
        trim_start(s.drop_first())
    } else {
        s
    }
}

/// `s` without the white space at its end.
pub open spec fn trim_end(s: Seq<char>) -> Seq<char>
    decreases s.len(),
{
    if s.len() > 0 && is_whitespace(s.last()) {
        trim_end(s.drop_last())
    } else {
        s
    }
}

/// `s` without the white space at its start and at its end.
pub open spec fn trimmed(s: Seq<char>) -> Seq<char> {
    trim_end(trim_start(s))
}

/// The language that a hint names: what stands before its first comma,
/// without the white space around it.
pub open spec fn normalized(hint: Seq<char>) -> Seq<char> {
    trimmed(hint.take(first_comma(hint)))
}

/// The place of the first comma is within the text, nothing before it is a
/// comma, and a comma stands there unless the text ends.
pub proof fn lemma_first_comma(s: Seq<char>)
    ensures
        0 <= first_comma(s) <= s.len(),
        forall|j: int| 0 <= j < first_comma(s) ==> s[j] != ',',
        first_comma(s) < s.len() ==> s[first_comma(s)] == ',',
    decreases s.len(),
{
    if s.len() == 0 || s[0] == ',' {
    } else {
        let rest = s.drop_first();
        lemma_first_comma(rest);
        assert forall|j: int| 0 <= j < first_comma(s) implies s[j] != ',' by {
            if j > 0 {
                assert(s[j] == rest[j - 1]);
            }
        }
        assert(first_comma(s) < s.len() ==> s[first_comma(s)] == rest[first_comma(rest)]);
    }
}

/// The first comma is where the first comma is: a place `k` with no comma
/// before it, and a comma at it unless the text ends there.
pub proof fn lemma_first_comma_at(s: Seq<char>, k: int)
    requires
        0 <= k <= s.len(),
        forall|j: int| 0 <= j < k ==> s[j] != ',',
        k < s.len() ==> s[k] == ',',
    ensures
        first_comma(s) == k,
{
    lemma_first_comma(s);
    let f = first_comma(s);
    if f < k {
        assert(s[f] != ',');
    } else if k < f {
        assert(s[k] != ',');
    }
}

/// Dropping white space at the start: where the first `a` characters are
/// white space and the next is not, what is left starts there.
pub proof fn lemma_trim_start_at(s: Seq<char>, a: int)
    requires
        0 <= a <= s.len(),
        forall|j: int| 0 <= j < a ==> is_whitespace(s[j]),
        a < s.len() ==> !is_whitespace(s[a]),
    ensures
        trim_start(s) == s.skip(a),
    decreases a,
{
    if a == 0 {
        assert(s.skip(0) =~= s);
    } else {
        let rest = s.drop_first();
        assert(is_whitespace(s[0]));
        assert forall|j: int| 0 <= j < a - 1 implies is_whitespace(rest[j]) by {
            assert(rest[j] == s[j + 1]);
        }
        lemma_trim_start_at(rest, a - 1);
        assert(rest.skip(a - 1) =~= s.skip(a));
    }
}

/// Dropping white space at the end: where all from place `b` on is white
/// space and the character before is not, what is left ends there.
pub proof fn lemma_trim_end_at(s: Seq<char>, b: int)
    requires
        0 <= b <= s.len(),
        forall|j: int| b <= j < s.len() ==> is_whitespace(s[j]),
        b > 0 ==> !is_whitespace(s[b - 1]),
    ensures
        trim_end(s) == s.take(b),
    decreases s.len() - b,
{
    if b == s.len() {
        assert(s.take(b) =~= s);
    } else {
        let rest = s.drop_last();
        assert(is_whitespace(s.last()));
        lemma_trim_end_at(rest, b);
        assert(rest.take(b) =~= s.take(b));
    }
}

/// What dropping white space at the start takes away is white space: the
/// rest is the end of the text, and all before it is white space.
pub proof fn lemma_trim_start_span(s: Seq<char>)
    ensures
        trim_start(s).len() <= s.len(),
        trim_start(s) == s.skip(s.len() - trim_start(s).len()),
        forall|j: int| 0 <= j < s.len() - trim_start(s).len() ==> is_whitespace(s[j]),
        trim_start(s).len() > 0 ==> !is_whitespace(trim_start(s)[0]),
    decreases s.len(),
{
    if s.len() > 0 && is_whitespace(s[0]) {
        let rest = s.drop_first();
        lemma_trim_start_span(rest);
        assert(rest.skip(rest.len() - trim_start(rest).len()) =~= s.skip(
            s.len() - trim_start(s).len(),
        ));
        assert forall|j: int| 0 <= j < s.len() - trim_start(s).len() implies is_whitespace(
            s[j],
        ) by {
            if j > 0 {
                assert(s[j] == rest[j - 1]);
            }
        }
    } else {
        assert(s.skip(0) =~= s);
    }
}

/// What dropping white space at the end takes away is white space: the rest
/// is the start of the text, and all behind it is white space.
pub proof fn lemma_trim_end_span(s: Seq<char>)
    ensures
        trim_end(s).len() <= s.len(),
        trim_end(s) == s.take(trim_end(s).len() as int),
        forall|j: int| trim_end(s).len() <= j < s.len() ==> is_whitespace(s[j]),
        trim_end(s).len() > 0 ==> !is_whitespace(trim_end(s).last()),
    decreases s.len(),
{
    if s.len() > 0 && is_whitespace(s.last()) {
        let rest = s.drop_last();
        lemma_trim_end_span(rest);
        assert(rest.take(trim_end(rest).len() as int) =~= s.take(trim_end(s).len() as int));
        assert forall|j: int| trim_end(s).len() <= j < s.len() implies is_whitespace(s[j]) by {
            if j < rest.len() {
                assert(s[j] == rest[j]);
            }
        }
    } else {
        assert(s.take(s.len() as int) =~= s);
    }
}

/// The language that a hint names holds no comma, and neither starts nor
/// ends with white space.
pub proof fn lemma_normalized_is_clean(hint: Seq<char>)
    ensures
        forall|i: int| 0 <= i < normalized(hint).len() ==> normalized(hint)[i] != ',',
        normalized(hint).len() > 0 ==> !is_whitespace(normalized(hint)[0]) && !is_whitespace(
            normalized(hint).last(),
        ),
{
    lemma_first_comma(hint);
    let prefix = hint.take(first_comma(hint));
    lemma_trim_start_span(prefix);
    let t = trim_start(prefix);
    lemma_trim_end_span(t);
    let n = normalized(hint);
    if n.len() > 0 {
        assert(n[0] == t[0]);
    }
    assert forall|i: int| 0 <= i < n.len() implies n[i] != ',' by {
        assert(n[i] == t[i]);
        assert(t[i] == prefix[prefix.len() - t.len() + i]);
    }
}

/// A text that holds no comma and has no white space at either end names
/// itself.
pub proof fn lemma_normalized_keeps_clean(s: Seq<char>)
    requires
        forall|i: int| 0 <= i < s.len() ==> s[i] != ',',
        s.len() > 0 ==> !is_whitespace(s[0]) && !is_whitespace(s.last()),
    ensures
        normalized(s) == s,
{
    lemma_first_comma_at(s, s.len() as int);
    assert(s.take(s.len() as int) =~= s);
}

/// Naming is settled after one step: the language that a hint names, taken
/// as a hint, names itself.
pub proof fn lemma_normalized_twice(hint: Seq<char>)
    ensures
        normalized(normalized(hint)) == normalized(hint),
{
    lemma_normalized_is_clean(hint);
    lemma_normalized_keeps_clean(normalized(hint));
}

/// The language that a hint names is a stretch of the hint that lies before
/// its first comma, with white space alone between it and the start of the
/// hint, and between it and the comma or the end.
pub proof fn lemma_normalized_is_a_stretch(hint: Seq<char>)
    ensures
        exists|a: int, b: int|
            {
                &&& 0 <= a <= b <= first_comma(hint) <= hint.len()
                &&& #[trigger] hint.subrange(a, b) == normalized(hint)
                &&& forall|j: int| 0 <= j < a ==> is_whitespace(hint[j])
                &&& forall|j: int| b <= j < first_comma(hint) ==> is_whitespace(hint[j])
            },
{
    lemma_first_comma(hint);
    let k = first_comma(hint);
    let prefix = hint.take(k);
    lemma_trim_start_span(prefix);
    let t = trim_start(prefix);
    let a = prefix.len() - t.len();
    lemma_trim_end_span(t);
    let n = trim_end(t);
    let b = a + n.len();
    assert(hint.subrange(a, b) =~= n);
    assert forall|j: int| b <= j < k implies is_whitespace(hint[j]) by {
        assert(t[j - a] == hint[j]);
    }
    assert forall|j: int| 0 <= j < a implies is_whitespace(hint[j]) by {
        assert(prefix[j] == hint[j]);
    }
}

/// Strips a language hint of what follows its first comma and of the white
/// space around what is left.
pub fn strip_language(language: &str) -> (r: &str)
    ensures
        r@ == normalized(language@),
{
    let ghost s = language@;
    let n = language.unicode_len();
    // The place of the first comma, once it is met.
    let mut comma: Option<usize> = None;
    // The place of the first character that is no white space, and the place
    // behind the last one, among those before the first comma.
    let mut start: usize = 0;
    let mut stop: usize = 0;
    let mut i: usize = 0;
    for c in it: language.chars()
        invariant
            it.seq() == s,
            s == language@,
            n == s.len(),
            i == it.index(),
            match comma {
                Some(k) => k < i && s[k as int] == ',' && forall|j: int| 0 <= j < k ==> s[j] != ',',
                None => forall|j: int| 0 <= j < i ==> s[j] != ',',
            },
            start <= stop <= i,
            comma matches Some(k) ==> stop <= k,
            start == stop ==> start == 0,
            start < stop ==> !is_whitespace(s[start as int]) && !is_whitespace(s[stop - 1]),
            forall|j: int| 0 <= j < start ==> is_whitespace(s[j]),
            forall|j: int|
                stop <= j < (match comma {
                    Some(k) => k as int,
                    None => i as int,
                }) ==> is_whitespace(s[j]),
    {
        if comma.is_none() {
            if c == ',' {
                comma = Some(i);
            } else if !char_is_whitespace(c) {
                if start == stop {
                    start = i;
                }
                stop = i + 1;
            }
        }
        i += 1;
    }
    let ghost k: int = match comma {
        Some(k) => k as int,
        None => s.len() as int,
    };
    proof {
        lemma_first_comma_at(s, k);
        let prefix = s.take(k);
        if start < stop {
            lemma_trim_start_at(prefix, start as int);
            let t = prefix.skip(start as int);
            assert forall|j: int| stop - start <= j < t.len() implies is_whitespace(t[j]) by {
                assert(t[j] == s[start + j]);
            }
            assert(t[stop - start - 1] == s[stop - 1]);
            lemma_trim_end_at(t, stop - start);
            assert(t.take(stop - start) =~= s.subrange(start as int, stop as int));
        } else {
            lemma_trim_start_at(prefix, k);
            assert(prefix.skip(k) =~= Seq::<char>::empty());
            assert(s.subrange(0, 0) =~= Seq::<char>::empty());
        }
    }
    language.substring_char(start, stop)
}

} // verus!
