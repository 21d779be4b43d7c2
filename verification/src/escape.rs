//! Escaping of text for the two targets: what the escaped text is, the calls
//! that produce it, and what holds of it.

use vstd::prelude::*;

verus! {

/// The entity that stands for `<`.
pub open spec fn entity_lt() -> Seq<char> {
    seq!['&', 'l', 't', ';']
}

/// The entity that stands for `>`.
pub open spec fn entity_gt() -> Seq<char> {
    seq!['&', 'g', 't', ';']
}

/// The entity that stands for `&`.
pub open spec fn entity_amp() -> Seq<char> {
    seq!['&', 'a', 'm', 'p', ';']
}

/// What one character becomes in web markup.
pub open spec fn html_char(c: char) -> Seq<char> {
    if c == '<' {
        entity_lt()
    } else if c == '>' {
        entity_gt()
    } else if c == '&' {
        entity_amp()
    } else {
        seq![c]
    }
}

/// A text escaped for web markup: `<`, `>` and `&` replaced by their entities,
/// every other character kept.
pub open spec fn html_escaped(s: Seq<char>) -> Seq<char>
    decreases s.len(),
{
    if s.len() == 0 {
        Seq::empty()
    } else {
        html_char(s[0]) + html_escaped(s.drop_first())
    }
}

/// Whether `s` begins with `prefix`.
pub open spec fn starts_with(s: Seq<char>, prefix: Seq<char>) -> bool {
    prefix.len() <= s.len() && s.subrange(0, prefix.len() as int) == prefix
}

/// Whether an entity for `<`, `>` or `&` begins at the start of `s`.
pub open spec fn starts_with_entity(s: Seq<char>) -> bool {
    starts_with(s, entity_lt()) || starts_with(s, entity_gt()) || starts_with(s, entity_amp())
}

/// What a reader of web markup makes of a text: each of the three entities
/// read back as its character, every other character kept.
pub open spec fn html_decoded(s: Seq<char>) -> Seq<char>
    decreases s.len(),
{
    if s.len() == 0 {
        Seq::empty()
    } else if starts_with(s, entity_lt()) {
        seq!['<'] + html_decoded(s.skip(4))
    } else if starts_with(s, entity_gt()) {
        seq!['>'] + html_decoded(s.skip(4))
    } else if starts_with(s, entity_amp()) {
        seq!['&'] + html_decoded(s.skip(5))
    } else {
        seq![s[0]] + html_decoded(s.drop_first())
    }
}

/// What one character becomes in typesetting markup. `next` is the character
/// that follows it in the text, or a space at the end of the text: a hyphen is
/// parted from a hyphen that follows, so that the two form no dash.
pub open spec fn tex_char(c: char, next: char) -> Seq<char> {
    if c == '-' {
        if next == '-' {
            "-{}"@
        } else {
            seq![c]
        }
    } else if c == '&' {
        "\\&"@
    } else if c == '%' {
        "\\%"@
    } else if c == '$' {
        "\\$"@
    } else if c == '#' {
        "\\#"@
    } else if c == '_' {
        "\\_"@
    } else if c == '{' {
        "\\{"@
    } else if c == '}' {
        "\\}"@
    } else if c == '[' {
        "{[}"@
    } else if c == ']' {
        "{]}"@
    } else if c == '~' {
        "\\textasciitilde{}"@
    } else if c == '^' {
        "\\textasciicircum{}"@
    } else if c == '\\' {
        "\\textbackslash{}"@
    } else {
        seq![c]
    }
}

/// A text escaped for typesetting markup, character by character.
pub open spec fn tex_escaped(s: Seq<char>) -> Seq<char>
    decreases s.len(),
{
    if s.len() == 0 {
        Seq::empty()
    } else {
        tex_char(
            s[0],
            if s.len() > 1 {
                s[1]
            } else {
                ' '
            },
        ) + tex_escaped(s.drop_first())
    }
}

/// Escapes a text for web markup.
///
/// Trusted: calls `crowbook_text_processing::escape::html`, which copies the
/// text and writes `&lt;` for `<`, `&gt;` for `>` and `&amp;` for `&`.
#[verifier::external_body]
pub(crate) fn escape_html(text: &str) -> (r: String)
    ensures
        r@ == html_escaped(text@),
{
    crowbook_text_processing::escape::html(text).into_owned()
}

/// Escapes a text for typesetting markup.
///
/// Trusted: calls `crowbook_text_processing::escape::tex`, which copies the
/// text and replaces each reserved character as `tex_char` says: a backslash
/// before `&`, `%`, `$`, `#`, `_`, `{` and `}`; braces round `[` and `]`; a
/// named command for `~`, `^` and the backslash; and an empty group after a
/// hyphen that another hyphen follows.
#[verifier::external_body]
pub(crate) fn escape_tex(text: &str) -> (r: String)
    ensures
        r@ == tex_escaped(text@),
{
    crowbook_text_processing::escape::tex(text).into_owned()
}

/// Text escaped for web markup holds neither `<` nor `>`, and each `&` in it
/// begins one of the three entities.
pub proof fn lemma_html_escaped_is_safe(s: Seq<char>)
    ensures
        forall|i: int|
            0 <= i < html_escaped(s).len() ==> {
                &&& #[trigger] html_escaped(s)[i] != '<'
                &&& html_escaped(s)[i] != '>'
                &&& html_escaped(s)[i] == '&' ==> starts_with_entity(html_escaped(s).skip(i))
            },
    decreases s.len(),
{
    let out = html_escaped(s);
    if s.len() > 0 {
        let head = html_char(s[0]);
        let rest = html_escaped(s.drop_first());
        lemma_html_escaped_is_safe(s.drop_first());
        assert forall|i: int| 0 <= i < out.len() implies {
            &&& #[trigger] out[i] != '<'
            &&& out[i] != '>'
            &&& out[i] == '&' ==> starts_with_entity(out.skip(i))
        } by {
            if i < head.len() {
                if out[i] == '&' {
                    assert(i == 0);
                    assert(out.skip(0) =~= out);
                    assert(out.subrange(0, head.len() as int) =~= head);
                }
            } else {
                let j = i - head.len();
                assert(out[i] == rest[j]);
                if out[i] == '&' {
                    assert(starts_with_entity(rest.skip(j)));
                    assert(out.skip(i) =~= rest.skip(j));
                }
            }
        }
    }
}

/// Reading escaped text back gives the text that was escaped.
pub proof fn lemma_html_round_trip(s: Seq<char>)
    ensures
        html_decoded(html_escaped(s)) == s,
    decreases s.len(),
{
    if s.len() > 0 {
        let c = s[0];
        let head = html_char(c);
        let rest = html_escaped(s.drop_first());
        let out = head + rest;
        lemma_html_round_trip(s.drop_first());
        assert(out.skip(head.len() as int) =~= rest);
        assert(out.subrange(0, head.len() as int) =~= head);
        if c == '<' {
            assert(starts_with(out, entity_lt()));
        } else if c == '>' {
            assert(!starts_with(out, entity_lt())) by {
                if starts_with(out, entity_lt()) {
                    assert(out.subrange(0, 4)[1] == 'l');
                }
            }
            assert(starts_with(out, entity_gt()));
        } else if c == '&' {
            assert(!starts_with(out, entity_lt())) by {
                if starts_with(out, entity_lt()) {
                    assert(out.subrange(0, 4)[1] == 'l');
                }
            }
            assert(!starts_with(out, entity_gt())) by {
                if starts_with(out, entity_gt()) {
                    assert(out.subrange(0, 4)[1] == 'g');
                }
            }
            assert(starts_with(out, entity_amp()));
        } else {
            assert(out[0] == c);
            assert(!starts_with_entity(out)) by {
                if starts_with(out, entity_lt()) {
                    assert(out.subrange(0, 4)[0] == '&');
                }
                if starts_with(out, entity_gt()) {
                    assert(out.subrange(0, 4)[0] == '&');
                }
                if starts_with(out, entity_amp()) {
                    assert(out.subrange(0, 5)[0] == '&');
                }
            }
            assert(out.drop_first() =~= rest);
        }
        assert(html_decoded(out) =~= s);
    }
}

} // verus!
