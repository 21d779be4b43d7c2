//! Where the colour command can stand in typesetting markup.
//!
//! The markup of a region holds many commands: those that escaping writes,
//! the break marks, the explicit spaces and line ends, and the commands that
//! go round the text. Whatever the text of the region, the colour command is
//! among them only if the style asks for it: nothing that is written for a
//! region whose foreground is black reads as a colour command.

use vstd::prelude::*;
use crate::breaks::{broken_from, step, with_breaks, BreakState, BREAK_MARK};
use crate::escape::{tex_char, tex_escaped};
use crate::style::{RegionView, StyleAttributes};
use crate::tex::{
    spaced,
    spaced_char,
    tex_block,
    tex_body,
    tex_fragment,
    tex_fragments,
    wrap_if,
    wrap_open,
    wrapped,
    wrapped_in,
    wraps_of,
    Wrap,
};

verus! {

/// The name of the colour command, with its backslash.
pub open spec fn color_command() -> Seq<char> {
    "\\textcolor"@
}

/// The characters by which the colour command differs from every other
/// command that is written: the first five behind its backslash.
pub open spec fn color_stem() -> Seq<char> {
    seq!['t', 'e', 'x', 't', 'c']
}

/// Whether `pattern` stands in `s` at place `i`.
pub open spec fn occurs_at(s: Seq<char>, pattern: Seq<char>, i: int) -> bool {
    0 <= i && i + pattern.len() <= s.len() && s.subrange(i, i + pattern.len()) == pattern
}

/// Whether the colour command stands anywhere in `s`.
pub open spec fn has_color_command(s: Seq<char>) -> bool {
    exists|i: int| occurs_at(s, color_command(), i)
}

/// Whether `t` parts from `pattern`: at some place within both, the two
/// hold different characters. Then `t` does not begin with `pattern`,
/// whatever is added at its end.
pub open spec fn parts_from(t: Seq<char>, pattern: Seq<char>) -> bool {
    exists|k: int| 0 <= k < pattern.len() && k < t.len() && #[trigger] t[k] != pattern[k]
}

/// Whether what follows each backslash of `s` parts from the stem of the
/// colour command.
pub open spec fn guarded(s: Seq<char>) -> bool {
    forall|i: int|
        0 <= i < s.len() && #[trigger] s[i] == '\\' ==> parts_from(s.skip(i + 1), color_stem())
}

/// A text that parts from a pattern still does when more is added at its end.
pub proof fn lemma_parting_stays(t: Seq<char>, more: Seq<char>, pattern: Seq<char>)
    requires
        parts_from(t, pattern),
    ensures
        parts_from(t + more, pattern),
{
    let k = choose|k: int| 0 <= k < pattern.len() && k < t.len() && #[trigger] t[k] != pattern[k];
    assert((t + more)[k] == t[k]);
}

/// Guarded text holds no colour command.
pub proof fn lemma_guarded_has_no_color_command(s: Seq<char>)
    requires
        guarded(s),
    ensures
        !has_color_command(s),
{
    reveal_strlit("\\textcolor");
    let command = color_command();
    assert forall|i: int| !occurs_at(s, command, i) by {
        if occurs_at(s, command, i) {
            let found = s.subrange(i, i + command.len());
            assert(found[0] == s[i]);
            assert(s[i] == '\\');
            let t = s.skip(i + 1);
            let k = choose|k: int|
                0 <= k < color_stem().len() && k < t.len() && #[trigger] t[k] != color_stem()[k];
            assert(t[k] == found[k + 1]);
        }
    }
}

/// Two guarded texts, one after the other, are guarded.
pub proof fn lemma_guarded_add(a: Seq<char>, b: Seq<char>)
    requires
        guarded(a),
        guarded(b),
    ensures
        guarded(a + b),
{
    let s = a + b;
    assert forall|i: int| 0 <= i < s.len() && #[trigger] s[i] == '\\' implies parts_from(
        s.skip(i + 1),
        color_stem(),
    ) by {
        if i < a.len() {
            assert(a[i] == '\\');
            lemma_parting_stays(a.skip(i + 1), b, color_stem());
            assert(s.skip(i + 1) =~= a.skip(i + 1) + b);
        } else {
            assert(b[i - a.len()] == '\\');
            assert(s.skip(i + 1) =~= b.skip(i - a.len() + 1));
        }
    }
}

/// A text is guarded where each backslash has a next character and that is
/// no `t`.
pub proof fn lemma_guarded_by_next(s: Seq<char>)
    requires
        forall|i: int|
            0 <= i < s.len() && #[trigger] s[i] == '\\' ==> i + 1 < s.len() && s[i + 1] != 't',
    ensures
        guarded(s),
{
    assert forall|i: int| 0 <= i < s.len() && #[trigger] s[i] == '\\' implies parts_from(
        s.skip(i + 1),
        color_stem(),
    ) by {
        assert(s.skip(i + 1)[0] == s[i + 1]);
    }
}

/// A text is guarded where its one backslash is its first character and the
/// character five places on is no `c`.
pub proof fn lemma_guarded_by_fifth(s: Seq<char>)
    requires
        s.len() > 5,
        s[5] != 'c',
        forall|i: int| 0 < i < s.len() ==> s[i] != '\\',
    ensures
        guarded(s),
{
    assert forall|i: int| 0 <= i < s.len() && #[trigger] s[i] == '\\' implies parts_from(
        s.skip(i + 1),
        color_stem(),
    ) by {
        assert(i == 0);
        assert(s.skip(1)[4] == s[5]);
    }
}

/// What escaping writes for one character is guarded.
pub proof fn lemma_tex_char_guarded(c: char, next: char)
    ensures
        guarded(tex_char(c, next)),
{
    reveal_strlit("-{}");
    reveal_strlit("\\&");
    reveal_strlit("\\%");
    reveal_strlit("\\$");
    reveal_strlit("\\#");
    reveal_strlit("\\_");
    reveal_strlit("\\{");
    reveal_strlit("\\}");
    reveal_strlit("{[}");
    reveal_strlit("{]}");
    reveal_strlit("\\textasciitilde{}");
    reveal_strlit("\\textasciicircum{}");
    reveal_strlit("\\textbackslash{}");
    let s = tex_char(c, next);
    if c == '~' || c == '^' || c == '\\' {
        lemma_guarded_by_fifth(s);
    } else {
        lemma_guarded_by_next(s);
    }
}

/// Escaped text is guarded.
pub proof fn lemma_escaped_guarded(text: Seq<char>)
    ensures
        guarded(tex_escaped(text)),
    decreases text.len(),
{
    if text.len() > 0 {
        let next = if text.len() > 1 {
            text[1]
        } else {
            ' '
        };
        lemma_tex_char_guarded(text[0], next);
        lemma_escaped_guarded(text.drop_first());
        lemma_guarded_add(tex_char(text[0], next), tex_escaped(text.drop_first()));
    }
}

/// The break mark is guarded.
pub proof fn lemma_mark_guarded()
    ensures
        guarded(BREAK_MARK@),
        BREAK_MARK@.len() > 0,
        BREAK_MARK@[0] == '\\',
{
    reveal_strlit("\\allowbreak{}");
    lemma_guarded_by_next(BREAK_MARK@);
}

/// A text that parts from a pattern without a backslash still does once it
/// has its break marks: a mark begins with a backslash.
pub proof fn lemma_breaks_keep_parting(t: Seq<char>, st: BreakState, pattern: Seq<char>)
    requires
        parts_from(t, pattern),
        forall|k: int| 0 <= k < pattern.len() ==> pattern[k] != '\\',
    ensures
        parts_from(broken_from(t, st), pattern),
    decreases t.len(),
{
    lemma_mark_guarded();
    let out = broken_from(t, st);
    let (mark, next) = step(st, t[0]);
    let rest = broken_from(t.drop_first(), next);
    if mark {
        assert(out[0] == '\\');
    } else if t[0] != pattern[0] {
        assert(out[0] == t[0]);
    } else {
        let k = choose|k: int| 0 <= k < pattern.len() && k < t.len() && #[trigger] t[k] != pattern[k];
        assert(k > 0);
        assert(t.drop_first()[k - 1] != pattern.drop_first()[k - 1]);
        lemma_breaks_keep_parting(t.drop_first(), next, pattern.drop_first());
        let j = choose|j: int|
            0 <= j < pattern.drop_first().len() && j < rest.len() && #[trigger] rest[j]
                != pattern.drop_first()[j];
        assert(out[j + 1] == rest[j]);
    }
}

/// Guarded text with its break marks is guarded.
pub proof fn lemma_breaks_guarded(s: Seq<char>, st: BreakState)
    requires
        guarded(s),
    ensures
        guarded(broken_from(s, st)),
    decreases s.len(),
{
    if s.len() > 0 {
        lemma_mark_guarded();
        let (mark, next) = step(st, s[0]);
        let tail = s.drop_first();
        let rest = broken_from(tail, next);
        assert(guarded(tail)) by {
            assert forall|i: int| 0 <= i < tail.len() && #[trigger] tail[i] == '\\' implies parts_from(
                tail.skip(i + 1),
                color_stem(),
            ) by {
                assert(s[i + 1] == '\\');
                assert(tail.skip(i + 1) =~= s.skip(i + 2));
            }
        }
        lemma_breaks_guarded(tail, next);
        let head = seq![s[0]] + rest;
        assert(guarded(head)) by {
            assert forall|i: int| 0 <= i < head.len() && #[trigger] head[i] == '\\' implies parts_from(
                head.skip(i + 1),
                color_stem(),
            ) by {
                if i == 0 {
                    assert(s[0] == '\\');
                    assert(s.skip(1) =~= tail);
                    lemma_breaks_keep_parting(tail, next, color_stem());
                    assert(head.skip(1) =~= rest);
                } else {
                    assert(rest[i - 1] == '\\');
                    assert(head.skip(i + 1) =~= rest.skip(i));
                }
            }
        }
        if mark {
            lemma_guarded_add(BREAK_MARK@, head);
            assert(broken_from(s, st) =~= BREAK_MARK@ + head);
        } else {
            assert(broken_from(s, st) =~= head);
        }
    }
}

/// What stands for a space or a line end is guarded and begins with a
/// backslash; any other character stands for itself.
pub proof fn lemma_spaced_char(c: char)
    ensures
        guarded(spaced_char(c)) || c == '\\',
        spaced_char(c).len() > 0,
        spaced_char(c)[0] == (if c == ' ' || c == '\n' {
            '\\'
        } else {
            c
        }),
        c != ' ' && c != '\n' ==> spaced_char(c) == seq![c],
{
    reveal_strlit("\\\\{}\n");
    reveal_strlit("\\hphantom{ }\\allowbreak{}");
    if c != '\\' {
        lemma_guarded_by_next(spaced_char(c));
    }
}

/// A text that parts from a pattern without a backslash still does once its
/// spacing is explicit.
pub proof fn lemma_spacing_keeps_parting(t: Seq<char>, pattern: Seq<char>)
    requires
        parts_from(t, pattern),
        forall|k: int| 0 <= k < pattern.len() ==> pattern[k] != '\\',
    ensures
        parts_from(spaced(t), pattern),
    decreases t.len(),
{
    let out = spaced(t);
    let head = spaced_char(t[0]);
    let rest = spaced(t.drop_first());
    lemma_spaced_char(t[0]);
    assert(out[0] == head[0]);
    if t[0] == ' ' || t[0] == '\n' {
        assert(out[0] != pattern[0]);
    } else if t[0] != pattern[0] {
    } else {
        let k = choose|k: int| 0 <= k < pattern.len() && k < t.len() && #[trigger] t[k] != pattern[k];
        assert(k > 0);
        assert(t.drop_first()[k - 1] != pattern.drop_first()[k - 1]);
        lemma_spacing_keeps_parting(t.drop_first(), pattern.drop_first());
        let j = choose|j: int|
            0 <= j < pattern.drop_first().len() && j < rest.len() && #[trigger] rest[j]
                != pattern.drop_first()[j];
        assert(out[j + 1] == rest[j]);
    }
}

/// Guarded text with explicit spacing is guarded.
pub proof fn lemma_spacing_guarded(s: Seq<char>)
    requires
        guarded(s),
    ensures
        guarded(spaced(s)),
    decreases s.len(),
{
    if s.len() > 0 {
        let tail = s.drop_first();
        let rest = spaced(tail);
        let head = spaced_char(s[0]);
        lemma_spaced_char(s[0]);
        assert(guarded(tail)) by {
            assert forall|i: int| 0 <= i < tail.len() && #[trigger] tail[i] == '\\' implies parts_from(
                tail.skip(i + 1),
                color_stem(),
            ) by {
                assert(s[i + 1] == '\\');
                assert(tail.skip(i + 1) =~= s.skip(i + 2));
            }
        }
        lemma_spacing_guarded(tail);
        if s[0] == '\\' {
            let out = seq![s[0]] + rest;
            assert(spaced(s) =~= out);
            assert forall|i: int| 0 <= i < out.len() && #[trigger] out[i] == '\\' implies parts_from(
                out.skip(i + 1),
                color_stem(),
            ) by {
                if i == 0 {
                    assert(s.skip(1) =~= tail);
                    lemma_spacing_keeps_parting(tail, color_stem());
                    assert(out.skip(1) =~= rest);
                } else {
                    assert(rest[i - 1] == '\\');
                    assert(out.skip(i + 1) =~= rest.skip(i));
                }
            }
        } else {
            lemma_guarded_add(head, rest);
        }
    }
}

/// The text of a region, as it stands inside the commands, is guarded.
pub proof fn lemma_body_guarded(text: Seq<char>)
    ensures
        guarded(tex_body(text)),
{
    lemma_escaped_guarded(text);
    lemma_breaks_guarded(tex_escaped(text), crate::breaks::start_state());
    lemma_spacing_guarded(with_breaks(tex_escaped(text)));
}

/// A guarded text inside a command other than the colour command is guarded.
pub proof fn lemma_wrapped_guarded(wrap: Wrap, body: Seq<char>)
    requires
        guarded(body),
        !(wrap is Colored),
    ensures
        guarded(wrapped(wrap, body)),
{
    reveal_strlit("\\texttt{");
    reveal_strlit("\\textbf{");
    reveal_strlit("\\emph{");
    reveal_strlit("\\underline{");
    reveal_strlit("}");
    let open = wrap_open(wrap);
    if wrap is Monospace || wrap is Bold {
        lemma_guarded_by_fifth(open);
    } else {
        lemma_guarded_by_next(open);
    }
    lemma_guarded_by_next("}"@);
    lemma_guarded_add(open, body);
    lemma_guarded_add(open + body, "}"@);
}

/// A guarded text inside commands, none of them the colour command, is guarded.
pub proof fn lemma_wrapped_in_guarded(body: Seq<char>, wraps: Seq<Wrap>)
    requires
        guarded(body),
        forall|i: int| 0 <= i < wraps.len() ==> !(#[trigger] wraps[i] is Colored),
    ensures
        guarded(wrapped_in(body, wraps)),
    decreases wraps.len(),
{
    if wraps.len() > 0 {
        assert(!(wraps[0] is Colored));
        lemma_wrapped_guarded(wraps[0], body);
        assert forall|i: int| 0 <= i < wraps.drop_first().len() implies !(
        #[trigger] wraps.drop_first()[i] is Colored) by {
            assert(wraps.drop_first()[i] == wraps[i + 1]);
        }
        lemma_wrapped_in_guarded(wrapped(wraps[0], body), wraps.drop_first());
    }
}

/// A style whose foreground is black asks for no colour command.
pub proof fn lemma_black_has_no_color_wrap(style: StyleAttributes)
    requires
        style.foreground.is_black(),
    ensures
        forall|i: int|
            0 <= i < wraps_of(style).len() ==> !(#[trigger] wraps_of(style)[i] is Colored),
{
    let a = seq![Wrap::Monospace];
    let b = wrap_if(style.bold, Wrap::Bold);
    let c = wrap_if(style.italic, Wrap::Emphasis);
    let d = wrap_if(style.underline, Wrap::Underline);
    assert(wraps_of(style) =~= a + b + c + d);
}

/// The markup of a region whose foreground is black holds no colour
/// command, whatever the text of the region and its font attributes.
pub proof fn lemma_black_region_has_no_color_command(region: RegionView)
    requires
        region.style.foreground.is_black(),
    ensures
        !has_color_command(tex_fragment(region)),
{
    lemma_body_guarded(region.text);
    let wraps = wraps_of(region.style);
    lemma_black_has_no_color_wrap(region.style);
    lemma_wrapped_in_guarded(tex_body(region.text), wraps);
    lemma_guarded_has_no_color_command(tex_fragment(region));
}

/// Whether the foreground of every region is black.
pub open spec fn all_black(regions: Seq<RegionView>) -> bool {
    forall|i: int| 0 <= i < regions.len() ==> (#[trigger] regions[i]).style.foreground.is_black()
}

/// The markup of regions whose foregrounds are black, one after the other,
/// is guarded.
pub proof fn lemma_black_fragments_guarded(regions: Seq<RegionView>)
    requires
        all_black(regions),
    ensures
        guarded(tex_fragments(regions)),
    decreases regions.len(),
{
    if regions.len() > 0 {
        let region = regions[0];
        lemma_body_guarded(region.text);
        let wraps = wraps_of(region.style);
        lemma_black_has_no_color_wrap(region.style);
        lemma_wrapped_in_guarded(tex_body(region.text), wraps);
        assert forall|i: int| 0 <= i < regions.drop_first().len() implies (
        #[trigger] regions.drop_first()[i]).style.foreground.is_black() by {
            assert(regions.drop_first()[i] == regions[i + 1]);
        }
        lemma_black_fragments_guarded(regions.drop_first());
        lemma_guarded_add(tex_fragment(region), tex_fragments(regions.drop_first()));
    }
}

/// A code block whose regions all have a black foreground holds no colour
/// command in its markup.
pub proof fn lemma_black_block_has_no_color_command(regions: Seq<RegionView>)
    requires
        all_black(regions),
    ensures
        !has_color_command(tex_block(regions)),
{
    reveal_strlit("{\\sloppy ");
    reveal_strlit("}");
    lemma_black_fragments_guarded(regions);
    lemma_guarded_by_next("{\\sloppy "@);
    lemma_guarded_by_next("}"@);
    lemma_guarded_add("{\\sloppy "@, tex_fragments(regions));
    lemma_guarded_add("{\\sloppy "@ + tex_fragments(regions), "}"@);
    lemma_guarded_has_no_color_command(tex_block(regions));
}

/// The markup of a region whose foreground is not black begins, inside its
/// font commands, with the colour command round the monospaced text: the
/// colour is the second command from the inside.
pub proof fn lemma_colored_region_has_color_command(region: RegionView)
    requires
        !region.style.foreground.is_black(),
    ensures
        wraps_of(region.style).len() >= 2,
        wraps_of(region.style)[0] == Wrap::Monospace,
        wraps_of(region.style)[1] == Wrap::Colored(region.style.foreground),
{
}

} // verus!
