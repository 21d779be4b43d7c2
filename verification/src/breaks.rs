//! Places where a line may break inside long runs of typesetting markup.
//!
//! Monospaced text is not hyphenated, so a long run without a space would
//! stick out of the line. The text is walked once, and a break mark is put
//! before a glyph where the run since the last space or mark has reached
//! `RUN_LIMIT` glyphs. A mark never lands inside a command (a backslash and
//! what belongs to it) nor inside a group in braces.

use vstd::prelude::*;
use vstd::string::*;
use crate::text::{char_is_ascii_letter, is_ascii_letter, push_char};

verus! {

/// The mark that lets the typesetter break the line.
pub const BREAK_MARK: &'static str = "\\allowbreak{}";

/// How many glyphs a run may hold before a mark is put.
pub const RUN_LIMIT: u8 = 20;

/// Where the walk stands with respect to commands.
#[derive(Clone, Copy, Debug, PartialEq, Eq, Structural)]
pub enum Scan {
    /// Outside any command.
    Plain,
    /// Just behind a backslash: the next character belongs to the command.
    Escape,
    /// Inside the letters of a command's name.
    Word,
}

/// What the walk remembers between two characters.
#[derive(Clone, Copy, Debug, PartialEq, Eq, Structural)]
pub struct BreakState {
    /// Where the walk stands with respect to commands.
    pub scan: Scan,
    /// How many groups in braces are open; it stops counting at the largest `u32`.
    pub depth: u32,
    /// How many glyphs the run holds; it stops counting at `RUN_LIMIT`.
    pub run: u8,
}

/// Whether `c` ends a run: a space, a tab or a line end, where the
/// typesetter may break the line anyway.
pub open spec fn ends_run(c: char) -> bool {
    c == ' ' || c == '\t' || c == '\n' || c == '\r'
}

/// The state at the start of a text.
pub open spec fn start_state() -> BreakState {
    BreakState { scan: Scan::Plain, depth: 0, run: 0 }
}

/// The length of a run after one more glyph.
pub open spec fn longer(run: u8) -> u8 {
    if run < RUN_LIMIT {
        (run + 1) as u8
    } else {
        run
    }
}

/// Whether a mark may be put before a glyph met in state `st`.
pub open spec fn run_is_full(st: BreakState) -> bool {
    st.scan == Scan::Plain && st.depth == 0 && st.run >= RUN_LIMIT
}

/// One step of the walk: whether a mark is put before `c`, and the state behind `c`.
pub open spec fn step(st: BreakState, c: char) -> (bool, BreakState) {
    if st.scan == Scan::Escape {
        (
            false,
            BreakState {
                scan: if is_ascii_letter(c) {
                    Scan::Word
                } else {
                    Scan::Plain
                },
                ..st
            },
        )
    } else if st.scan == Scan::Word && is_ascii_letter(c) {
        (false, st)
    } else if c == '{' {
        (
            false,
            BreakState {
                scan: Scan::Plain,
                depth: if st.depth < u32::MAX {
                    (st.depth + 1) as u32
                } else {
                    st.depth
                },
                ..st
            },
        )
    } else if c == '}' {
        (
            false,
            BreakState {
                scan: Scan::Plain,
                depth: if st.depth > 0 {
                    (st.depth - 1) as u32
                } else {
                    st.depth
                },
                ..st
            },
        )
    } else if ends_run(c) {
        (false, BreakState { scan: Scan::Plain, run: 0, ..st })
    } else {
        let mark = run_is_full(st);
        (
            mark,
            BreakState {
                scan: if c == '\\' {
                    Scan::Escape
                } else {
                    Scan::Plain
                },
                run: longer(
                    if mark {
                        0
                    } else {
                        st.run
                    },
                ),
                ..st
            },
        )
    }
}

/// The text `s`, met in state `st`, with its break marks.
pub open spec fn broken_from(s: Seq<char>, st: BreakState) -> Seq<char>
    decreases s.len(),
{
    if s.len() == 0 {
        Seq::empty()
    } else {
        let (mark, next) = step(st, s[0]);
        (if mark {
            BREAK_MARK@
        } else {
            Seq::empty()
        }) + seq![s[0]] + broken_from(s.drop_first(), next)
    }
}

/// A whole text with its break marks.
pub open spec fn with_breaks(s: Seq<char>) -> Seq<char> {
    broken_from(s, start_state())
}

/// One step of the walk.
pub fn advance(st: BreakState, c: char) -> (r: (bool, BreakState))
    ensures
        r == step(st, c),
{
    let letter = char_is_ascii_letter(c);
    if st.scan == Scan::Escape {
        let scan = if letter {
            Scan::Word
        } else {
            Scan::Plain
        };
        (false, BreakState { scan, depth: st.depth, run: st.run })
    } else if st.scan == Scan::Word && letter {
        (false, st)
    } else if c == '{' {
        let depth: u32 = if st.depth < u32::MAX {
            st.depth + 1
        } else {
            st.depth
        };
        (false, BreakState { scan: Scan::Plain, depth, run: st.run })
    } else if c == '}' {
        let depth: u32 = if st.depth > 0 {
            st.depth - 1
        } else {
            st.depth
        };
        (false, BreakState { scan: Scan::Plain, depth, run: st.run })
    } else if c == ' ' || c == '\t' || c == '\n' || c == '\r' {
        (false, BreakState { scan: Scan::Plain, depth: st.depth, run: 0 })
    } else {
        let mark = st.scan == Scan::Plain && st.depth == 0 && st.run >= RUN_LIMIT;
        let scan = if c == '\\' {
            Scan::Escape
        } else {
            Scan::Plain
        };
        let before: u8 = if mark {
            0
        } else {
            st.run
        };
        let run: u8 = if before < RUN_LIMIT {
            before + 1
        } else {
            before
        };
        (mark, BreakState { scan, depth: st.depth, run })
    }
}

/// Puts break marks into text that is already escaped for typesetting.
pub fn insert_breaks(text: &str) -> (r: String)
    ensures
        r@ == with_breaks(text@),
{
    let mut out = String::new();
    let mut st = BreakState { scan: Scan::Plain, depth: 0, run: 0 };
    proof {
        assert(text@.skip(0) =~= text@);
    }
    for c in it: text.chars()
        invariant
            it.seq() == text@,
            out@ + broken_from(text@.skip(it.index()), st) == with_breaks(text@),
    {
        let ghost rest = text@.skip(it.index());
        let ghost before = out@;
        let (mark, next) = advance(st, c);
        if mark {
            out.append(BREAK_MARK);
        }
        push_char(&mut out, c);
        proof {
            assert(rest[0] == c);
            assert(rest.drop_first() =~= text@.skip(it.index() + 1));
            assert(out@ + broken_from(rest.drop_first(), next) =~= before + broken_from(rest, st));
        }
        st = next;
    }
    proof {
        assert(text@.skip(text@.len() as int) =~= Seq::<char>::empty());
    }
    out
}

/// For each character of `s`, met from state `st` on, whether a mark is put
/// before it.
pub open spec fn marks_from(s: Seq<char>, st: BreakState) -> Seq<bool>
    decreases s.len(),
{
    if s.len() == 0 {
        Seq::empty()
    } else {
        let (mark, next) = step(st, s[0]);
        seq![mark] + marks_from(s.drop_first(), next)
    }
}

/// The state in which the walk, begun in state `st`, meets the character at
/// place `i` of `s`.
pub open spec fn state_before(s: Seq<char>, st: BreakState, i: int) -> BreakState
    decreases i,
{
    if i <= 0 || s.len() == 0 {
        st
    } else {
        state_before(s.drop_first(), step(st, s[0]).1, i - 1)
    }
}

/// The text `s` with a mark before each character whose place `marks` flags,
/// and with nothing else added.
pub open spec fn marked(s: Seq<char>, marks: Seq<bool>) -> Seq<char>
    decreases s.len(),
{
    if s.len() == 0 {
        Seq::empty()
    } else {
        (if marks.len() > 0 && marks[0] {
            BREAK_MARK@
        } else {
            Seq::empty()
        }) + seq![s[0]] + marked(s.drop_first(), marks.drop_first())
    }
}

/// Putting break marks changes nothing else: the result is the text, whole
/// and in order, with marks before some of its characters.
pub proof fn lemma_breaks_only_add_marks(s: Seq<char>, st: BreakState)
    ensures
        marks_from(s, st).len() == s.len(),
        broken_from(s, st) == marked(s, marks_from(s, st)),
    decreases s.len(),
{
    if s.len() > 0 {
        let (mark, next) = step(st, s[0]);
        lemma_breaks_only_add_marks(s.drop_first(), next);
        assert(marks_from(s, st).drop_first() =~= marks_from(s.drop_first(), next));
    }
}

/// A mark stands only where a run is full: before a glyph that is met
/// outside any command and any group, after `RUN_LIMIT` glyphs without a
/// space or a mark. The glyph is no space, no line end and no brace.
pub proof fn lemma_marks_stand_where_runs_are_full(s: Seq<char>, st: BreakState, i: int)
    requires
        0 <= i < s.len(),
        marks_from(s, st).len() == s.len(),
        marks_from(s, st)[i],
    ensures
        run_is_full(state_before(s, st, i)),
        !ends_run(s[i]),
        s[i] != '{',
        s[i] != '}',
    decreases i,
{
    let (mark, next) = step(st, s[0]);
    if i > 0 {
        let rest = s.drop_first();
        lemma_breaks_only_add_marks(rest, next);
        assert(marks_from(s, st)[i] == marks_from(rest, next)[i - 1]);
        lemma_marks_stand_where_runs_are_full(rest, next, i - 1);
        assert(rest[i - 1] == s[i]);
    }
}

/// A text that is no longer than a run may be gets no mark.
pub proof fn lemma_short_text_gets_no_mark(s: Seq<char>, st: BreakState)
    requires
        st.run + s.len() <= RUN_LIMIT,
    ensures
        broken_from(s, st) == s,
    decreases s.len(),
{
    if s.len() > 0 {
        let (mark, next) = step(st, s[0]);
        assert(!mark);
        assert(next.run <= st.run + 1);
        lemma_short_text_gets_no_mark(s.drop_first(), next);
        assert(seq![s[0]] + s.drop_first() =~= s);
        assert(broken_from(s, st) =~= s);
    }
}

} // verus!
