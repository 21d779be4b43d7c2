//! The renderer for typesetting markup.
//!
//! A region's text is escaped, given break marks, and has its spaces and line
//! ends made explicit. The result is wrapped in commands, from the inside
//! out: monospace, then the colour unless it is black, then bold, emphasis and
//! underline where the style asks for them. The regions follow one another in
//! a group that lets the typesetter space lines loosely.

use vstd::prelude::*;
use vstd::string::*;
use crate::breaks::{insert_breaks, with_breaks};
use crate::channel::{channel_literal, channel_text};
use crate::escape::{escape_tex, tex_escaped};
use crate::style::{Color, RegionView, StyleAttributes, StyledRegion};
use crate::text::push_char;

verus! {

/// What stands for a line end: a forced line break, then the line end itself.
pub const LINE_BREAK: &'static str = "\\\\{}\n";

/// What stands for a space: a space of fixed width, then a place to break.
pub const FIXED_SPACE: &'static str = "\\hphantom{ }\\allowbreak{}";

/// What one character of escaped text becomes when spacing is made explicit.
pub open spec fn spaced_char(c: char) -> Seq<char> {
    if c == '\n' {
        LINE_BREAK@
    } else if c == ' ' {
        FIXED_SPACE@
    } else {
        seq![c]
    }
}

/// A text with each line end and each space made explicit.
pub open spec fn spaced(s: Seq<char>) -> Seq<char>
    decreases s.len(),
{
    if s.len() == 0 {
        Seq::empty()
    } else {
        spaced_char(s[0]) + spaced(s.drop_first())
    }
}

/// Makes each line end and each space of a text explicit.
pub fn fix_spacing(text: &str) -> (r: String)
    ensures
        r@ == spaced(text@),
{
    let mut out = String::new();
    proof {
        assert(text@.skip(0) =~= text@);
    }
    for c in it: text.chars()
        invariant
            it.seq() == text@,
            out@ + spaced(text@.skip(it.index())) == spaced(text@),
    {
        let ghost rest = text@.skip(it.index());
        let ghost before = out@;
        if c == '\n' {
            out.append(LINE_BREAK);
        } else if c == ' ' {
            out.append(FIXED_SPACE);
        } else {
            push_char(&mut out, c);
        }
        proof {
            assert(rest[0] == c);
            assert(rest.drop_first() =~= text@.skip(it.index() + 1));
            assert(out@ + spaced(rest.drop_first()) =~= before + spaced(rest));
        }
    }
    proof {
        assert(text@.skip(text@.len() as int) =~= Seq::<char>::empty());
    }
    out
}

/// The text of a region as it stands inside the commands: escaped, with break
/// marks, with explicit spacing.
pub open spec fn tex_body(text: Seq<char>) -> Seq<char> {
    spaced(with_breaks(tex_escaped(text)))
}

/// Prepares the text of a region for the commands that go round it.
pub fn tex_text(text: &str) -> (r: String)
    ensures
        r@ == tex_body(text@),
{
    let escaped = escape_tex(text);
    let broken = insert_breaks(escaped.as_str());
    fix_spacing(broken.as_str())
}

/// A command that goes round a text.
#[derive(Clone, Copy, Debug, PartialEq, Eq, Structural)]
pub enum Wrap {
    /// Monospaced type.
    Monospace,
    /// Text in the given colour.
    Colored(Color),
    /// Bold face.
    Bold,
    /// Emphasis, which the typesetter sets in italics.
    Emphasis,
    /// Underlined.
    Underline,
}

/// The opening of the colour command for `color`: red, green and blue, each
/// as a number from 0 to 1.
pub open spec fn color_open(color: Color) -> Seq<char> {
    "\\textcolor[rgb]{"@ + channel_text(color.r) + ", "@ + channel_text(color.g) + ", "@
        + channel_text(color.b) + "}{"@
}

/// The opening of a command, up to and with the brace that opens its text.
pub open spec fn wrap_open(wrap: Wrap) -> Seq<char> {
    match wrap {
        Wrap::Monospace => "\\texttt{"@,
        Wrap::Colored(color) => color_open(color),
        Wrap::Bold => "\\textbf{"@,
        Wrap::Emphasis => "\\emph{"@,
        Wrap::Underline => "\\underline{"@,
    }
}

/// A text inside one command.
pub open spec fn wrapped(wrap: Wrap, body: Seq<char>) -> Seq<char> {
    wrap_open(wrap) + body + "}"@
}

/// A text inside several commands, the first of them innermost.
pub open spec fn wrapped_in(body: Seq<char>, wraps: Seq<Wrap>) -> Seq<char>
    decreases wraps.len(),
{
    if wraps.len() == 0 {
        body
    } else {
        wrapped_in(wrapped(wraps[0], body), wraps.drop_first())
    }
}

/// The `wrap` alone where `wanted` holds, nothing otherwise.
pub open spec fn wrap_if(wanted: bool, wrap: Wrap) -> Seq<Wrap> {
    if wanted {
        seq![wrap]
    } else {
        Seq::empty()
    }
}

/// The commands that a style asks for, innermost first: always monospace;
/// the colour unless the foreground is black; then bold, emphasis, underline.
pub open spec fn wraps_of(style: StyleAttributes) -> Seq<Wrap> {
    seq![Wrap::Monospace] + wrap_if(!style.foreground.is_black(), Wrap::Colored(style.foreground))
        + wrap_if(style.bold, Wrap::Bold) + wrap_if(style.italic, Wrap::Emphasis) + wrap_if(
        style.underline,
        Wrap::Underline,
    )
}

/// Lists the commands that a style asks for, innermost first.
pub fn style_wraps(style: &StyleAttributes) -> (r: Vec<Wrap>)
    ensures
        r@ == wraps_of(*style),
{
    let mut wraps: Vec<Wrap> = Vec::new();
    wraps.push(Wrap::Monospace);
    if !style.foreground.black() {
        wraps.push(Wrap::Colored(style.foreground));
    }
    if style.bold {
        wraps.push(Wrap::Bold);
    }
    if style.italic {
        wraps.push(Wrap::Emphasis);
    }
    if style.underline {
        wraps.push(Wrap::Underline);
    }
    assert(wraps@ =~= wraps_of(*style));
    wraps
}

/// Puts one command round a text.
pub fn apply_wrap(wrap: Wrap, body: &str) -> (r: String)
    ensures
        r@ == wrapped(wrap, body@),
{
    let mut out = String::new();
    match wrap {
        Wrap::Monospace => {
            out.append("\\texttt{");
        },
        Wrap::Colored(color) => {
            out.append("\\textcolor[rgb]{");
            out.append(channel_literal(color.r).as_str());
            out.append(", ");
            out.append(channel_literal(color.g).as_str());
            out.append(", ");
            out.append(channel_literal(color.b).as_str());
            out.append("}{");
        },
        Wrap::Bold => {
            out.append("\\textbf{");
        },
        Wrap::Emphasis => {
            out.append("\\emph{");
        },
        Wrap::Underline => {
            out.append("\\underline{");
        },
    }
    assert(out@ =~= wrap_open(wrap));
    out.append(body);
    out.append("}");
    out
}

/// Puts several commands round a text, the first of them innermost.
pub fn apply_wraps(body: String, wraps: &Vec<Wrap>) -> (r: String)
    ensures
        r@ == wrapped_in(body@, wraps@),
{
    let ghost start = body@;
    let mut out = body;
    let mut i: usize = 0;
    proof {
        assert(wraps@.skip(0) =~= wraps@);
    }
    while i < wraps.len()
        invariant
            i <= wraps.len(),
            wrapped_in(out@, wraps@.skip(i as int)) == wrapped_in(start, wraps@),
        decreases wraps.len() - i,
    {
        proof {
            assert(wraps@.skip(i as int).drop_first() =~= wraps@.skip(i as int + 1));
        }
        out = apply_wrap(wraps[i], out.as_str());
        i += 1;
    }
    proof {
        assert(wraps@.skip(i as int) =~= Seq::<Wrap>::empty());
    }
    out
}

/// One region in typesetting markup.
pub open spec fn tex_fragment(region: RegionView) -> Seq<char> {
    wrapped_in(tex_body(region.text), wraps_of(region.style))
}

/// Renders one region in typesetting markup.
pub fn tex_region(region: &StyledRegion) -> (r: String)
    ensures
        r@ == tex_fragment(region@),
{
    let body = tex_text(region.text.as_str());
    let wraps = style_wraps(&region.style);
    apply_wraps(body, &wraps)
}

/// The regions in typesetting markup, one after the other.
pub open spec fn tex_fragments(regions: Seq<RegionView>) -> Seq<char>
    decreases regions.len(),
{
    if regions.len() == 0 {
        Seq::empty()
    } else {
        tex_fragment(regions[0]) + tex_fragments(regions.drop_first())
    }
}

/// A whole code block in typesetting markup: the regions in a group that
/// relaxes the spacing of lines.
pub open spec fn tex_block(regions: Seq<RegionView>) -> Seq<char> {
    "{\\sloppy "@ + tex_fragments(regions) + "}"@
}

/// Renders the regions of a code block in typesetting markup.
pub fn tex_document(regions: &Vec<StyledRegion>) -> (r: String)
    ensures
        r@ == tex_block(regions.deep_view()),
{
    let ghost all = regions.deep_view();
    let mut out = String::from_str("{\\sloppy ");
    let mut i: usize = 0;
    proof {
        assert(all.skip(0) =~= all);
    }
    while i < regions.len()
        invariant
            i <= regions.len(),
            all == regions.deep_view(),
            out@ + tex_fragments(all.skip(i as int)) == "{\\sloppy "@ + tex_fragments(all),
        decreases regions.len() - i,
    {
        let ghost before = out@;
        let fragment = tex_region(&regions[i]);
        out.append(fragment.as_str());
        proof {
            assert(all.skip(i as int).drop_first() =~= all.skip(i as int + 1));
            assert(all.skip(i as int)[0] == regions[i as int]@);
            assert(out@ + tex_fragments(all.skip(i as int + 1)) =~= before + tex_fragments(
                all.skip(i as int),
            ));
        }
        i += 1;
    }
    proof {
        assert(all.skip(i as int) =~= Seq::<RegionView>::empty());
    }
    out.append("}");
    out
}

/// A code text set as it stands, in the environment that takes text verbatim
/// and still breaks long lines.
pub open spec fn verbatim_block(code: Seq<char>) -> Seq<char> {
    "\\begin{spverbatim}"@ + code + "\\end{spverbatim}\n"@
}

/// Renders a code text without colouring: unescaped, in a verbatim environment.
pub fn verbatim(code: &str) -> (r: String)
    ensures
        r@ == verbatim_block(code@),
{
    let mut out = String::from_str("\\begin{spverbatim}");
    out.append(code);
    out.append("\\end{spverbatim}\n");
    out
}

} // verus!
