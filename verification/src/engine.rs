//! The highlighting engine: the calls into `syntect`, and what is taken on
//! trust of each.
//!
//! The engine's catalogs and themes are opaque here. What a call gives back
//! for given arguments has a name, and the contracts of the library speak of
//! these names; nothing is claimed on what the engine finds or how it colours.

use vstd::prelude::*;
use syntect::easy::HighlightLines;
use syntect::highlighting::{FontStyle, Style, Theme, ThemeSet};
use syntect::html::{styled_line_to_highlighted_html, IncludeBackground};
use syntect::parsing::{SyntaxReference, SyntaxSet};
use syntect::Error;
use crate::style::{Color, RegionView, StyleAttributes};

verus! {

/// A catalog of themes, each under its name.
#[verifier::external_type_specification]
#[verifier::external_body]
pub struct ExThemeSet(ThemeSet);

/// A theme: the look that each kind of token is to have.
#[verifier::external_type_specification]
#[verifier::external_body]
pub struct ExTheme(Theme);

/// A catalog of syntax definitions.
#[verifier::external_type_specification]
#[verifier::external_body]
pub struct ExSyntaxSet(SyntaxSet);

/// One syntax definition of a catalog.
#[verifier::external_type_specification]
#[verifier::external_body]
pub struct ExSyntaxReference(SyntaxReference);

/// The look that the engine gives to a stretch of text.
#[verifier::external_type_specification]
#[verifier::external_body]
pub struct ExStyle(Style);

/// What the engine reports when it fails.
#[verifier::external_type_specification]
#[verifier::external_body]
pub struct ExError(Error);

/// What a style of the engine holds: its two colours, and which of bold,
/// italic and underline it asks for.
pub uninterp spec fn style_view(style: Style) -> StyleAttributes;

/// The names under which a catalog holds its themes, in the catalog's order.
pub uninterp spec fn theme_names(themes: ThemeSet) -> Seq<Seq<char>>;

/// The syntax that a catalog finds for a token, such as a file extension or
/// the name of a language.
pub uninterp spec fn syntax_by_token(set: SyntaxSet, token: Seq<char>) -> Option<SyntaxReference>;

/// The syntax that a catalog holds under a name.
pub uninterp spec fn syntax_by_name(set: SyntaxSet, name: Seq<char>) -> Option<SyntaxReference>;

/// The regions into which the engine cuts `code` under a syntax of the
/// catalog `set` and a theme; `None` where the engine fails.
pub uninterp spec fn highlighted(
    set: SyntaxSet,
    syntax: SyntaxReference,
    theme: Theme,
    code: Seq<char>,
) -> Option<Seq<RegionView>>;

/// The web markup that the engine's colourizer writes for regions, without
/// background colours; `None` where it fails.
pub uninterp spec fn colored_html(regions: Seq<RegionView>) -> Option<Seq<char>>;

/// The names of the themes that come with the engine, in its catalog's order.
pub open spec fn default_theme_names() -> Seq<Seq<char>> {
    seq![
        "InspiredGitHub"@,
        "Solarized (dark)"@,
        "Solarized (light)"@,
        "base16-eighties.dark"@,
        "base16-mocha.dark"@,
        "base16-ocean.dark"@,
        "base16-ocean.light"@,
    ]
}

/// Whether `syntax` is a syntax of the catalog `set`: one that the catalog
/// hands out for some token or name.
pub open spec fn holds_syntax(set: SyntaxSet, syntax: SyntaxReference) -> bool {
    exists|key: Seq<char>|
        #![trigger syntax_by_token(set, key)]
        #![trigger syntax_by_name(set, key)]
        syntax_by_token(set, key) == Some(syntax) || syntax_by_name(set, key) == Some(syntax)
}

/// Loads the themes that come with the engine.
///
/// Trusted: calls `ThemeSet::load_defaults`, documented to load the themes
/// built into the engine under the seven keys listed in `default_theme_names`.
#[verifier::external_body]
pub(crate) fn load_themes() -> (themes: ThemeSet)
    ensures
        theme_names(themes) == default_theme_names(),
{
    ThemeSet::load_defaults()
}

/// Loads the syntax definitions that come with the engine, in the form that
/// takes text without line ends.
///
/// Trusted: calls `SyntaxSet::load_defaults_nonewlines`; nothing is claimed
/// of the catalog.
#[verifier::external_body]
pub(crate) fn load_syntaxes() -> (set: SyntaxSet) {
    SyntaxSet::load_defaults_nonewlines()
}

/// Lists the names of a catalog's themes.
///
/// Trusted: walks the keys of the map `themes` of a `ThemeSet`, which come in
/// the map's order, and copies each.
#[verifier::external_body]
pub(crate) fn list_themes(themes: &ThemeSet) -> (names: Vec<String>)
    ensures
        names.deep_view() == theme_names(*themes),
{
    themes.themes.keys().cloned().collect()
}

/// Takes a theme out of a catalog.
///
/// Trusted: calls `remove` on the map `themes` of a `ThemeSet`, which hands
/// out the value under the key and forgets the key, or gives `None` where the
/// map has no such key.
#[verifier::external_body]
pub(crate) fn take_theme(themes: &mut ThemeSet, name: &str) -> (theme: Option<Theme>)
    ensures
        theme is Some == theme_names(*old(themes)).contains(name@),
        forall|other: Seq<char>|
            theme_names(*final(themes)).contains(other) == (theme_names(*old(themes)).contains(other)
                && other != name@),
{
    themes.themes.remove(name)
}

/// Looks a syntax up by a token.
///
/// Trusted: calls `SyntaxSet::find_syntax_by_token`, which searches the
/// catalog by file extension and then by name, without regard to case.
#[verifier::external_body]
pub(crate) fn find_by_token<'a>(set: &'a SyntaxSet, token: &str) -> (found: Option<
    &'a SyntaxReference,
>)
    ensures
        match found {
            Some(syntax) => syntax_by_token(*set, token@) == Some(*syntax),
            None => syntax_by_token(*set, token@) is None,
        },
{
    set.find_syntax_by_token(token)
}

/// Looks a syntax up by its name.
///
/// Trusted: calls `SyntaxSet::find_syntax_by_name`, which searches the
/// catalog for a syntax of exactly that name.
#[verifier::external_body]
pub(crate) fn find_by_name<'a>(set: &'a SyntaxSet, name: &str) -> (found: Option<
    &'a SyntaxReference,
>)
    ensures
        match found {
            Some(syntax) => syntax_by_name(*set, name@) == Some(*syntax),
            None => syntax_by_name(*set, name@) is None,
        },
{
    set.find_syntax_by_name(name)
}

/// The stretches of text that the engine hands out, each with its style, as
/// regions.
pub open spec fn styled_view(styled: Seq<(Style, &str)>) -> Seq<RegionView> {
    Seq::new(
        styled.len(),
        |i: int| RegionView { text: styled[i].1@, style: style_view(styled[i].0) },
    )
}

/// Reads a style of the engine.
///
/// Trusted: copies the channels of the two colours of a `Style`, and asks
/// its font style with `FontStyle::contains` for each of the three flags.
#[verifier::external_body]
pub(crate) fn attributes(style: &Style) -> (r: StyleAttributes)
    ensures
        r == style_view(*style),
{
    let (fg, bg, font) = (style.foreground, style.background, style.font_style);
    StyleAttributes {
        foreground: Color { r: fg.r, g: fg.g, b: fg.b, a: fg.a },
        background: Color { r: bg.r, g: bg.g, b: bg.b, a: bg.a },
        bold: font.contains(FontStyle::BOLD),
        italic: font.contains(FontStyle::ITALIC),
        underline: font.contains(FontStyle::UNDERLINE),
    }
}

/// Cuts a code text into stretches, each with its style.
///
/// Trusted: makes a fresh `HighlightLines` for the syntax and the theme and
/// calls its `highlight_line` once, on the whole text. The syntax has to be
/// one of the catalog: the engine follows references from it into the
/// catalog.
#[verifier::external_body]
pub(crate) fn highlight_line<'a>(
    set: &SyntaxSet,
    syntax: &SyntaxReference,
    theme: &Theme,
    code: &'a str,
) -> (r: Result<Vec<(Style, &'a str)>, Error>)
    requires
        holds_syntax(*set, *syntax),
    ensures
        match r {
            Ok(styled) => highlighted(*set, *syntax, *theme, code@) == Some(styled_view(styled@)),
            Err(_) => highlighted(*set, *syntax, *theme, code@) is None,
        },
{
    HighlightLines::new(syntax, theme).highlight_line(code, set)
}

/// Writes styled stretches of text as coloured web markup.
///
/// Trusted: calls `styled_line_to_highlighted_html` without background
/// colours, which writes a `span` with an inline style round the escaped text
/// of each run of stretches that look alike.
#[verifier::external_body]
pub(crate) fn colorize(styled: &Vec<(Style, &str)>) -> (r: Result<String, Error>)
    ensures
        match r {
            Ok(markup) => colored_html(styled_view(styled@)) == Some(markup@),
            Err(_) => colored_html(styled_view(styled@)) is None,
        },
{
    styled_line_to_highlighted_html(&styled[..], IncludeBackground::No)
}

} // verus!
