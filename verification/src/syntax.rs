//! The renderer of code blocks.
//!
//! A renderer is made once, with or without the highlighting engine, and
//! then renders any number of code blocks. With the engine it cuts the code
//! into styled regions and writes them out; without it, it writes the code
//! out plainly. Making one reports what the caller should know; rendering
//! reports nothing.

use vstd::prelude::*;
use vstd::string::*;
use syntect::highlighting::{Style, Theme};
use syntect::parsing::{SyntaxReference, SyntaxSet};
use crate::engine::{
    attributes,
    colored_html,
    colorize,
    default_theme_names,
    find_by_name,
    find_by_token,
    highlight_line,
    highlighted,
    list_themes,
    load_syntaxes,
    load_themes,
    styled_view,
    syntax_by_name,
    syntax_by_token,
    take_theme,
};
use crate::language::{normalized, strip_language};
use crate::logger::{InfoLevel, Report, ReportView};
use crate::style::{
    content_preserving,
    preserves_content,
    Color,
    RegionView,
    StyleAttributes,
    StyledRegion,
};
use crate::tex::{tex_block, tex_document, verbatim, verbatim_block};
use crate::theme::{resolution_reports, resolve, resolved_name, DEFAULT_THEME};
use crate::web::{colored_block, colored_web_block, plain_block, plain_web_block};

verus! {

/// The name of the syntax that is used where no syntax is found for a language.
pub const PLAIN_TEXT: &'static str = "Plain Text";

/// What is reported when a renderer is made without the engine.
pub const NO_HIGHLIGHTING: &'static str =
    "syntax highlighting is disabled, code blocks will be rendered without colours";

/// Why a code block could not be rendered.
#[derive(Clone, Copy, Debug, PartialEq, Eq, Structural)]
pub enum RenderError {
    /// The highlighting engine failed on this code block.
    RenderingFailure,
}

/// The markup that a code block is rendered into.
#[derive(Clone, Copy, Debug, PartialEq, Eq, Structural)]
pub enum RenderTarget {
    /// Markup for the web.
    WebMarkup,
    /// Markup for the typesetter.
    TypesettingMarkup,
}

/// What a renderer with the engine holds: the syntax definitions, and the
/// theme that was chosen under the name kept beside it.
struct Engine {
    syntaxes: SyntaxSet,
    theme: Theme,
    theme_name: String,
}

/// A renderer of code blocks.
pub struct Syntax {
    engine: Option<Engine>,
}

/// The look of text that no engine has coloured: black on white, no font
/// attribute.
pub open spec fn plain_style() -> StyleAttributes {
    StyleAttributes {
        foreground: Color { r: 0, g: 0, b: 0, a: 255 },
        background: Color { r: 255, g: 255, b: 255, a: 255 },
        bold: false,
        italic: false,
        underline: false,
    }
}

/// The regions of a code text that no engine has cut: the whole text as one
/// region of plain look, or no region where the text is empty.
pub open spec fn plain_regions(code: Seq<char>) -> Seq<RegionView> {
    if code.len() == 0 {
        Seq::empty()
    } else {
        seq![RegionView { text: code, style: plain_style() }]
    }
}

/// The syntax under which a catalog has a language highlighted: the one it
/// finds for the language, else the one for plain text; `None` where it has
/// neither.
pub open spec fn chosen_syntax(set: SyntaxSet, language: Seq<char>) -> Option<SyntaxReference> {
    match syntax_by_token(set, language) {
        Some(syntax) => Some(syntax),
        None => syntax_by_name(set, PLAIN_TEXT@),
    }
}

/// The regions that the engine gives for a code text, where they are sound:
/// `None` where the catalog has no syntax to use, where the engine fails, and
/// where what it gives does not preserve the code.
pub open spec fn engine_regions(
    set: SyntaxSet,
    theme: Theme,
    language: Seq<char>,
    code: Seq<char>,
) -> Option<Seq<RegionView>> {
    match chosen_syntax(set, language) {
        Some(syntax) => match highlighted(set, syntax, theme, code) {
            Some(regions) => if content_preserving(regions, code) {
                Some(regions)
            } else {
                None
            },
            None => None,
        },
        None => None,
    }
}

/// What is reported when a renderer is made.
pub open spec fn construction_reports(theme_name: Seq<char>, highlighting: bool) -> Seq<
    ReportView,
> {
    if highlighting {
        resolution_reports(theme_name, default_theme_names())
    } else {
        seq![ReportView { level: InfoLevel::Error, text: NO_HIGHLIGHTING@ }]
    }
}

/// Copies the stretches that the engine handed out into regions.
fn to_regions(styled: &Vec<(Style, &str)>) -> (regions: Vec<StyledRegion>)
    ensures
        regions.deep_view() == styled_view(styled@),
{
    let mut regions: Vec<StyledRegion> = Vec::new();
    let mut i: usize = 0;
    while i < styled.len()
        invariant
            i <= styled.len(),
            regions.len() == i,
            forall|j: int| 0 <= j < i ==> (#[trigger] regions[j])@ == styled_view(styled@)[j],
        decreases styled.len() - i,
    {
        let style = attributes(&styled[i].0);
        regions.push(StyledRegion { text: String::from_str(styled[i].1), style });
        i += 1;
    }
    assert(regions.deep_view() =~= styled_view(styled@));
    regions
}

impl Engine {
    /// Cuts a code text under the syntax for `language`, or under the syntax
    /// for plain text where the language is unknown. What comes back is what
    /// the engine handed out and the same as regions; it preserves the code,
    /// or the call fails.
    fn cut<'a>(&self, code: &'a str, language: &str) -> (r: Result<
        (Vec<(Style, &'a str)>, Vec<StyledRegion>),
        RenderError,
    >)
        ensures
            match r {
                Ok(cut) => {
                    &&& engine_regions(self.syntaxes, self.theme, language@, code@) == Some(
                        cut.1.deep_view(),
                    )
                    &&& cut.1.deep_view() == styled_view(cut.0@)
                    &&& content_preserving(cut.1.deep_view(), code@)
                },
                Err(_) => engine_regions(self.syntaxes, self.theme, language@, code@) is None,
            },
    {
        let syntax = match find_by_token(&self.syntaxes, language) {
            Some(syntax) => syntax,
            None => match find_by_name(&self.syntaxes, PLAIN_TEXT) {
                Some(syntax) => syntax,
                None => {
                    return Err(RenderError::RenderingFailure);
                },
            },
        };
        assert(chosen_syntax(self.syntaxes, language@) == Some(*syntax));
        match highlight_line(&self.syntaxes, syntax, &self.theme, code) {
            Ok(styled) => {
                let regions = to_regions(&styled);
                if preserves_content(&regions, code) {
                    Ok((styled, regions))
                } else {
                    Err(RenderError::RenderingFailure)
                }
            },
            Err(_) => Err(RenderError::RenderingFailure),
        }
    }
}

impl Syntax {
    /// The catalog of syntaxes and the theme that the renderer works with;
    /// `None` without the engine.
    pub closed spec fn engine_parts(&self) -> Option<(SyntaxSet, Theme)> {
        match self.engine {
            Some(engine) => Some((engine.syntaxes, engine.theme)),
            None => None,
        }
    }

    /// Whether the renderer has the highlighting engine.
    pub open spec fn highlighting(&self) -> bool {
        self.engine_parts() is Some
    }

    /// The name of the theme that the renderer colours with; `None` without
    /// the engine.
    pub closed spec fn spec_theme_name(&self) -> Option<Seq<char>> {
        match self.engine {
            Some(engine) => Some(engine.theme_name@),
            None => None,
        }
    }

    /// The regions into which the renderer cuts a code text of the given
    /// language: with the engine, what the engine gives under the syntax for
    /// the language, or for plain text, where that preserves the code;
    /// without it, the whole text as one region. `None` where the engine
    /// fails.
    pub open spec fn regions_of(&self, language: Seq<char>, code: Seq<char>) -> Option<
        Seq<RegionView>,
    > {
        match self.engine_parts() {
            Some((syntaxes, theme)) => engine_regions(syntaxes, theme, language, code),
            None => Some(plain_regions(code)),
        }
    }

    /// The typesetting markup for a code block; `None` where the engine fails.
    pub open spec fn tex_of(&self, language: Seq<char>, code: Seq<char>) -> Option<Seq<char>> {
        if self.highlighting() {
            match self.regions_of(normalized(language), code) {
                Some(regions) => Some(tex_block(regions)),
                None => None,
            }
        } else {
            Some(verbatim_block(code))
        }
    }

    /// The web markup for a code block; `None` where the engine fails.
    pub open spec fn html_of(&self, language: Seq<char>, code: Seq<char>) -> Option<Seq<char>> {
        if self.highlighting() {
            match self.regions_of(normalized(language), code) {
                Some(regions) => match colored_html(regions) {
                    Some(markup) => Some(colored_block(markup)),
                    None => None,
                },
                None => None,
            }
        } else {
            Some(plain_block(language, code))
        }
    }

    /// The markup of a target for a code block; `None` where the engine fails.
    pub open spec fn markup_of(
        &self,
        target: RenderTarget,
        language: Seq<char>,
        code: Seq<char>,
    ) -> Option<Seq<char>> {
        match target {
            RenderTarget::WebMarkup => self.html_of(language, code),
            RenderTarget::TypesettingMarkup => self.tex_of(language, code),
        }
    }

    /// Whether `r` is what rendering a code block for `target` gives: the
    /// markup of the target, or the failure where there is none.
    pub open spec fn renders(
        &self,
        target: RenderTarget,
        language: Seq<char>,
        code: Seq<char>,
        r: Result<String, RenderError>,
    ) -> bool {
        match r {
            Ok(markup) => self.markup_of(target, language, code) == Some(markup@),
            Err(e) => e == RenderError::RenderingFailure && self.markup_of(target, language, code)
                is None,
        }
    }

    /// Makes a renderer, with the engine and the theme called `theme_name`
    /// where `highlighting` holds, without the engine otherwise. What the
    /// caller should know is added to `reports`: that the theme is unknown and
    /// the default is taken in its place, or that nothing will be coloured.
    pub fn new(theme_name: &str, highlighting: bool, reports: &mut Vec<Report>) -> (syntax: Syntax)
        ensures
            syntax.highlighting() == highlighting,
            syntax.spec_theme_name() == (if highlighting {
                Some(resolved_name(theme_name@, default_theme_names()))
            } else {
                None
            }),
            final(reports).deep_view() == old(reports).deep_view() + construction_reports(
                theme_name@,
                highlighting,
            ),
    {
        let ghost before = reports.deep_view();
        if !highlighting {
            reports.push(Report { level: InfoLevel::Error, text: String::from_str(NO_HIGHLIGHTING) });
            assert(reports.deep_view() =~= before + construction_reports(theme_name@, highlighting));
            return Syntax { engine: None };
        }
        let mut themes = load_themes();
        let names = list_themes(&themes);
        let mut resolution = resolve(theme_name, &names);
        let ghost found = resolution.reports.deep_view();
        reports.append(&mut resolution.reports);
        assert(reports.deep_view() =~= before + found);
        assert(default_theme_names()[0] == DEFAULT_THEME@);
        assert(names.deep_view().contains(resolution.name@));
        let theme = match take_theme(&mut themes, resolution.name.as_str()) {
            Some(theme) => theme,
            None => vstd::pervasive::unreached(),
        };
        Syntax {
            engine: Some(Engine { syntaxes: load_syntaxes(), theme, theme_name: resolution.name }),
        }
    }

    /// The name of the theme that the renderer colours with; `None` without
    /// the engine.
    pub fn theme_name(&self) -> (name: Option<&str>)
        ensures
            match name {
                Some(name) => self.spec_theme_name() == Some(name@),
                None => self.spec_theme_name() is None,
            },
    {
        match &self.engine {
            Some(engine) => Some(engine.theme_name.as_str()),
            None => None,
        }
    }

    /// Cuts a code text into styled regions under the syntax for `language`,
    /// or under the syntax for plain text where the language is unknown. The
    /// regions preserve the code, or the call fails. Without the engine the
    /// whole text is one region of plain look.
    pub fn highlight(&self, code: &str, language: &str) -> (r: Result<
        Vec<StyledRegion>,
        RenderError,
    >)
        ensures
            match r {
                Ok(regions) => self.regions_of(language@, code@) == Some(regions.deep_view()),
                Err(_) => self.regions_of(language@, code@) is None,
            },
            r matches Ok(regions) ==> content_preserving(regions.deep_view(), code@),
    {
        match &self.engine {
            Some(engine) => match engine.cut(code, language) {
                Ok(cut) => Ok(cut.1),
                Err(e) => Err(e),
            },
            None => {
                let mut regions: Vec<StyledRegion> = Vec::new();
                if !code.is_empty() {
                    let style = StyleAttributes {
                        foreground: Color { r: 0, g: 0, b: 0, a: 255 },
                        background: Color { r: 255, g: 255, b: 255, a: 255 },
                        bold: false,
                        italic: false,
                        underline: false,
                    };
                    regions.push(StyledRegion { text: String::from_str(code), style });
                }
                proof {
                    assert(regions.deep_view() =~= plain_regions(code@));
                    lemma_plain_regions_preserve(code@);
                }
                Ok(regions)
            },
        }
    }

    /// Renders a code block as web markup.
    pub fn to_html(&self, code: &str, language: &str) -> (r: Result<String, RenderError>)
        ensures
            self.renders(RenderTarget::WebMarkup, language@, code@, r),
    {
        let engine = match &self.engine {
            Some(engine) => engine,
            None => {
                return Ok(plain_web_block(code, language));
            },
        };
        let cut = match engine.cut(code, strip_language(language)) {
            Ok(cut) => cut,
            Err(e) => {
                return Err(e);
            },
        };
        match colorize(&cut.0) {
            Ok(markup) => Ok(colored_web_block(markup.as_str())),
            Err(_) => Err(RenderError::RenderingFailure),
        }
    }

    /// Renders a code block as typesetting markup.
    pub fn to_tex(&self, code: &str, language: &str) -> (r: Result<String, RenderError>)
        ensures
            self.renders(RenderTarget::TypesettingMarkup, language@, code@, r),
    {
        if self.engine.is_none() {
            return Ok(verbatim(code));
        }
        match self.highlight(code, strip_language(language)) {
            Ok(regions) => Ok(tex_document(&regions)),
            Err(e) => Err(e),
        }
    }

    /// Renders a code block as the markup of `target`.
    pub fn render(&self, target: RenderTarget, code: &str, language: &str) -> (r: Result<
        String,
        RenderError,
    >)
        ensures
            self.renders(target, language@, code@, r),
    {
        match target {
            RenderTarget::WebMarkup => self.to_html(code, language),
            RenderTarget::TypesettingMarkup => self.to_tex(code, language),
        }
    }

    /// Rendering the same code block twice with one renderer gives the same
    /// markup, character for character, or fails both times.
    pub proof fn lemma_rendering_repeats(
        &self,
        target: RenderTarget,
        language: Seq<char>,
        code: Seq<char>,
        first: Result<String, RenderError>,
        second: Result<String, RenderError>,
    )
        requires
            self.renders(target, language, code, first),
            self.renders(target, language, code, second),
        ensures
            first is Ok == second is Ok,
            first matches Ok(a) ==> second matches Ok(b) && a@ == b@,
            first matches Err(e) ==> second matches Err(f) && e == f,
    {
    }

    /// Without the engine rendering never fails: the web markup is the
    /// escaped code in one block whose class names the hint as given, and the
    /// typesetting markup is the code as it stands in a verbatim environment.
    pub proof fn lemma_plain_rendering(&self, language: Seq<char>, code: Seq<char>)
        requires
            !self.highlighting(),
        ensures
            self.html_of(language, code) == Some(plain_block(language, code)),
            self.tex_of(language, code) == Some(verbatim_block(code)),
    {
    }

    /// The regions of a code text preserve it: their texts, in order, give
    /// the code back, and none is empty unless the code is.
    pub proof fn lemma_regions_preserve_content(&self, language: Seq<char>, code: Seq<char>)
        ensures
            self.regions_of(language, code) matches Some(regions) ==> content_preserving(
                regions,
                code,
            ),
    {
        if !self.highlighting() {
            lemma_plain_regions_preserve(code);
        }
    }
}

/// The one region of an uncut code text preserves it.
pub proof fn lemma_plain_regions_preserve(code: Seq<char>)
    ensures
        content_preserving(plain_regions(code), code),
{
    let regions = plain_regions(code);
    if code.len() > 0 {
        assert(regions.drop_first() =~= Seq::<RegionView>::empty());
        assert(crate::style::joined_text(regions) =~= code) by {
            reveal_with_fuel(crate::style::joined_text, 2);
        }
    } else {
        assert(crate::style::joined_text(regions) =~= code);
    }
}

} // verus!
