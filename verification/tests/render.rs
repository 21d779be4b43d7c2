use crowbook::logger::{InfoLevel, Report};
use crowbook::style::{
    join_regions, preserves_content, regions_nonempty, Color, StyleAttributes, StyledRegion,
};
use crowbook::syntax::{RenderTarget, Syntax, NO_HIGHLIGHTING, PLAIN_TEXT};
use crowbook::web::{colored_web_block, plain_web_block};

fn plain() -> Syntax {
    let mut reports: Vec<Report> = Vec::new();
    Syntax::new("InspiredGitHub", false, &mut reports)
}

fn engine(theme: &str) -> Syntax {
    let mut reports: Vec<Report> = Vec::new();
    Syntax::new(theme, true, &mut reports)
}

fn decode(markup: &str) -> String {
    markup
        .replace("&lt;", "<")
        .replace("&gt;", ">")
        .replace("&quot;", "\"")
        .replace("&#39;", "'")
        .replace("&amp;", "&")
}

fn strip_tags(markup: &str) -> String {
    let mut out = String::new();
    let mut inside = false;
    for c in markup.chars() {
        if c == '<' {
            inside = true;
        } else if c == '>' {
            inside = false;
        } else if !inside {
            out.push(c);
        }
    }
    out
}

fn region(text: &str) -> StyledRegion {
    let white = Color { r: 255, g: 255, b: 255, a: 255 };
    let black = Color { r: 0, g: 0, b: 0, a: 255 };
    StyledRegion {
        text: text.to_string(),
        style: StyleAttributes {
            foreground: black,
            background: white,
            bold: false,
            italic: false,
            underline: false,
        },
    }
}

#[test]
fn without_the_engine_web_output_is_one_escaped_block() {
    let out = plain().to_html("let x = 1;", "rust").unwrap();
    assert_eq!(out, "<pre><code class = \"language-rust\">let x = 1;</code></pre>");
}

#[test]
fn without_the_engine_typesetting_output_is_verbatim() {
    let out = plain().to_tex("let x = 1;", "rust").unwrap();
    assert_eq!(out, "\\begin{spverbatim}let x = 1;\\end{spverbatim}\n");
}

#[test]
fn without_the_engine_verbatim_is_not_escaped() {
    let out = plain().to_tex("a_b & 50%", "").unwrap();
    assert_eq!(out, "\\begin{spverbatim}a_b & 50%\\end{spverbatim}\n");
}

#[test]
fn without_the_engine_reserved_characters_are_escaped_for_the_web() {
    let out = plain().to_html("if a < b && c > d {}", "c").unwrap();
    assert_eq!(
        out,
        "<pre><code class = \"language-c\">if a &lt; b &amp;&amp; c &gt; d {}</code></pre>"
    );
    let body = &out["<pre><code class = \"language-c\">".len()..out.len() - "</code></pre>".len()];
    assert!(!body.contains('<'));
    assert!(!body.contains('>'));
    assert_eq!(decode(body), "if a < b && c > d {}");
}

#[test]
fn escaping_for_the_web_round_trips() {
    let codes = ["", "&", "&amp;", "<&>", "&lt;", "a&l", "&&&", "<<>>", "x &gt; y", "\u{e9}<\u{3042}>"];
    for code in codes {
        let out = plain_web_block(code, "x");
        let body = &out["<pre><code class = \"language-x\">".len()..out.len() - "</code></pre>".len()];
        assert!(!body.contains('<'));
        assert!(!body.contains('>'));
        assert_eq!(decode(body), code);
    }
}

#[test]
fn escaping_for_the_web_keeps_every_other_character() {
    let out = plain_web_block("a\"b'c\u{c}d\u{1}\te", "x");
    assert_eq!(
        out,
        "<pre><code class = \"language-x\">a\"b'c\u{c}d\u{1}\te</code></pre>"
    );
}

#[test]
fn without_the_engine_the_language_hint_is_kept_as_given() {
    let out = plain().to_html("x", "rust,ignore").unwrap();
    assert_eq!(out, "<pre><code class = \"language-rust,ignore\">x</code></pre>");
}

#[test]
fn colored_web_block_wraps_markup() {
    assert_eq!(colored_web_block("<span>x</span>"), "<pre><span>x</span></pre>");
    assert_eq!(colored_web_block(""), "<pre></pre>");
}

#[test]
fn making_a_renderer_without_the_engine_reports_once() {
    let mut reports: Vec<Report> = Vec::new();
    let syntax = Syntax::new("whatever", false, &mut reports);
    assert_eq!(reports.len(), 1);
    assert_eq!(reports[0].level, InfoLevel::Error);
    assert_eq!(reports[0].text, NO_HIGHLIGHTING);
    assert!(syntax.theme_name().is_none());
}

#[test]
fn making_a_renderer_keeps_earlier_reports() {
    let mut reports = vec![Report { level: InfoLevel::Debug, text: "earlier".to_string() }];
    let _ = Syntax::new("nonexistent-theme", true, &mut reports);
    assert_eq!(reports.len(), 3);
    assert_eq!(reports[0].text, "earlier");
    assert_eq!(reports[1].level, InfoLevel::Warning);
    assert_eq!(reports[2].level, InfoLevel::Info);
}

#[test]
fn a_known_theme_is_taken_silently() {
    let mut reports: Vec<Report> = Vec::new();
    let syntax = Syntax::new("Solarized (dark)", true, &mut reports);
    assert!(reports.is_empty());
    assert_eq!(syntax.theme_name(), Some("Solarized (dark)"));
}

#[test]
fn an_unknown_theme_gives_the_default_and_two_reports() {
    let mut reports: Vec<Report> = Vec::new();
    let unknown = Syntax::new("nonexistent-theme", true, &mut reports);
    assert_eq!(reports.len(), 2);
    assert_eq!(reports[0].level, InfoLevel::Warning);
    assert_eq!(
        reports[0].text,
        "could not set syntect theme to nonexistent-theme, defaulting to \"InspiredGithub\""
    );
    assert_eq!(reports[1].level, InfoLevel::Info);
    assert_eq!(
        reports[1].text,
        "valid theme names are: InspiredGitHub, Solarized (dark), Solarized (light), \
         base16-eighties.dark, base16-mocha.dark, base16-ocean.dark, base16-ocean.light"
    );
    let mut second: Vec<Report> = Vec::new();
    let misspelt = Syntax::new("InspiredGithub", true, &mut second);
    assert_eq!(second.len(), 2);
    let default = engine("InspiredGitHub");
    assert_eq!(unknown.theme_name(), Some("InspiredGitHub"));
    assert_eq!(unknown.theme_name(), misspelt.theme_name());
    assert_eq!(unknown.theme_name(), default.theme_name());
    let code = "fn main() { let x = 1; }";
    assert_eq!(unknown.to_html(code, "rust"), default.to_html(code, "rust"));
    assert_eq!(unknown.to_tex(code, "rust"), default.to_tex(code, "rust"));
    assert_eq!(misspelt.to_html(code, "rust"), default.to_html(code, "rust"));
}

#[test]
fn the_engine_lists_the_themes_it_comes_with() {
    let themes = syntect::highlighting::ThemeSet::load_defaults();
    let keys: Vec<&str> = themes.themes.keys().map(|k| k.as_str()).collect();
    assert_eq!(
        keys,
        vec![
            "InspiredGitHub",
            "Solarized (dark)",
            "Solarized (light)",
            "base16-eighties.dark",
            "base16-mocha.dark",
            "base16-ocean.dark",
            "base16-ocean.light"
        ]
    );
}

#[test]
fn themes_differ_in_what_they_give() {
    let light = engine("InspiredGitHub");
    let dark = engine("base16-ocean.dark");
    let code = "fn main() { let x = 1; }";
    assert_ne!(light.to_html(code, "rust"), dark.to_html(code, "rust"));
}

#[test]
fn highlighting_preserves_the_code() {
    let syntax = engine("InspiredGitHub");
    let codes = [
        "let x = 1;",
        "fn main() {\n    println!(\"<&>\");\n}\n",
        "",
        " ",
        "\n",
        "#include <stdio.h>\nint main(void) { return 0; }",
        "\u{e9}t\u{e9} = \"\u{3042}\"",
    ];
    for language in ["rust", "c", "py", "no-such-language", ""] {
        for code in codes {
            let regions = syntax.highlight(code, language).unwrap();
            let joined: String = regions.iter().map(|r| r.text.as_str()).collect();
            assert_eq!(joined, code);
            assert!(regions.iter().all(|r| !r.text.is_empty()));
            assert!(preserves_content(&regions, code));
        }
    }
}

#[test]
fn highlighting_without_the_engine_gives_one_plain_region() {
    let regions = plain().highlight("let x = 1;", "rust").unwrap();
    assert_eq!(regions.len(), 1);
    assert_eq!(regions[0].text, "let x = 1;");
    assert!(regions[0].style.foreground.black());
    assert!(!regions[0].style.bold && !regions[0].style.italic && !regions[0].style.underline);
    assert!(plain().highlight("", "rust").unwrap().is_empty());
}

#[test]
fn a_known_language_is_cut_into_several_regions() {
    let syntax = engine("InspiredGitHub");
    let regions = syntax.highlight("fn main() { let x = 1; }", "rust").unwrap();
    assert!(regions.len() > 1);
    let first = regions[0].style;
    assert!(regions.iter().any(|r| r.style != first));
}

#[test]
fn an_unknown_language_is_rendered_as_plain_text() {
    let syntax = engine("InspiredGitHub");
    let code = "fn main() { let x = 1; }";
    let unknown = syntax.highlight(code, "no-such-language").unwrap();
    let plain_text = syntax.highlight(code, PLAIN_TEXT).unwrap();
    assert_eq!(unknown.len(), 1);
    assert_eq!(unknown[0].text, code);
    assert_eq!(unknown[0].text, plain_text[0].text);
    assert_eq!(unknown[0].style, plain_text[0].style);
    assert!(syntax.to_html(code, "no-such-language").is_ok());
    assert!(syntax.to_tex(code, "no-such-language").is_ok());
}

#[test]
fn the_language_hint_is_normalized_before_the_lookup() {
    let syntax = engine("InspiredGitHub");
    let code = "fn main() { let x = 1; }";
    assert_eq!(syntax.to_html(code, " rust ,ignore"), syntax.to_html(code, "rust"));
    assert_eq!(syntax.to_tex(code, "rust,no_run"), syntax.to_tex(code, "rust"));
    assert_ne!(syntax.to_html(code, "rust"), syntax.to_html(code, "no-such-language"));
}

#[test]
fn web_output_with_the_engine_is_one_block_of_spans() {
    let syntax = engine("InspiredGitHub");
    let code = "if a < b && c > d { x = \"q\"; }";
    let out = syntax.to_html(code, "rust").unwrap();
    assert!(out.starts_with("<pre><span style=\""));
    assert!(out.ends_with("</span></pre>"));
    assert!(!out.contains("background-color"));
    assert_eq!(decode(&strip_tags(&out)), code);
}

#[test]
fn web_output_with_the_engine_for_plain_text() {
    let syntax = engine("InspiredGitHub");
    let out = syntax.to_html("a < b", "no-such-language").unwrap();
    assert_eq!(out, "<pre><span style=\"color:#323232;\">a &lt; b</span></pre>");
    assert_eq!(syntax.to_html("", "rust").unwrap(), "<pre></pre>");
}

#[test]
fn typesetting_output_with_the_engine_for_plain_text() {
    let syntax = engine("InspiredGitHub");
    let out = syntax.to_tex("a_b c", "no-such-language").unwrap();
    assert_eq!(
        out,
        "{\\sloppy \\textcolor[rgb]{0.19607843, 0.19607843, 0.19607843}{\\texttt{a\\_b\\hphantom{ }\\allowbreak{}c}}}"
    );
    assert_eq!(syntax.to_tex("", "rust").unwrap(), "{\\sloppy }");
}

#[test]
fn typesetting_output_with_the_engine_is_one_group() {
    let syntax = engine("InspiredGitHub");
    let out = syntax.to_tex("fn main() {\n    let x = 1;\n}", "rust").unwrap();
    assert!(out.starts_with("{\\sloppy "));
    assert!(out.ends_with("}"));
    assert!(out.contains("\\texttt{"));
    assert!(out.contains("\\\\{}\n"));
    assert!(out.contains("\\hphantom{ }\\allowbreak{}"));
    assert!(out.contains("\\{"));
}

#[test]
fn rendering_twice_gives_the_same_bytes() {
    let code = "fn main() {\n    println!(\"hello\");\n}\n";
    for syntax in [engine("InspiredGitHub"), plain()] {
        let a = syntax.to_html(code, "rust").unwrap();
        let b = syntax.to_html(code, "rust").unwrap();
        assert_eq!(a, b);
        let a = syntax.to_tex(code, "rust").unwrap();
        let b = syntax.to_tex(code, "rust").unwrap();
        assert_eq!(a, b);
    }
}

#[test]
fn render_picks_the_renderer_of_the_target() {
    let code = "let x = 1;";
    for syntax in [engine("InspiredGitHub"), plain()] {
        assert_eq!(
            syntax.render(RenderTarget::WebMarkup, code, "rust"),
            syntax.to_html(code, "rust")
        );
        assert_eq!(
            syntax.render(RenderTarget::TypesettingMarkup, code, "rust"),
            syntax.to_tex(code, "rust")
        );
    }
}

#[test]
fn regions_that_lose_text_do_not_preserve_the_code() {
    let regions = vec![region("let "), region("x")];
    assert!(preserves_content(&regions, "let x"));
    assert!(!preserves_content(&regions, "let x = 1;"));
    assert!(!preserves_content(&regions, "x let "));
    assert!(!preserves_content(&regions, ""));
    assert_eq!(join_regions(&regions), "let x");
}

#[test]
fn an_empty_region_is_sound_only_for_empty_code() {
    let regions = vec![region("a"), region(""), region("b")];
    assert!(!regions_nonempty(&regions));
    assert!(!preserves_content(&regions, "ab"));
    assert!(preserves_content(&vec![region("")], ""));
    assert!(preserves_content(&vec![], ""));
    assert!(regions_nonempty(&vec![]));
    assert!(regions_nonempty(&vec![region("a")]));
}
