use crowbook::breaks::{advance, insert_breaks, BreakState, Scan, BREAK_MARK, RUN_LIMIT};
use crowbook::channel::{channel_literal, digit, write_billionths, BILLION, CHANNEL_BILLIONTHS};
use crowbook::style::{Color, StyleAttributes, StyledRegion};
use crowbook::tex::{
    apply_wrap, apply_wraps, fix_spacing, style_wraps, tex_document, tex_region, tex_text,
    verbatim, Wrap, FIXED_SPACE, LINE_BREAK,
};

fn color(r: u8, g: u8, b: u8) -> Color {
    Color { r, g, b, a: 255 }
}

fn style(foreground: Color, bold: bool, italic: bool, underline: bool) -> StyleAttributes {
    StyleAttributes { foreground, background: color(255, 255, 255), bold, italic, underline }
}

fn region(text: &str, style: StyleAttributes) -> StyledRegion {
    StyledRegion { text: text.to_string(), style }
}

#[test]
fn channel_literals_are_the_shortest_single_precision_decimals() {
    let mut c: u16 = 0;
    while c <= 255 {
        let expected = format!("{}", c as f32 / 255.0);
        assert_eq!(channel_literal(c as u8), expected);
        c += 1;
    }
}

#[test]
fn channel_numbers_are_near_the_share_of_255() {
    let mut c: usize = 0;
    while c <= 255 {
        let written = CHANNEL_BILLIONTHS[c] as f64 / BILLION as f64;
        let share = c as f64 / 255.0;
        assert!((written - share).abs() <= 1e-7);
        assert_eq!(written as f32, c as f32 / 255.0);
        c += 1;
    }
}

#[test]
fn write_billionths_drops_trailing_zeros() {
    assert_eq!(write_billionths(0), "0");
    assert_eq!(write_billionths(BILLION), "1");
    assert_eq!(write_billionths(u32::MAX), "1");
    assert_eq!(write_billionths(500_000_000), "0.5");
    assert_eq!(write_billionths(120_000_000), "0.12");
    assert_eq!(write_billionths(1), "0.000000001");
    assert_eq!(write_billionths(10), "0.00000001");
    assert_eq!(write_billionths(999_999_999), "0.999999999");
    assert_eq!(write_billionths(100_000_001), "0.100000001");
    assert_eq!(write_billionths(3_921_569), "0.003921569");
}

#[test]
fn digit_gives_the_character_of_a_digit() {
    assert_eq!(digit(0), '0');
    assert_eq!(digit(7), '7');
    assert_eq!(digit(9), '9');
}

#[test]
fn channel_literals_at_the_ends() {
    assert_eq!(channel_literal(0), "0");
    assert_eq!(channel_literal(255), "1");
    assert_eq!(channel_literal(128), "0.5019608");
    assert_eq!(channel_literal(1), "0.003921569");
}

#[test]
fn a_black_region_has_no_color_directive() {
    let out = tex_region(&region("x", style(color(0, 0, 0), false, false, false)));
    assert_eq!(out, "\\texttt{x}");
    assert!(!out.contains("\\textcolor"));
    let out = tex_region(&region("a b", style(color(0, 0, 0), true, true, true)));
    assert!(!out.contains("\\textcolor"));
}

#[test]
fn black_is_judged_without_regard_to_opacity() {
    let fg = Color { r: 0, g: 0, b: 0, a: 0 };
    assert!(fg.black());
    let out = tex_region(&region("x", style(fg, false, false, false)));
    assert_eq!(out, "\\texttt{x}");
    assert!(!color(0, 0, 1).black());
    assert!(!color(0, 1, 0).black());
    assert!(!color(1, 0, 0).black());
}

#[test]
fn a_red_region_has_channels_one_zero_zero() {
    let out = tex_region(&region("x", style(color(255, 0, 0), false, false, false)));
    assert_eq!(out, "\\textcolor[rgb]{1, 0, 0}{\\texttt{x}}");
}

#[test]
fn a_colored_region_writes_each_channel_over_255() {
    let out = tex_region(&region("x", style(color(128, 64, 255), false, false, false)));
    assert_eq!(out, "\\textcolor[rgb]{0.5019608, 0.2509804, 1}{\\texttt{x}}");
}

#[test]
fn attributes_nest_in_a_fixed_order() {
    let out = tex_region(&region("x", style(color(255, 0, 0), true, true, true)));
    assert_eq!(
        out,
        "\\underline{\\emph{\\textbf{\\textcolor[rgb]{1, 0, 0}{\\texttt{x}}}}}"
    );
    let out = tex_region(&region("x", style(color(0, 0, 0), true, false, true)));
    assert_eq!(out, "\\underline{\\textbf{\\texttt{x}}}");
    let out = tex_region(&region("x", style(color(0, 0, 0), false, true, false)));
    assert_eq!(out, "\\emph{\\texttt{x}}");
}

#[test]
fn style_wraps_lists_the_commands_innermost_first() {
    let wraps = style_wraps(&style(color(1, 2, 3), true, true, true));
    assert_eq!(
        wraps,
        vec![
            Wrap::Monospace,
            Wrap::Colored(color(1, 2, 3)),
            Wrap::Bold,
            Wrap::Emphasis,
            Wrap::Underline
        ]
    );
    let wraps = style_wraps(&style(color(0, 0, 0), false, false, false));
    assert_eq!(wraps, vec![Wrap::Monospace]);
    let wraps = style_wraps(&style(color(0, 0, 0), false, false, true));
    assert_eq!(wraps, vec![Wrap::Monospace, Wrap::Underline]);
}

#[test]
fn apply_wrap_puts_one_command_round_a_text() {
    assert_eq!(apply_wrap(Wrap::Monospace, "t"), "\\texttt{t}");
    assert_eq!(apply_wrap(Wrap::Bold, "t"), "\\textbf{t}");
    assert_eq!(apply_wrap(Wrap::Emphasis, "t"), "\\emph{t}");
    assert_eq!(apply_wrap(Wrap::Underline, "t"), "\\underline{t}");
    assert_eq!(
        apply_wrap(Wrap::Colored(color(0, 255, 0)), "t"),
        "\\textcolor[rgb]{0, 1, 0}{t}"
    );
    assert_eq!(apply_wrap(Wrap::Bold, ""), "\\textbf{}");
}

#[test]
fn apply_wraps_goes_from_the_inside_out() {
    let out = apply_wraps("t".to_string(), &vec![Wrap::Bold, Wrap::Underline]);
    assert_eq!(out, "\\underline{\\textbf{t}}");
    let out = apply_wraps("t".to_string(), &vec![]);
    assert_eq!(out, "t");
}

#[test]
fn tex_text_escapes_reserved_characters() {
    assert_eq!(tex_text("a_b"), "a\\_b");
    assert_eq!(tex_text("50%"), "50\\%");
    assert_eq!(tex_text("$x"), "\\$x");
    assert_eq!(tex_text("#1"), "\\#1");
    assert_eq!(tex_text("a&b"), "a\\&b");
    assert_eq!(tex_text("{}"), "\\{\\}");
    assert_eq!(tex_text("\\"), "\\textbackslash{}");
    assert_eq!(tex_text("~"), "\\textasciitilde{}");
    assert_eq!(tex_text("^"), "\\textasciicircum{}");
    assert_eq!(tex_text("[i]"), "{[}i{]}");
    assert_eq!(tex_text("a--b"), "a-{}-b");
    assert_eq!(tex_text("a-b"), "a-b");
    assert_eq!(tex_text("---"), "-{}-{}-");
    assert_eq!(tex_text("plain"), "plain");
    assert_eq!(tex_text(""), "");
    assert_eq!(tex_text("a-"), "a-");
    assert_eq!(tex_text("-"), "-");
    assert_eq!(tex_text("--"), "-{}-");
    assert_eq!(tex_text("a<b>c!"), "a<b>c!");
    assert_eq!(tex_text("\u{e9}_\u{3042}"), "\u{e9}\\_\u{3042}");
    assert_eq!(tex_text("x\ty"), "x\ty");
}

#[test]
fn tex_text_makes_spaces_and_line_ends_explicit() {
    assert_eq!(tex_text("a b"), "a\\hphantom{ }\\allowbreak{}b");
    assert_eq!(tex_text("a\nb"), "a\\\\{}\nb");
    assert_eq!(tex_text(" \n"), "\\hphantom{ }\\allowbreak{}\\\\{}\n");
}

#[test]
fn fix_spacing_touches_spaces_and_line_ends_only() {
    assert_eq!(FIXED_SPACE, "\\hphantom{ }\\allowbreak{}");
    assert_eq!(LINE_BREAK, "\\\\{}\n");
    assert_eq!(fix_spacing("a\tb"), "a\tb");
    assert_eq!(fix_spacing("\\_"), "\\_");
    assert_eq!(fix_spacing("x  y"), format!("x{}{}y", FIXED_SPACE, FIXED_SPACE));
    assert_eq!(fix_spacing("\n\n"), format!("{}{}", LINE_BREAK, LINE_BREAK));
    assert_eq!(fix_spacing(""), "");
}

#[test]
fn short_runs_get_no_break_mark() {
    assert_eq!(insert_breaks("let x = 1;"), "let x = 1;");
    let twenty = "a".repeat(RUN_LIMIT as usize);
    assert_eq!(insert_breaks(&twenty), twenty);
    assert_eq!(insert_breaks(""), "");
}

#[test]
fn a_long_run_gets_a_mark_after_each_full_run() {
    assert_eq!(BREAK_MARK, "\\allowbreak{}");
    assert_eq!(RUN_LIMIT, 20);
    let full = "a".repeat(20);
    let text = "a".repeat(45);
    let expected = format!("{}{}{}{}{}", full, BREAK_MARK, full, BREAK_MARK, "a".repeat(5));
    assert_eq!(insert_breaks(&text), expected);
}

#[test]
fn a_space_starts_a_new_run() {
    let text = format!("{} {}", "a".repeat(15), "b".repeat(15));
    assert_eq!(insert_breaks(&text), text);
    let text = format!("{}\n{}", "a".repeat(20), "b".repeat(20));
    assert_eq!(insert_breaks(&text), text);
}

#[test]
fn a_tab_ends_a_run_and_a_fixed_space_does_not() {
    let text = format!("{}\t{}", "a".repeat(15), "b".repeat(15));
    assert_eq!(insert_breaks(&text), text);
    let text = format!("{}\u{a0}{}", "a".repeat(15), "b".repeat(15));
    let expected = format!("{}\u{a0}{}{}{}", "a".repeat(15), "b".repeat(4), BREAK_MARK, "b".repeat(11));
    assert_eq!(insert_breaks(&text), expected);
}

#[test]
fn no_mark_lands_inside_a_command() {
    let text = format!("{}\\textbackslash{{}}b", "a".repeat(20));
    let expected = format!("{}{}\\textbackslash{{}}b", "a".repeat(20), BREAK_MARK);
    assert_eq!(insert_breaks(&text), expected);
    let text = format!("{}\\_b", "a".repeat(19));
    let expected = format!("{}\\_{}b", "a".repeat(19), BREAK_MARK);
    assert_eq!(insert_breaks(&text), expected);
}

#[test]
fn no_mark_lands_inside_a_group() {
    let text = format!("{}{{[}}b", "a".repeat(20));
    let expected = format!("{}{{[}}{}b", "a".repeat(20), BREAK_MARK);
    assert_eq!(insert_breaks(&text), expected);
}

#[test]
fn advance_follows_commands_and_groups() {
    let start = BreakState { scan: Scan::Plain, depth: 0, run: 0 };
    let (mark, st) = advance(start, '\\');
    assert!(!mark);
    assert_eq!(st, BreakState { scan: Scan::Escape, depth: 0, run: 1 });
    let (_, st) = advance(st, 't');
    assert_eq!(st.scan, Scan::Word);
    let (_, st) = advance(st, 'x');
    assert_eq!(st.scan, Scan::Word);
    let (_, st) = advance(st, '{');
    assert_eq!(st, BreakState { scan: Scan::Plain, depth: 1, run: 1 });
    let (_, st) = advance(st, '}');
    assert_eq!(st, BreakState { scan: Scan::Plain, depth: 0, run: 1 });
    let (_, st) = advance(st, '}');
    assert_eq!(st.depth, 0);
    let (_, st) = advance(st, ' ');
    assert_eq!(st.run, 0);
    let full = BreakState { scan: Scan::Plain, depth: 0, run: 20 };
    let (mark, st) = advance(full, 'a');
    assert!(mark);
    assert_eq!(st.run, 1);
    let inside = BreakState { scan: Scan::Plain, depth: 1, run: 20 };
    let (mark, st) = advance(inside, 'a');
    assert!(!mark);
    assert_eq!(st.run, 20);
    let deep = BreakState { scan: Scan::Plain, depth: u32::MAX, run: 0 };
    let (_, st) = advance(deep, '{');
    assert_eq!(st.depth, u32::MAX);
    let escaped = BreakState { scan: Scan::Escape, depth: 0, run: 20 };
    let (mark, st) = advance(escaped, '&');
    assert!(!mark);
    assert_eq!(st.scan, Scan::Plain);
}

#[test]
fn tex_document_wraps_the_regions_in_a_sloppy_group() {
    let regions = vec![
        region("let", style(color(255, 0, 0), true, false, false)),
        region(" x", style(color(0, 0, 0), false, false, false)),
    ];
    assert_eq!(
        tex_document(&regions),
        "{\\sloppy \\textbf{\\textcolor[rgb]{1, 0, 0}{\\texttt{let}}}\\texttt{\\hphantom{ }\\allowbreak{}x}}"
    );
    assert_eq!(tex_document(&vec![]), "{\\sloppy }");
}

#[test]
fn verbatim_wraps_the_raw_code() {
    assert_eq!(
        verbatim("let x = 1;"),
        "\\begin{spverbatim}let x = 1;\\end{spverbatim}\n"
    );
    assert_eq!(verbatim("a_b & c"), "\\begin{spverbatim}a_b & c\\end{spverbatim}\n");
    assert_eq!(verbatim(""), "\\begin{spverbatim}\\end{spverbatim}\n");
}
