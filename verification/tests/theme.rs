use crowbook::logger::InfoLevel;
use crowbook::theme::{has_name, join_names, resolve, DEFAULT_THEME};

fn names(list: &[&str]) -> Vec<String> {
    list.iter().map(|s| s.to_string()).collect()
}

#[test]
fn a_known_theme_is_taken_without_reports() {
    let catalog = names(&["InspiredGitHub", "Solarized (dark)"]);
    let r = resolve("Solarized (dark)", &catalog);
    assert_eq!(r.name, "Solarized (dark)");
    assert!(r.reports.is_empty());
}

#[test]
fn an_unknown_theme_falls_back_with_one_warning_and_one_info() {
    let catalog = names(&["InspiredGitHub", "Solarized (dark)"]);
    let r = resolve("nonexistent-theme", &catalog);
    assert_eq!(r.name, DEFAULT_THEME);
    assert_eq!(r.name, "InspiredGitHub");
    assert_eq!(r.reports.len(), 2);
    assert_eq!(r.reports[0].level, InfoLevel::Warning);
    assert_eq!(
        r.reports[0].text,
        "could not set syntect theme to nonexistent-theme, defaulting to \"InspiredGithub\""
    );
    assert_eq!(r.reports[1].level, InfoLevel::Info);
    assert_eq!(
        r.reports[1].text,
        "valid theme names are: InspiredGitHub, Solarized (dark)"
    );
}

#[test]
fn an_unknown_theme_resolves_as_the_default_does() {
    let catalog = names(&["base16-ocean.dark", "InspiredGitHub"]);
    let unknown = resolve("nonexistent-theme", &catalog);
    let default = resolve("InspiredGitHub", &catalog);
    let misspelt = resolve("InspiredGithub", &catalog);
    assert_eq!(unknown.name, default.name);
    assert_eq!(misspelt.name, default.name);
    assert!(default.reports.is_empty());
    assert_eq!(misspelt.reports.len(), 2);
}

#[test]
fn names_are_matched_exactly() {
    let catalog = names(&["InspiredGitHub"]);
    assert!(has_name(&catalog, "InspiredGitHub"));
    assert!(!has_name(&catalog, "inspiredgithub"));
    assert!(!has_name(&catalog, "InspiredGitHub "));
    assert!(!has_name(&catalog, ""));
    assert!(!has_name(&names(&[]), "x"));
}

#[test]
fn join_names_puts_a_comma_and_a_space_between() {
    assert_eq!(join_names(&names(&[])), "");
    assert_eq!(join_names(&names(&["a"])), "a");
    assert_eq!(join_names(&names(&["a", "b"])), "a, b");
    assert_eq!(join_names(&names(&["a", "", "c"])), "a, , c");
}

#[test]
fn an_empty_catalog_lists_nothing() {
    let r = resolve("x", &names(&[]));
    assert_eq!(r.name, "InspiredGitHub");
    assert_eq!(r.reports[1].text, "valid theme names are: ");
}
