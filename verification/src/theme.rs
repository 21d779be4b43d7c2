//! The choice of a colour theme by its name.
//!
//! A theme that the catalog holds is taken. For any other name the default
//! theme is taken, and two reports say so: a warning that names the theme
//! asked for, and an information that lists the names the catalog holds.

use vstd::prelude::*;
use vstd::string::*;
use crate::logger::{InfoLevel, Report, ReportView};

verus! {

/// The name of the theme that is taken where the one asked for is unknown.
pub const DEFAULT_THEME: &'static str = "InspiredGitHub";

/// The names, in order, with a comma and a space between two of them.
pub open spec fn joined_names(names: Seq<Seq<char>>) -> Seq<char>
    decreases names.len(),
{
    if names.len() == 0 {
        Seq::empty()
    } else if names.len() == 1 {
        names[0]
    } else {
        names[0] + ", "@ + joined_names(names.drop_first())
    }
}

/// The text of the warning for an unknown theme.
pub open spec fn warning_text(requested: Seq<char>) -> Seq<char> {
    "could not set syntect theme to "@ + requested + ", defaulting to \"InspiredGithub\""@
}

/// The text of the information that lists the catalog's names.
pub open spec fn info_text(names: Seq<Seq<char>>) -> Seq<char> {
    "valid theme names are: "@ + joined_names(names)
}

/// The name of the theme that is taken for `requested`.
pub open spec fn resolved_name(requested: Seq<char>, names: Seq<Seq<char>>) -> Seq<char> {
    if names.contains(requested) {
        requested
    } else {
        DEFAULT_THEME@
    }
}

/// The reports that the choice for `requested` gives rise to.
pub open spec fn resolution_reports(requested: Seq<char>, names: Seq<Seq<char>>) -> Seq<
    ReportView,
> {
    if names.contains(requested) {
        Seq::empty()
    } else {
        seq![
            ReportView { level: InfoLevel::Warning, text: warning_text(requested) },
            ReportView { level: InfoLevel::Info, text: info_text(names) },
        ]
    }
}

/// The outcome of a choice: the name of the theme to take, and what is to be
/// reported.
pub struct Resolution {
    /// The name of the theme to take.
    pub name: String,
    /// The reports, in the order in which they are to be made.
    pub reports: Vec<Report>,
}

/// Tells whether `name` is among `names`.
pub fn has_name(names: &Vec<String>, name: &str) -> (found: bool)
    ensures
        found == names.deep_view().contains(name@),
{
    let ghost all = names.deep_view();
    let wanted = name.to_owned();
    let mut i: usize = 0;
    while i < names.len()
        invariant
            i <= names.len(),
            all == names.deep_view(),
            wanted@ == name@,
            forall|j: int| 0 <= j < i ==> all[j] != name@,
        decreases names.len() - i,
    {
        assert(all[i as int] == names[i as int]@);
        if names[i] == wanted {
            return true;
        }
        i += 1;
    }
    false
}

/// Joins the names with a comma and a space between two of them.
pub fn join_names(names: &Vec<String>) -> (r: String)
    ensures
        r@ == joined_names(names.deep_view()),
{
    let ghost all = names.deep_view();
    let mut out = String::new();
    let mut i: usize = 0;
    proof {
        assert(all.skip(0) =~= all);
    }
    while i < names.len()
        invariant
            i <= names.len(),
            all == names.deep_view(),
            out@ + joined_names(all.skip(i as int)) == joined_names(all),
        decreases names.len() - i,
    {
        let ghost before = out@;
        let ghost rest = all.skip(i as int);
        out.append(names[i].as_str());
        if i + 1 < names.len() {
            out.append(", ");
        }
        proof {
            assert(rest[0] == names[i as int]@);
            assert(rest.drop_first() =~= all.skip(i as int + 1));
            assert(rest.len() == names.len() - i);
            if rest.len() == 1 {
                assert(joined_names(rest.drop_first()) =~= Seq::<char>::empty());
            }
            assert(out@ + joined_names(rest.drop_first()) =~= before + joined_names(rest));
        }
        i += 1;
    }
    proof {
        assert(all.skip(i as int) =~= Seq::<Seq<char>>::empty());
    }
    out
}

/// Chooses the theme for the name `requested` among the names `available`
/// of a catalog.
pub fn resolve(requested: &str, available: &Vec<String>) -> (r: Resolution)
    ensures
        r.name@ == resolved_name(requested@, available.deep_view()),
        r.reports.deep_view() == resolution_reports(requested@, available.deep_view()),
{
    let mut reports: Vec<Report> = Vec::new();
    if has_name(available, requested) {
        assert(reports.deep_view() =~= Seq::<ReportView>::empty());
        return Resolution { name: String::from_str(requested), reports };
    }
    let mut warning = String::from_str("could not set syntect theme to ");
    warning.append(requested);
    warning.append(", defaulting to \"InspiredGithub\"");
    let mut info = String::from_str("valid theme names are: ");
    let listed = join_names(available);
    info.append(listed.as_str());
    reports.push(Report { level: InfoLevel::Warning, text: warning });
    reports.push(Report { level: InfoLevel::Info, text: info });
    assert(reports.deep_view() =~= resolution_reports(requested@, available.deep_view()));
    Resolution { name: String::from_str(DEFAULT_THEME), reports }
}

/// An unknown name gives the theme that the default's own name gives, and
/// exactly two reports: first a warning, then an information.
pub proof fn lemma_unknown_theme_falls_back(requested: Seq<char>, names: Seq<Seq<char>>)
    requires
        !names.contains(requested),
    ensures
        resolved_name(requested, names) == resolved_name(DEFAULT_THEME@, names),
        resolution_reports(requested, names).len() == 2,
        resolution_reports(requested, names)[0].level == InfoLevel::Warning,
        resolution_reports(requested, names)[1].level == InfoLevel::Info,
{
}

/// A name that the catalog holds is taken as it is, and nothing is reported.
pub proof fn lemma_known_theme_is_taken(requested: Seq<char>, names: Seq<Seq<char>>)
    requires
        names.contains(requested),
    ensures
        resolved_name(requested, names) == requested,
        resolution_reports(requested, names).len() == 0,
{
}

} // verus!
