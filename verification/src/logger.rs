//! Leveled messages, and the decision whether and how one is shown.
//!
//! Nothing is written here. A logger decides from its verbosity whether a
//! message is shown and hands back what is to be shown: the head that names
//! the level, the colour of that head, and the text. Writing it to a terminal
//! is left to the caller.

use std::cmp::Ordering;
use vstd::prelude::*;
use vstd::std_specs::cmp::PartialOrdSpecImpl;
use vstd::string::*;

verus! {

/// How important a message is. The levels are ordered, `Debug` lowest.
#[derive(Debug, Clone, Copy, PartialEq, Eq, Structural)]
#[non_exhaustive]
pub enum InfoLevel {
    /// The lowest level.
    Debug,
    /// A warning.
    Warning,
    /// Information for the user.
    Info,
    /// An error.
    Error,
    /// As a verbosity: nothing is shown. No message has this level.
    Quiet,
}

/// The colour in which the head of a message is shown.
#[derive(Debug, Clone, Copy, PartialEq, Eq, Structural)]
pub enum Colour {
    /// For the lowest level.
    BrightBlue,
    /// For warnings.
    BrightYellow,
    /// For information.
    BrightGreen,
    /// For errors.
    BrightRed,
}

impl InfoLevel {
    /// The place of a level in the order of levels.
    pub open spec fn spec_rank(self) -> u8 {
        match self {
            InfoLevel::Debug => 0,
            InfoLevel::Warning => 1,
            InfoLevel::Info => 2,
            InfoLevel::Error => 3,
            InfoLevel::Quiet => 4,
        }
    }

    /// The place of a level in the order of levels.
    #[verifier::when_used_as_spec(spec_rank)]
    pub fn rank(self) -> (r: u8)
        ensures
            r == self.spec_rank(),
    {
        match self {
            InfoLevel::Debug => 0,
            InfoLevel::Warning => 1,
            InfoLevel::Info => 2,
            InfoLevel::Error => 3,
            InfoLevel::Quiet => 4,
        }
    }

    /// Whether a message can have this level: every level but `Quiet`.
    pub open spec fn is_shown(self) -> bool {
        self != InfoLevel::Quiet
    }

    /// The head that names the level before the text of a message.
    pub open spec fn head_text(self) -> Seq<char>
        recommends
            self.is_shown(),
    {
        match self {
            InfoLevel::Debug => "Debug: "@,
            InfoLevel::Warning => "Warning: "@,
            InfoLevel::Info => "Info: "@,
            _ => "Error: "@,
        }
    }

    /// The colour of the head.
    pub open spec fn head_colour(self) -> Colour
        recommends
            self.is_shown(),
    {
        match self {
            InfoLevel::Debug => Colour::BrightBlue,
            InfoLevel::Warning => Colour::BrightYellow,
            InfoLevel::Info => Colour::BrightGreen,
            _ => Colour::BrightRed,
        }
    }
}

impl PartialOrd for InfoLevel {
    /// The order of two levels is that of their ranks.
    fn partial_cmp(&self, other: &InfoLevel) -> (r: Option<Ordering>) {
        let a = self.rank();
        let b = other.rank();
        if a < b {
            Some(Ordering::Less)
        } else if a == b {
            Some(Ordering::Equal)
        } else {
            Some(Ordering::Greater)
        }
    }
}

impl PartialOrdSpecImpl for InfoLevel {
    open spec fn obeys_partial_cmp_spec() -> bool {
        true
    }

    open spec fn partial_cmp_spec(&self, other: &InfoLevel) -> Option<Ordering> {
        if self.spec_rank() < other.spec_rank() {
            Some(Ordering::Less)
        } else if self.spec_rank() == other.spec_rank() {
            Some(Ordering::Equal)
        } else {
            Some(Ordering::Greater)
        }
    }
}

/// A message with its level, before any logger has decided on it.
#[derive(Debug, Clone)]
pub struct Report {
    /// The level of the message.
    pub level: InfoLevel,
    /// The text of the message.
    pub text: String,
}

/// A report as a plain value.
pub struct ReportView {
    /// The level of the message.
    pub level: InfoLevel,
    /// The text of the message.
    pub text: Seq<char>,
}

impl View for Report {
    type V = ReportView;

    open spec fn view(&self) -> ReportView {
        ReportView { level: self.level, text: self.text@ }
    }
}

impl DeepView for Report {
    type V = ReportView;

    open spec fn deep_view(&self) -> ReportView {
        self@
    }
}

/// What is shown for one message: the head, in bold and in its colour where
/// the terminal has colours, then the text and a line end.
#[derive(Debug, Clone)]
pub struct Display {
    /// The colour of the head.
    pub colour: Colour,
    /// The head, which names the level.
    pub head: String,
    /// The text of the message.
    pub text: String,
}

/// What is shown, as a plain value.
pub struct DisplayView {
    /// The colour of the head.
    pub colour: Colour,
    /// The head, which names the level.
    pub head: Seq<char>,
    /// The text of the message.
    pub text: Seq<char>,
}

impl View for Display {
    type V = DisplayView;

    open spec fn view(&self) -> DisplayView {
        DisplayView { colour: self.colour, head: self.head@, text: self.text@ }
    }
}

/// What is shown for a message of level `level` with text `text`.
pub open spec fn display_of(level: InfoLevel, text: Seq<char>) -> DisplayView
    recommends
        level.is_shown(),
{
    DisplayView { colour: level.head_colour(), head: level.head_text(), text }
}

impl Display {
    /// The line that a terminal without colours gets: head, text, line end.
    pub open spec fn plain_line(self) -> Seq<char> {
        self.head@ + self.text@ + seq!['\n']
    }

    /// Builds the line for a terminal without colours.
    pub fn line(&self) -> (r: String)
        ensures
            r@ == self.plain_line(),
    {
        let mut out = String::from_str(self.head.as_str());
        out.append(self.text.as_str());
        out.append("\n");
        proof {
            reveal_strlit("\n");
            assert("\n"@ =~= seq!['\n']);
        }
        out
    }
}

/// Decides by its verbosity which messages are shown.
///
/// The methods of one family (`log`, `debug`, `info`, `warning`, `error`)
/// show a message whose level is at or above the verbosity. Those of the
/// other (`display_msg` and the four `display_` methods) show it in any case.
#[derive(Debug)]
pub struct Logger {
    verbosity: InfoLevel,
}

impl Logger {
    /// The verbosity of the logger, for contracts.
    pub closed spec fn spec_verbosity(&self) -> InfoLevel {
        self.verbosity
    }

    /// Whether this logger shows messages of level `level`.
    pub open spec fn shows(&self, level: InfoLevel) -> bool {
        level.spec_rank() >= self.spec_verbosity().spec_rank()
    }

    /// What `log` hands back for a message.
    pub open spec fn logged(&self, level: InfoLevel, text: Seq<char>) -> Option<DisplayView> {
        if self.shows(level) {
            Some(display_of(level, text))
        } else {
            None
        }
    }

    /// A logger with the verbosity `Warning`.
    pub fn new() -> (logger: Logger)
        ensures
            logger.spec_verbosity() == InfoLevel::Warning,
    {
        Logger { verbosity: InfoLevel::Warning }
    }

    /// The verbosity.
    #[verifier::when_used_as_spec(spec_verbosity)]
    pub fn verbosity(&self) -> (v: InfoLevel)
        ensures
            v == self.spec_verbosity(),
    {
        self.verbosity
    }

    /// Sets the verbosity.
    pub fn set_verbosity(&mut self, verbosity: InfoLevel) -> (logger: &mut Logger)
        ensures
            logger.spec_verbosity() == verbosity,
            *final(self) == *final(logger),
    {
        self.verbosity = verbosity;
        self
    }

    /// What is shown for a message, whatever any verbosity.
    pub fn display_msg(level: InfoLevel, s: &str) -> (shown: Display)
        requires
            level.is_shown(),
        ensures
            shown@ == display_of(level, s@),
    {
        let (colour, head) = match level {
            InfoLevel::Debug => (Colour::BrightBlue, "Debug: "),
            InfoLevel::Warning => (Colour::BrightYellow, "Warning: "),
            InfoLevel::Info => (Colour::BrightGreen, "Info: "),
            _ => (Colour::BrightRed, "Error: "),
        };
        Display { colour, head: String::from_str(head), text: String::from_str(s) }
    }

    /// What is shown for a message of the lowest level.
    pub fn display_debug(s: &str) -> (shown: Display)
        ensures
            shown@ == display_of(InfoLevel::Debug, s@),
    {
        Self::display_msg(InfoLevel::Debug, s)
    }

    /// What is shown for a message that informs.
    pub fn display_info(s: &str) -> (shown: Display)
        ensures
            shown@ == display_of(InfoLevel::Info, s@),
    {
        Self::display_msg(InfoLevel::Info, s)
    }

    /// What is shown for a warning.
    pub fn display_warning(s: &str) -> (shown: Display)
        ensures
            shown@ == display_of(InfoLevel::Warning, s@),
    {
        Self::display_msg(InfoLevel::Warning, s)
    }

    /// What is shown for an error.
    pub fn display_error(s: &str) -> (shown: Display)
        ensures
            shown@ == display_of(InfoLevel::Error, s@),
    {
        Self::display_msg(InfoLevel::Error, s)
    }

    /// Decides on a message: what is shown for it where its level is at or
    /// above the verbosity, nothing otherwise.
    pub fn log(&self, level: InfoLevel, s: &str) -> (shown: Option<Display>)
        requires
            level.is_shown(),
        ensures
            shown is Some == self.shows(level),
            shown matches Some(d) ==> d@ == display_of(level, s@),
    {
        if level >= self.verbosity {
            Some(
                match level {
                    InfoLevel::Debug => Self::display_debug(s),
                    InfoLevel::Info => Self::display_info(s),
                    InfoLevel::Warning => Self::display_warning(s),
                    _ => Self::display_error(s),
                },
            )
        } else {
            None
        }
    }

    /// `log` at the lowest level.
    pub fn debug(&self, s: &str) -> (shown: Option<Display>)
        ensures
            shown is Some == self.shows(InfoLevel::Debug),
            shown matches Some(d) ==> d@ == display_of(InfoLevel::Debug, s@),
    {
        self.log(InfoLevel::Debug, s)
    }

    /// `log` at the level that informs.
    pub fn info(&self, s: &str) -> (shown: Option<Display>)
        ensures
            shown is Some == self.shows(InfoLevel::Info),
            shown matches Some(d) ==> d@ == display_of(InfoLevel::Info, s@),
    {
        self.log(InfoLevel::Info, s)
    }

    /// `log` at the level of warnings.
    pub fn warning(&self, s: &str) -> (shown: Option<Display>)
        ensures
            shown is Some == self.shows(InfoLevel::Warning),
            shown matches Some(d) ==> d@ == display_of(InfoLevel::Warning, s@),
    {
        self.log(InfoLevel::Warning, s)
    }

    /// `log` at the level of errors.
    pub fn error(&self, s: &str) -> (shown: Option<Display>)
        ensures
            shown is Some == self.shows(InfoLevel::Error),
            shown matches Some(d) ==> d@ == display_of(InfoLevel::Error, s@),
    {
        self.log(InfoLevel::Error, s)
    }
}

} // verus!
