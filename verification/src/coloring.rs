//! When output is colored, and the icons that reports show.

use vstd::prelude::*;

use crate::cli::ColorChoice;

verus! {

/// Icons shown in reports.
#[derive(Clone, Copy, Debug, PartialEq, Eq, Structural)]
pub enum Icon {
    /// Nothing to display or to do: already up-to-date.
    Nothing,
    /// Could not be determined, such as a new version not checked for.
    Unknown,
    /// Something is to be done: installation or update of a package.
    Todo,
    /// Something was newly added: new installation of a package.
    New,
    /// Something failed.
    Failure,
    /// Things went right: up-to-date or successful update.
    Done,
}

/// The character of an icon.
pub open spec fn icon_text(icon: Icon) -> Seq<char> {
    match icon {
        Icon::Nothing => "\u{f8}"@,
        Icon::Unknown => "?"@,
        Icon::Todo => "\u{1f6c8}"@,
        Icon::New => "+"@,
        Icon::Failure => "\u{2718}"@,
        Icon::Done => "\u{2714}"@,
    }
}

impl Icon {
    /// The character of the icon.
    pub fn as_str(&self) -> (r: &'static str)
        ensures
            r@ == icon_text(*self),
    {
        match self {
            Icon::Nothing => "\u{f8}",
            Icon::Unknown => "?",
            Icon::Todo => "\u{1f6c8}",
            Icon::New => "+",
            Icon::Failure => "\u{2718}",
            Icon::Done => "\u{2714}",
        }
    }
}

/// An icon, and whether it is shown in color.
#[derive(Clone, Copy, Debug, PartialEq, Eq, Structural)]
pub struct StyledIcon {
    pub icon: Icon,
    pub colored: bool,
}

/// Assembles both an output stream's color capacity and a color preference in
/// order to conditionally emit colorized content.
#[derive(Clone, Copy, Debug, PartialEq, Eq, Structural)]
pub struct Colorizer {
    is_terminal: bool,
    color_choice: ColorChoice,
}

/// Whether output is colored: always or never as chosen, and in automatic
/// mode when it goes to a terminal.
pub open spec fn colors(is_terminal: bool, choice: ColorChoice) -> bool {
    match choice {
        ColorChoice::Never => false,
        ColorChoice::Always => true,
        ColorChoice::Auto => is_terminal,
    }
}

impl Colorizer {
    /// Builds a new colorizer for an output that is a terminal or not.
    pub fn new(is_terminal: bool, color_choice: ColorChoice) -> (r: Self)
        ensures
            r.spec_colors() == colors(is_terminal, color_choice),
            r.spec_choice() == color_choice,
    {
        Colorizer { is_terminal, color_choice }
    }

    pub closed spec fn spec_colors(self) -> bool {
        colors(self.is_terminal, self.color_choice)
    }

    pub closed spec fn spec_choice(self) -> ColorChoice {
        self.color_choice
    }

    /// The color preference.
    pub fn color(&self) -> (r: &ColorChoice)
        ensures
            *r == self.spec_choice(),
    {
        &self.color_choice
    }

    /// Whether colored output is emitted.
    pub fn colorizes(&self) -> (r: bool)
        ensures
            r == self.spec_colors(),
    {
        match self.color_choice {
            ColorChoice::Never => false,
            ColorChoice::Always => true,
            ColorChoice::Auto => self.is_terminal,
        }
    }

    fn styled(&self, icon: Icon) -> (r: StyledIcon)
        ensures
            r.icon == icon,
            r.colored == self.spec_colors(),
    {
        StyledIcon { icon, colored: self.colorizes() }
    }

    /// The icon for nothing to do, never colored.
    pub fn none_icon(&self) -> (r: StyledIcon)
        ensures
            r.icon == Icon::Nothing,
            !r.colored,
    {
        StyledIcon { icon: Icon::Nothing, colored: false }
    }

    /// The icon for what is unknown.
    pub fn unknown_icon(&self) -> (r: StyledIcon)
        ensures
            r.icon == Icon::Unknown,
            r.colored == self.spec_colors(),
    {
        self.styled(Icon::Unknown)
    }

    /// The icon for what is to be done.
    pub fn todo_icon(&self) -> (r: StyledIcon)
        ensures
            r.icon == Icon::Todo,
            r.colored == self.spec_colors(),
    {
        self.styled(Icon::Todo)
    }

    /// The icon for what is new.
    pub fn new_icon(&self) -> (r: StyledIcon)
        ensures
            r.icon == Icon::New,
            r.colored == self.spec_colors(),
    {
        self.styled(Icon::New)
    }

    /// The icon for what failed.
    pub fn err_icon(&self) -> (r: StyledIcon)
        ensures
            r.icon == Icon::Failure,
            r.colored == self.spec_colors(),
    {
        self.styled(Icon::Failure)
    }

    /// The icon for what went right.
    pub fn ok_icon(&self) -> (r: StyledIcon)
        ensures
            r.icon == Icon::Done,
            r.colored == self.spec_colors(),
    {
        self.styled(Icon::Done)
    }
}

} // verus!
