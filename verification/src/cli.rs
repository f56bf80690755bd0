//! The command-line arguments, as plain values, and what they mean.

use vstd::prelude::*;

use crate::text::str_eq;

verus! {

/// When to color the output.
#[derive(Clone, Copy, Debug, PartialEq, Eq, Structural)]
pub enum ColorChoice {
    Auto,
    Always,
    Never,
}

/// The name of a color choice, as given on the command line and to Cargo.
pub open spec fn color_choice_name(c: ColorChoice) -> Seq<char> {
    match c {
        ColorChoice::Auto => "auto"@,
        ColorChoice::Always => "always"@,
        ColorChoice::Never => "never"@,
    }
}

impl ColorChoice {
    /// The name of the choice: `auto`, `always` or `never`.
    pub fn as_str(&self) -> (r: &'static str)
        ensures
            r@ == color_choice_name(*self),
    {
        proof {
            reveal_strlit("auto");
            reveal_strlit("always");
            reveal_strlit("never");
        }
        match self {
            ColorChoice::Auto => "auto",
            ColorChoice::Always => "always",
            ColorChoice::Never => "never",
        }
    }
}

/// Choices for [`ShipArgs::binstall`].
#[derive(Clone, Copy, Debug, PartialEq, Eq, Structural)]
pub enum BinstallChoice {
    /// The tool is heuristically detected and used if available.
    Auto,
    /// Always attempt to use it without trying to detect it first.
    Always,
    /// Completely disable the feature and only rely on Cargo.
    Never,
}

/// The choice that a text names, if any: the names are matched exactly.
pub open spec fn binstall_choice_named(s: Seq<char>) -> Option<BinstallChoice> {
    if s == "auto"@ {
        Some(BinstallChoice::Auto)
    } else if s == "always"@ {
        Some(BinstallChoice::Always)
    } else if s == "never"@ {
        Some(BinstallChoice::Never)
    } else {
        None
    }
}

proof fn lemma_choice_names_distinct()
    ensures
        "auto"@ != "always"@,
        "auto"@ != "never"@,
        "always"@ != "never"@,
{
    reveal_strlit("auto");
    reveal_strlit("always");
    reveal_strlit("never");
    assert("auto"@.len() != "always"@.len());
    assert("auto"@[0] != "never"@[0]);
    assert("always"@.len() != "never"@.len());
}

/// A text that names no [`BinstallChoice`].
#[derive(Debug, PartialEq, Eq)]
pub struct InvalidVariant {
    pub input: String,
}

impl BinstallChoice {
    /// The default choice: [`BinstallChoice::Auto`].
    pub fn default_choice() -> (r: BinstallChoice)
        ensures
            r == BinstallChoice::Auto,
    {
        BinstallChoice::Auto
    }

    /// Parses `auto`, `always` or `never`.
    pub fn from_str(s: &str) -> (r: Result<BinstallChoice, InvalidVariant>)
        ensures
            r matches Ok(c) ==> binstall_choice_named(s@) == Some(c),
            r matches Err(e) ==> binstall_choice_named(s@) is None && e.input@ == s@,
    {
        proof {
            reveal_strlit("auto");
            reveal_strlit("always");
            reveal_strlit("never");
        }
        proof {
            lemma_choice_names_distinct();
        }
        if str_eq(s, "auto") {
            Ok(BinstallChoice::Auto)
        } else if str_eq(s, "always") {
            Ok(BinstallChoice::Always)
        } else if str_eq(s, "never") {
            Ok(BinstallChoice::Never)
        } else {
            Err(InvalidVariant { input: String::from_str(s) })
        }
    }

    /// The name of the choice.
    pub fn as_str(&self) -> (r: &'static str)
        ensures
            binstall_choice_named(r@) == Some(*self),
    {
        proof {
            lemma_choice_names_distinct();
            reveal_strlit("auto");
            reveal_strlit("always");
            reveal_strlit("never");
        }
        match self {
            BinstallChoice::Auto => "auto",
            BinstallChoice::Always => "always",
            BinstallChoice::Never => "never",
        }
    }
}

/// Arguments for the `ship` subcommand; `None` means "not given here".
#[derive(Clone, Copy, Debug, PartialEq, Eq, Structural)]
pub struct ShipArgs {
    pub no_self: Option<bool>,
    pub only_self: Option<bool>,
    pub skip_check: Option<bool>,
    pub no_fail_fast: Option<bool>,
    pub force: Option<bool>,
    pub dry_run: Option<bool>,
    pub binstall: Option<BinstallChoice>,
}

impl Default for ShipArgs {
    fn default() -> (r: ShipArgs)
        ensures
            r == (ShipArgs {
                no_self: None,
                only_self: None,
                skip_check: None,
                no_fail_fast: None,
                force: None,
                dry_run: None,
                binstall: None,
            }),
    {
        ShipArgs {
            no_self: None,
            only_self: None,
            skip_check: None,
            no_fail_fast: None,
            force: None,
            dry_run: None,
            binstall: None,
        }
    }
}

/// [`ShipArgs`] as read from the command line, where each flag may be
/// negated.
#[derive(Clone, Copy, Debug, PartialEq, Eq, Structural)]
pub struct ShipArgsWithNegations {
    pub inner: ShipArgs,
}

impl ShipArgsWithNegations {
    /// Returns a reference to the wrapped [`ShipArgs`].
    pub fn as_ref(&self) -> (r: &ShipArgs)
        ensures
            *r == self.inner,
    {
        &self.inner
    }
}

/// Arguments for the `jettison` subcommand; `None` means "not given here".
#[derive(Clone, Copy, Debug, PartialEq, Eq, Structural)]
pub struct JettisonArgs {
    pub no_confirm: Option<bool>,
    pub no_fail_fast: Option<bool>,
    pub dry_run: Option<bool>,
}

impl Default for JettisonArgs {
    fn default() -> (r: JettisonArgs)
        ensures
            r == (JettisonArgs { no_confirm: None, no_fail_fast: None, dry_run: None }),
    {
        JettisonArgs { no_confirm: None, no_fail_fast: None, dry_run: None }
    }
}

/// [`JettisonArgs`] as read from the command line, where each flag may be
/// negated.
#[derive(Clone, Copy, Debug, PartialEq, Eq, Structural)]
pub struct JettisonArgsWithNegations {
    pub inner: JettisonArgs,
}

impl JettisonArgsWithNegations {
    /// Returns a reference to the wrapped [`JettisonArgs`].
    pub fn as_ref(&self) -> (r: &JettisonArgs)
        ensures
            *r == self.inner,
    {
        &self.inner
    }
}

/// Arguments for the `import` subcommand.
#[derive(Clone, Copy, Debug, PartialEq, Eq, Structural)]
pub struct ImportArgs {
    pub exact: bool,
    pub compatible: bool,
    pub patch: bool,
    pub force: bool,
    pub keep_self: bool,
    pub keep_local: bool,
}

/// Shells for which completions can be generated.
#[derive(Clone, Copy, Debug, PartialEq, Eq, Structural)]
pub enum Shell {
    Bash,
    Elvish,
    Fish,
    PowerShell,
    Zsh,
}

/// Arguments for the `completions` subcommand.
#[derive(Clone, Copy, Debug, PartialEq, Eq, Structural)]
pub struct CompletionsArgs {
    pub shell: Shell,
}

/// Subcommands for the main CLI.
#[derive(Clone, Copy, Debug, PartialEq, Eq, Structural)]
pub enum LinerCommands {
    Ship(ShipArgsWithNegations),
    Jettison(JettisonArgsWithNegations),
    Import(ImportArgs),
    Completions(CompletionsArgs),
}

/// The arguments of a `cargo liner` call.
#[derive(Clone, Copy, Debug, PartialEq, Eq, Structural)]
pub struct LinerArgs {
    pub command: Option<LinerCommands>,
    pub verbose: u8,
    pub quiet: u8,
    pub color: ColorChoice,
}

/// `x` capped at `i8::MAX`.
pub open spec fn saturate(x: u8) -> int {
    if x > 127 {
        127
    } else {
        x as int
    }
}

/// The verbosity level: positive for `-v`s, negative for `-q`s, zero for
/// neither; the count is capped at 127.
pub open spec fn verbosity_of(verbose: u8, quiet: u8) -> int {
    if verbose > 0 {
        saturate(verbose)
    } else {
        -saturate(quiet)
    }
}

impl LinerArgs {
    /// Returns the requested verbosity level as a number.
    ///
    ///  * Zero means no option was provided: use the default.
    ///  * Positive numbers mean increased verbosity: `-vvv...`.
    ///  * Negative numbers mean decreased verbosity: `-qqq...`.
    pub fn verbosity(&self) -> (r: i8)
        ensures
            r == verbosity_of(self.verbose, self.quiet),
    {
        if self.verbose > 0 {
            Self::u8_to_i8_saturating(self.verbose)
        } else {
            -Self::u8_to_i8_saturating(self.quiet)
        }
    }

    /// Converts the given `u8` to an `i8` by capping it to the max first.
    pub fn u8_to_i8_saturating(x: u8) -> (r: i8)
        ensures
            r == saturate(x),
    {
        if x > 127 {
            127
        } else {
            x as i8
        }
    }
}

} // verus!
