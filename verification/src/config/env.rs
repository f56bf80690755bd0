//! Run arguments fetched from the environment.
//!
//! Reading the variables is left to the caller; this module names them and
//! turns their values into arguments.

use vstd::prelude::*;

use crate::cli::{binstall_choice_named, BinstallChoice, JettisonArgs, ShipArgs};
use crate::text::str_eq;

verus! {

/// Prefix of the variables for the `ship` command.
pub const SHIP_ENV_PREFIX: &'static str = "CARGO_LINER_SHIP_";

/// Prefix of the variables for the `jettison` command.
pub const JETTISON_ENV_PREFIX: &'static str = "CARGO_LINER_JETTISON_";

/// The name of the environment variable for a `ship` option.
pub fn ship_var_name(suffix: &str) -> (r: String)
    ensures
        r@ == "CARGO_LINER_SHIP_"@ + suffix@,
{
    let mut r = String::from_str(SHIP_ENV_PREFIX);
    r.append(suffix);
    r
}

/// The name of the environment variable for a `jettison` option.
pub fn jettison_var_name(suffix: &str) -> (r: String)
    ensures
        r@ == "CARGO_LINER_JETTISON_"@ + suffix@,
{
    let mut r = String::from_str(JETTISON_ENV_PREFIX);
    r.append(suffix);
    r
}

/// What the environment holds for a variable.
#[derive(Debug, PartialEq, Eq)]
pub enum EnvValue {
    /// The variable is not set.
    Absent,
    /// The variable is set to something that is not valid Unicode.
    NotUnicode,
    /// The variable is set to this text.
    Present(String),
}

/// Why a variable's value was refused.
#[derive(Clone, Copy, Debug, PartialEq, Eq, Structural)]
pub enum EnvErrorKind {
    /// Not valid Unicode.
    NotUnicode,
    /// Neither `true` nor `false`.
    NotBool,
    /// Not one of the choices' names.
    NotChoice,
}

/// A variable whose value was refused.
#[derive(Debug, PartialEq, Eq)]
pub struct EnvError {
    pub var_name: String,
    pub kind: EnvErrorKind,
}

/// `true` and `false`, exactly as `bool`'s `FromStr` reads them.
pub open spec fn bool_named(s: Seq<char>) -> Option<bool> {
    if s == "true"@ {
        Some(true)
    } else if s == "false"@ {
        Some(false)
    } else {
        None
    }
}

/// Reads `true` or `false`.
pub fn parse_bool(s: &str) -> (r: Option<bool>)
    ensures
        r == bool_named(s@),
{
    if str_eq(s, "true") {
        Some(true)
    } else if str_eq(s, "false") {
        proof {
            reveal_strlit("true");
            reveal_strlit("false");
        }
        Some(false)
    } else {
        None
    }
}

/// The flag that a variable sets: `Ok(None)` when unset.
pub open spec fn flag_from(v: EnvValue) -> Result<Option<bool>, EnvErrorKind> {
    match v {
        EnvValue::Absent => Ok(None),
        EnvValue::NotUnicode => Err(EnvErrorKind::NotUnicode),
        EnvValue::Present(s) => match bool_named(s@) {
            Some(b) => Ok(Some(b)),
            None => Err(EnvErrorKind::NotBool),
        },
    }
}

/// The choice that a variable sets: `Ok(None)` when unset.
pub open spec fn choice_from(v: EnvValue) -> Result<Option<BinstallChoice>, EnvErrorKind> {
    match v {
        EnvValue::Absent => Ok(None),
        EnvValue::NotUnicode => Err(EnvErrorKind::NotUnicode),
        EnvValue::Present(s) => match binstall_choice_named(s@) {
            Some(c) => Ok(Some(c)),
            None => Err(EnvErrorKind::NotChoice),
        },
    }
}

/// Reads a flag from a variable's value.
pub fn flag_value(var_name: String, value: EnvValue) -> (r: Result<Option<bool>, EnvError>)
    ensures
        r matches Ok(f) ==> flag_from(value) == Ok::<Option<bool>, EnvErrorKind>(f),
        r matches Err(e) ==> flag_from(value) == Err::<Option<bool>, EnvErrorKind>(e.kind)
            && e.var_name@ == var_name@,
{
    match value {
        EnvValue::Absent => Ok(None),
        EnvValue::NotUnicode => Err(EnvError { var_name, kind: EnvErrorKind::NotUnicode }),
        EnvValue::Present(s) => match parse_bool(s.as_str()) {
            Some(b) => Ok(Some(b)),
            None => Err(EnvError { var_name, kind: EnvErrorKind::NotBool }),
        },
    }
}

/// Reads a `binstall` choice from a variable's value.
pub fn choice_value(var_name: String, value: EnvValue) -> (r: Result<
    Option<BinstallChoice>,
    EnvError,
>)
    ensures
        r matches Ok(c) ==> choice_from(value) == Ok::<Option<BinstallChoice>, EnvErrorKind>(c),
        r matches Err(e) ==> choice_from(value) == Err::<Option<BinstallChoice>, EnvErrorKind>(
            e.kind,
        ) && e.var_name@ == var_name@,
{
    match value {
        EnvValue::Absent => Ok(None),
        EnvValue::NotUnicode => Err(EnvError { var_name, kind: EnvErrorKind::NotUnicode }),
        EnvValue::Present(s) => match BinstallChoice::from_str(s.as_str()) {
            Ok(c) => Ok(Some(c)),
            Err(_) => Err(EnvError { var_name, kind: EnvErrorKind::NotChoice }),
        },
    }
}

/// The values of the `ship` variables, as read from the environment.
#[derive(Debug, PartialEq, Eq)]
pub struct ShipEnvValues {
    pub no_self: EnvValue,
    pub only_self: EnvValue,
    pub skip_check: EnvValue,
    pub no_fail_fast: EnvValue,
    pub force: EnvValue,
    pub dry_run: EnvValue,
    pub binstall: EnvValue,
}

/// Suffixes of the `ship` variables, in the order in which they are read.
pub open spec fn ship_suffixes() -> Seq<Seq<char>> {
    seq![
        "NO_SELF"@,
        "ONLY_SELF"@,
        "SKIP_CHECK"@,
        "NO_FAIL_FAST"@,
        "FORCE"@,
        "DRY_RUN"@,
        "BINSTALL"@,
    ]
}

/// Whether every `ship` variable holds an acceptable value.
pub open spec fn ship_env_valid(v: ShipEnvValues) -> bool {
    &&& flag_from(v.no_self) is Ok
    &&& flag_from(v.only_self) is Ok
    &&& flag_from(v.skip_check) is Ok
    &&& flag_from(v.no_fail_fast) is Ok
    &&& flag_from(v.force) is Ok
    &&& flag_from(v.dry_run) is Ok
    &&& choice_from(v.binstall) is Ok
}

/// The suffix of the first `ship` variable, in reading order, that holds an
/// unacceptable value.
pub open spec fn first_bad_ship_suffix(v: ShipEnvValues) -> Seq<char> {
    if flag_from(v.no_self) is Err {
        "NO_SELF"@
    } else if flag_from(v.only_self) is Err {
        "ONLY_SELF"@
    } else if flag_from(v.skip_check) is Err {
        "SKIP_CHECK"@
    } else if flag_from(v.no_fail_fast) is Err {
        "NO_FAIL_FAST"@
    } else if flag_from(v.force) is Err {
        "FORCE"@
    } else if flag_from(v.dry_run) is Err {
        "DRY_RUN"@
    } else {
        "BINSTALL"@
    }
}

/// Returns the [`ShipArgs`] that the environment sets, or the first variable
/// (in the order of [`ship_suffixes`]) whose value is refused.
pub fn ship_env_args(values: ShipEnvValues) -> (r: Result<ShipArgs, EnvError>)
    ensures
        r is Ok <==> ship_env_valid(values),
        r matches Ok(a) ==> {
            &&& Ok::<Option<bool>, EnvErrorKind>(a.no_self) == flag_from(values.no_self)
            &&& Ok::<Option<bool>, EnvErrorKind>(a.only_self) == flag_from(values.only_self)
            &&& Ok::<Option<bool>, EnvErrorKind>(a.skip_check) == flag_from(values.skip_check)
            &&& Ok::<Option<bool>, EnvErrorKind>(a.no_fail_fast) == flag_from(
                values.no_fail_fast,
            )
            &&& Ok::<Option<bool>, EnvErrorKind>(a.force) == flag_from(values.force)
            &&& Ok::<Option<bool>, EnvErrorKind>(a.dry_run) == flag_from(values.dry_run)
            &&& Ok::<Option<BinstallChoice>, EnvErrorKind>(a.binstall) == choice_from(
                values.binstall,
            )
        },
        r matches Err(e) ==> e.var_name@ == "CARGO_LINER_SHIP_"@ + first_bad_ship_suffix(values),
{
    let ShipEnvValues { no_self, only_self, skip_check, no_fail_fast, force, dry_run, binstall } =
        values;
    let no_self = flag_value(ship_var_name("NO_SELF"), no_self)?;
    let only_self = flag_value(ship_var_name("ONLY_SELF"), only_self)?;
    let skip_check = flag_value(ship_var_name("SKIP_CHECK"), skip_check)?;
    let no_fail_fast = flag_value(ship_var_name("NO_FAIL_FAST"), no_fail_fast)?;
    let force = flag_value(ship_var_name("FORCE"), force)?;
    let dry_run = flag_value(ship_var_name("DRY_RUN"), dry_run)?;
    let binstall = choice_value(ship_var_name("BINSTALL"), binstall)?;
    Ok(ShipArgs { no_self, only_self, skip_check, no_fail_fast, force, dry_run, binstall })
}

/// The values of the `jettison` variables, as read from the environment.
#[derive(Debug, PartialEq, Eq)]
pub struct JettisonEnvValues {
    pub no_confirm: EnvValue,
    pub no_fail_fast: EnvValue,
    pub dry_run: EnvValue,
}

/// Suffixes of the `jettison` variables, in the order in which they are read.
pub open spec fn jettison_suffixes() -> Seq<Seq<char>> {
    seq!["NO_CONFIRM"@, "NO_FAIL_FAST"@, "DRY_RUN"@]
}

/// Returns the [`JettisonArgs`] that the environment sets, or the first
/// variable (in the order of [`jettison_suffixes`]) whose value is refused.
pub fn jettison_env_args(values: JettisonEnvValues) -> (r: Result<JettisonArgs, EnvError>)
    ensures
        r is Ok <==> (flag_from(values.no_confirm) is Ok && flag_from(values.no_fail_fast) is Ok
            && flag_from(values.dry_run) is Ok),
        r matches Ok(a) ==> {
            &&& Ok::<Option<bool>, EnvErrorKind>(a.no_confirm) == flag_from(values.no_confirm)
            &&& Ok::<Option<bool>, EnvErrorKind>(a.no_fail_fast) == flag_from(
                values.no_fail_fast,
            )
            &&& Ok::<Option<bool>, EnvErrorKind>(a.dry_run) == flag_from(values.dry_run)
        },
        r matches Err(e) ==> e.var_name@ == "CARGO_LINER_JETTISON_"@ + if flag_from(
            values.no_confirm,
        ) is Err {
            "NO_CONFIRM"@
        } else if flag_from(values.no_fail_fast) is Err {
            "NO_FAIL_FAST"@
        } else {
            "DRY_RUN"@
        },
{
    let JettisonEnvValues { no_confirm, no_fail_fast, dry_run } = values;
    let no_confirm = flag_value(jettison_var_name("NO_CONFIRM"), no_confirm)?;
    let no_fail_fast = flag_value(jettison_var_name("NO_FAIL_FAST"), no_fail_fast)?;
    let dry_run = flag_value(jettison_var_name("DRY_RUN"), dry_run)?;
    Ok(JettisonArgs { no_confirm, no_fail_fast, dry_run })
}

} // verus!
