//! The calls to Cargo: what is passed to each, and what is read back.
//!
//! Running the processes is left to the caller; this module builds their
//! arguments, decides between `cargo install` and `cargo binstall`, reads
//! their output and keeps the installation report.

use vstd::prelude::*;

use crate::args::{
    flag_if, join, join_strings, opt_arg, push_all, push_arg, push_flag_if, push_opt,
    push_repeat, repeat_arg, strs,
};
use crate::cli::{color_choice_name, BinstallChoice, ColorChoice};
use crate::config::package::DetailedPackageReq;
use crate::levels::{binstall_log_level, cargo_verbosity, spec_binstall_log_level, spec_cargo_verbosity};
use crate::string_map::StringMap;
use crate::text::{trim_end, trim_end_char, trim_end_matches, trim_end_ws, trim_start_char, trim_start_matches};
use crate::version::{semver_parse, SemVer};

verus! {

/// The verbosity arguments for Cargo: `-v` repeated, `-q`, or nothing.
pub open spec fn verbosity_args(verbosity: int) -> Seq<Seq<char>> {
    if verbosity > 0 {
        seq![seq!['-'] + Seq::new(verbosity as nat, |i: int| 'v')]
    } else if verbosity < 0 {
        seq!["-q"@]
    } else {
        Seq::empty()
    }
}

fn push_verbosity(out: &mut Vec<String>, verbosity: i8)
    ensures
        strs(final(out)@) == strs(old(out)@) + verbosity_args(verbosity as int),
{
    if verbosity > 0 {
        let mut opt = String::from_str("-");
        let mut i: i8 = 0;
        proof {
            reveal_strlit("-");
        }
        while i < verbosity
            invariant
                0 <= i <= verbosity,
                opt@ == seq!['-'] + Seq::new(i as nat, |j: int| 'v'),
            decreases verbosity - i,
        {
            opt.append("v");
            proof {
                reveal_strlit("v");
            }
            i = i + 1;
            assert(opt@ =~= seq!['-'] + Seq::new(i as nat, |j: int| 'v'));
        }
        push_arg(out, opt.as_str());
    } else if verbosity < 0 {
        push_arg(out, "-q");
    }
    assert(strs(out@) =~= strs(old(out)@) + verbosity_args(verbosity as int));
}

/// The start of `cargo install`'s arguments: color, verbosity, version.
pub open spec fn install_head(req: DetailedPackageReq, color: ColorChoice, verbosity: int) -> Seq<Seq<char>> {
    seq!["--color"@, color_choice_name(color)] + verbosity_args(verbosity) + seq![
        "install"@,
        "--version"@,
        req.version@,
    ]
}

/// The feature selection of `cargo install`'s arguments.
pub open spec fn install_features(req: DetailedPackageReq) -> Seq<Seq<char>> {
    flag_if(!req.default_features, "--no-default-features"@) + flag_if(
        req.all_features,
        "--all-features"@,
    ) + (if req.features@.len() > 0 {
        seq!["--features"@, join(strs(req.features@), ","@)]
    } else {
        Seq::empty()
    })
}

/// Where `cargo install` takes the package from.
pub open spec fn install_sources(req: DetailedPackageReq) -> Seq<Seq<char>> {
    opt_arg("--index"@, req.index) + opt_arg("--registry"@, req.registry) + opt_arg(
        "--git"@,
        req.git,
    ) + opt_arg("--branch"@, req.branch) + opt_arg("--tag"@, req.tag) + opt_arg(
        "--rev"@,
        req.rev,
    ) + opt_arg("--path"@, req.path)
}

/// The binary and example targets of `cargo install`'s arguments.
pub open spec fn install_bins(req: DetailedPackageReq) -> Seq<Seq<char>> {
    repeat_arg("--bin"@, strs(req.bins@)) + flag_if(req.all_bins, "--bins"@) + repeat_arg(
        "--example"@,
        strs(req.examples@),
    ) + flag_if(req.all_examples, "--examples"@)
}

/// The build flags of `cargo install`'s arguments.
pub open spec fn install_flags(req: DetailedPackageReq, force: bool) -> Seq<Seq<char>> {
    flag_if(req.ignore_rust_version, "--ignore-rust-version"@) + flag_if(force, "--force"@)
        + flag_if(req.frozen, "--frozen"@) + flag_if(req.locked, "--locked"@) + flag_if(
        req.offline,
        "--offline"@,
    )
}

/// The targets and build flags of `cargo install`'s arguments.
pub open spec fn install_targets(req: DetailedPackageReq, force: bool) -> Seq<Seq<char>> {
    install_bins(req) + install_flags(req, force)
}

/// The arguments of `cargo install` for a package, after the program name:
/// the extra arguments come after every option set here, and the package
/// name last, after `--`.
pub open spec fn spec_install_args(
    pkg_name: Seq<char>,
    req: DetailedPackageReq,
    force: bool,
    color: ColorChoice,
    verbosity: int,
) -> Seq<Seq<char>> {
    install_head(req, color, verbosity) + install_features(req) + install_sources(req)
        + install_targets(req, force) + strs(req.extra_arguments@) + seq!["--"@, pkg_name]
}

fn push_install_head(out: &mut Vec<String>, pkg_req: &DetailedPackageReq, color: ColorChoice, verbosity: i8)
    ensures
        strs(final(out)@) == strs(old(out)@) + install_head(*pkg_req, color, verbosity as int),
{
    push_arg(out, "--color");
    push_arg(out, color.as_str());
    push_verbosity(out, verbosity);
    push_arg(out, "install");
    push_arg(out, "--version");
    push_arg(out, pkg_req.version.as_str());
    assert(strs(out@) =~= strs(old(out)@) + install_head(*pkg_req, color, verbosity as int));
}

fn push_install_features(out: &mut Vec<String>, pkg_req: &DetailedPackageReq)
    ensures
        strs(final(out)@) == strs(old(out)@) + install_features(*pkg_req),
{
    push_flag_if(out, !pkg_req.default_features, "--no-default-features");
    push_flag_if(out, pkg_req.all_features, "--all-features");
    if pkg_req.features.len() > 0 {
        push_arg(out, "--features");
        let joined = join_strings(&pkg_req.features, ",");
        push_arg(out, joined.as_str());
    }
    assert(strs(out@) =~= strs(old(out)@) + install_features(*pkg_req));
}

fn push_install_sources(out: &mut Vec<String>, pkg_req: &DetailedPackageReq)
    ensures
        strs(final(out)@) == strs(old(out)@) + install_sources(*pkg_req),
{
    push_opt(out, "--index", &pkg_req.index);
    push_opt(out, "--registry", &pkg_req.registry);
    push_opt(out, "--git", &pkg_req.git);
    push_opt(out, "--branch", &pkg_req.branch);
    push_opt(out, "--tag", &pkg_req.tag);
    push_opt(out, "--rev", &pkg_req.rev);
    push_opt(out, "--path", &pkg_req.path);
    assert(strs(out@) =~= strs(old(out)@) + install_sources(*pkg_req));
}

fn push_install_bins(out: &mut Vec<String>, pkg_req: &DetailedPackageReq)
    ensures
        strs(final(out)@) == strs(old(out)@) + install_bins(*pkg_req),
{
    push_repeat(out, "--bin", &pkg_req.bins);
    push_flag_if(out, pkg_req.all_bins, "--bins");
    push_repeat(out, "--example", &pkg_req.examples);
    push_flag_if(out, pkg_req.all_examples, "--examples");
    assert(strs(out@) =~= strs(old(out)@) + install_bins(*pkg_req));
}

fn push_install_targets(out: &mut Vec<String>, pkg_req: &DetailedPackageReq, force: bool)
    ensures
        strs(final(out)@) == strs(old(out)@) + install_targets(*pkg_req, force),
{
    push_install_bins(out, pkg_req);
    let ghost mid = strs(out@);
    push_flag_if(out, pkg_req.ignore_rust_version, "--ignore-rust-version");
    push_flag_if(out, force, "--force");
    push_flag_if(out, pkg_req.frozen, "--frozen");
    push_flag_if(out, pkg_req.locked, "--locked");
    push_flag_if(out, pkg_req.offline, "--offline");
    assert(strs(out@) =~= mid + install_flags(*pkg_req, force));
    assert(strs(out@) =~= strs(old(out)@) + install_targets(*pkg_req, force));
}

/// Arguments of `cargo install` for the given package, after the program
/// name; the package's environment is set apart. `verbosity` is the level
/// handed to Cargo (see [`crate::levels::cargo_verbosity`]).
pub fn install_args(
    pkg_name: &str,
    pkg_req: &DetailedPackageReq,
    force: bool,
    color: ColorChoice,
    verbosity: i8,
) -> (r: Vec<String>)
    ensures
        strs(r@) == spec_install_args(pkg_name@, *pkg_req, force, color, verbosity as int),
{
    let mut out: Vec<String> = Vec::new();
    assert(strs(out@) =~= Seq::<Seq<char>>::empty());
    push_install_head(&mut out, pkg_req, color, verbosity);
    push_install_features(&mut out, pkg_req);
    push_install_sources(&mut out, pkg_req);
    push_install_targets(&mut out, pkg_req, force);
    push_all(&mut out, &pkg_req.extra_arguments);
    push_arg(&mut out, "--");
    push_arg(&mut out, pkg_name);
    assert(strs(out@) =~= spec_install_args(pkg_name@, *pkg_req, force, color, verbosity as int));
    out
}

/// The arguments of `cargo binstall` for a package, after the program name.
pub open spec fn spec_binstall_args(
    pkg_name: Seq<char>,
    req: DetailedPackageReq,
    force: bool,
    dry_run: bool,
    verbosity: int,
) -> Seq<Seq<char>> {
    seq![
        "binstall"@,
        "--disable-telemetry"@,
        "--no-confirm"@,
        "--log-level"@,
        spec_binstall_log_level(verbosity),
        "--version"@,
        req.version@,
    ] + opt_arg("--index"@, req.index) + opt_arg("--registry"@, req.registry) + opt_arg(
        "--git"@,
        req.git,
    ) + flag_if(force, "--force"@) + flag_if(dry_run, "--dry-run"@) + flag_if(
        req.locked,
        "--locked"@,
    ) + strs(req.extra_arguments@) + seq!["--"@, pkg_name]
}

/// Arguments of `cargo binstall` for the given package, after the program
/// name; the package's environment is set apart. `verbosity` is the user's
/// level (as `LinerArgs::verbosity` gives it), from which the `--log-level`
/// is chosen.
pub fn binstall_args(
    pkg_name: &str,
    pkg_req: &DetailedPackageReq,
    force: bool,
    dry_run: bool,
    verbosity: i8,
) -> (r: Vec<String>)
    ensures
        strs(r@) == spec_binstall_args(pkg_name@, *pkg_req, force, dry_run, verbosity as int),
{
    let mut out: Vec<String> = Vec::new();
    assert(strs(out@) =~= Seq::<Seq<char>>::empty());
    push_arg(&mut out, "binstall");
    push_arg(&mut out, "--disable-telemetry");
    push_arg(&mut out, "--no-confirm");
    push_arg(&mut out, "--log-level");
    push_arg(&mut out, binstall_log_level(verbosity));
    push_arg(&mut out, "--version");
    push_arg(&mut out, pkg_req.version.as_str());
    push_opt(&mut out, "--index", &pkg_req.index);
    push_opt(&mut out, "--registry", &pkg_req.registry);
    push_opt(&mut out, "--git", &pkg_req.git);
    push_flag_if(&mut out, force, "--force");
    push_flag_if(&mut out, dry_run, "--dry-run");
    push_flag_if(&mut out, pkg_req.locked, "--locked");
    push_all(&mut out, &pkg_req.extra_arguments);
    push_arg(&mut out, "--");
    push_arg(&mut out, pkg_name);
    assert(strs(out@) =~= spec_binstall_args(pkg_name@, *pkg_req, force, dry_run, verbosity as int));
    out
}

/// The arguments of `cargo search` for a package, after the program name;
/// under test, the search goes to the test registry.
pub open spec fn spec_search_args(pkg: Seq<char>, is_test: bool) -> Seq<Seq<char>> {
    seq!["--color=never"@, "search"@] + flag_if(is_test, "--registry=dummy-registry"@) + seq![
        "--limit=1"@,
        "--"@,
        pkg,
    ]
}

/// Arguments of `cargo search` for one package.
pub fn search_args(pkg: &str, is_test: bool) -> (r: Vec<String>)
    ensures
        strs(r@) == spec_search_args(pkg@, is_test),
{
    let mut out: Vec<String> = Vec::new();
    assert(strs(out@) =~= Seq::<Seq<char>>::empty());
    push_arg(&mut out, "--color=never");
    push_arg(&mut out, "search");
    push_flag_if(&mut out, is_test, "--registry=dummy-registry");
    push_arg(&mut out, "--limit=1");
    push_arg(&mut out, "--");
    push_arg(&mut out, pkg);
    assert(strs(out@) =~= spec_search_args(pkg@, is_test));
    out
}

/// Arguments of `cargo config get` for a key, as a JSON value; the caller
/// sets `RUSTC_BOOTSTRAP=1` for the unstable command.
pub fn config_get_args(key: &str) -> (r: Vec<String>)
    ensures
        strs(r@) == seq![
            "--color=never"@,
            "-Zunstable-options"@,
            "config"@,
            "get"@,
            "--format=json-value"@,
            "--"@,
            key@,
        ],
{
    let mut out: Vec<String> = Vec::new();
    assert(strs(out@) =~= Seq::<Seq<char>>::empty());
    push_arg(&mut out, "--color=never");
    push_arg(&mut out, "-Zunstable-options");
    push_arg(&mut out, "config");
    push_arg(&mut out, "get");
    push_arg(&mut out, "--format=json-value");
    push_arg(&mut out, "--");
    push_arg(&mut out, key);
    out
}

/// The value that `cargo config get` printed: without trailing white space
/// and without the quotes around a string.
pub open spec fn spec_config_value(stdout: Seq<char>) -> Seq<char> {
    trim_end_char(trim_start_char(trim_end_ws(stdout), '"'), '"')
}

/// Reads the value printed by `cargo config get`.
pub fn config_get_value(stdout: &str) -> (r: String)
    ensures
        r@ == spec_config_value(stdout@),
{
    let trimmed = trim_end(stdout);
    let opened = trim_start_matches(trimmed.as_str(), '"');
    trim_end_matches(opened.as_str(), '"')
}

/// Arguments that ask `cargo-binstall` for its version.
pub fn binstall_version_args() -> (r: Vec<String>)
    ensures
        strs(r@) == seq!["binstall"@, "-V"@],
{
    let mut out: Vec<String> = Vec::new();
    assert(strs(out@) =~= Seq::<Seq<char>>::empty());
    push_arg(&mut out, "binstall");
    push_arg(&mut out, "-V");
    out
}

/// Reads the version that `cargo binstall -V` printed.
pub fn binstall_version_from_output(stdout: &str) -> (r: Option<SemVer>)
    ensures
        r matches Some(v) ==> semver_parse(trim_end_ws(stdout@)) == Some(v@),
        r is None ==> semver_parse(trim_end_ws(stdout@)) is None,
{
    let trimmed = trim_end(stdout);
    SemVer::parse(trimmed.as_str())
}

/// The arguments of `cargo uninstall` for a package, after the program name.
pub open spec fn spec_uninstall_args(pkg_name: Seq<char>, color: ColorChoice, verbosity: int) -> Seq<
    Seq<char>,
> {
    seq!["--color"@, color_choice_name(color)] + verbosity_args(verbosity) + seq![
        "uninstall"@,
        "--"@,
        pkg_name,
    ]
}

/// Arguments of `cargo uninstall` for the given package.
pub fn uninstall_args(pkg_name: &str, color: ColorChoice, verbosity: i8) -> (r: Vec<String>)
    ensures
        strs(r@) == spec_uninstall_args(pkg_name@, color, verbosity as int),
{
    let mut out: Vec<String> = Vec::new();
    assert(strs(out@) =~= Seq::<Seq<char>>::empty());
    push_arg(&mut out, "--color");
    push_arg(&mut out, color.as_str());
    push_verbosity(&mut out, verbosity);
    push_arg(&mut out, "uninstall");
    push_arg(&mut out, "--");
    push_arg(&mut out, pkg_name);
    assert(strs(out@) =~= spec_uninstall_args(pkg_name@, color, verbosity as int));
    out
}

/// The name of `cargo-binstall`'s own package.
pub const BINSTALL_NAME: &'static str = "cargo-binstall";

/// Heuristically determines whether `cargo-binstall` is installed or not:
/// when the installed packages are known, whether it is among them; when
/// they are not (none were read, as with `--skip-check`), whether calling
/// it directly succeeded (`probe_succeeded`).
pub fn binstall_is_available(installed: &StringMap<()>, probe_succeeded: bool) -> (r: bool)
    ensures
        installed@.dom() == Set::<Seq<char>>::empty() ==> r == probe_succeeded,
        installed@.dom() != Set::<Seq<char>>::empty() ==> r == installed@.dom().contains(
            "cargo-binstall"@,
        ),
{
    if installed.is_empty() {
        probe_succeeded
    } else {
        installed.contains_key(BINSTALL_NAME)
    }
}

/// Whether the availability of `cargo-binstall` has to be determined: only
/// in automatic mode, and never under test.
pub fn binstall_probe_needed(choice: BinstallChoice, testing: bool) -> (r: bool)
    ensures
        r == (choice == BinstallChoice::Auto && !testing),
{
    match choice {
        BinstallChoice::Auto => !testing,
        _ => false,
    }
}

/// Whether a package is installed with `cargo binstall` rather than
/// `cargo install`: always when so chosen, in automatic mode when it is
/// available and not under test.
pub fn use_binstall(choice: BinstallChoice, testing: bool, available: bool) -> (r: bool)
    ensures
        r == (choice == BinstallChoice::Always || (choice == BinstallChoice::Auto && !testing
            && available)),
{
    match choice {
        BinstallChoice::Always => true,
        BinstallChoice::Auto => !testing && available,
        BinstallChoice::Never => false,
    }
}

/// How a package is installed once the global options and its own are
/// combined.
#[derive(Clone, Copy, Debug, PartialEq, Eq, Structural)]
pub struct PackageInstallOptions {
    pub force: bool,
    pub binstall: BinstallChoice,
    pub no_fail_fast: bool,
}

/// Combines the global options with a package's own: `force` and
/// `no_fail_fast` hold if either asks for them, and the package's
/// `binstall` choice, when set, wins over the global one.
pub fn package_install_options(
    pkg: &DetailedPackageReq,
    force: bool,
    binstall: BinstallChoice,
    no_fail_fast: bool,
) -> (r: PackageInstallOptions)
    ensures
        r.force == (force || pkg.force),
        r.no_fail_fast == (no_fail_fast || pkg.no_fail_fast),
        r.binstall == match pkg.binstall {
            Some(c) => c,
            None => binstall,
        },
{
    PackageInstallOptions {
        force: force || pkg.force,
        binstall: match pkg.binstall {
            Some(c) => c,
            None => binstall,
        },
        no_fail_fast: no_fail_fast || pkg.no_fail_fast,
    }
}

/// Result of an installation for some package.
#[derive(Clone, Copy, Debug, PartialEq, Eq, Structural)]
pub enum InstallStatus {
    /// The package was newly installed with success.
    Installed,
    /// The package was successfully updated, replacing a previous version.
    Updated,
    /// The package failed to install or update.
    Failed,
}

/// The status recorded for a package's installation.
pub open spec fn status_for(was_installed: bool, succeeded: bool) -> InstallStatus {
    if !succeeded {
        InstallStatus::Failed
    } else if was_installed {
        InstallStatus::Updated
    } else {
        InstallStatus::Installed
    }
}

/// The names in an error report, none when there is no report.
pub open spec fn failures(report: Option<Vec<String>>) -> Seq<Seq<char>> {
    match report {
        Some(f) => strs(f@),
        None => Seq::empty(),
    }
}

/// The outcome of one installation: the package's name, whether it was
/// installed before, whether the installation succeeded, and whether a
/// failure of it is passed over.
pub type InstallOutcome = (Seq<char>, bool, bool, bool);

/// Whether the run goes on after an outcome: after a success, or after a
/// failure that is passed over.
pub open spec fn proceeds(o: InstallOutcome) -> bool {
    o.2 || o.3
}

/// The report's statuses and failures after recording one outcome.
pub open spec fn record_step(
    before: (Map<Seq<char>, InstallStatus>, Seq<Seq<char>>),
    o: InstallOutcome,
) -> (Map<Seq<char>, InstallStatus>, Seq<Seq<char>>) {
    (
        before.0.insert(o.0, status_for(o.1, o.2)),
        if !o.2 && o.3 {
            before.1.push(o.0)
        } else {
            before.1
        },
    )
}

/// The report after a run over the outcomes `os`, in order, from `start`:
/// every outcome is recorded until, and including, the first one after
/// which the run does not go on.
pub open spec fn run_report(
    start: (Map<Seq<char>, InstallStatus>, Seq<Seq<char>>),
    os: Seq<InstallOutcome>,
) -> (Map<Seq<char>, InstallStatus>, Seq<Seq<char>>)
    decreases os.len(),
{
    if os.len() == 0 {
        start
    } else if !proceeds(os[0]) {
        record_step(start, os[0])
    } else {
        run_report(record_step(start, os[0]), os.drop_first())
    }
}

/// How many of the outcomes `os` a run attempts: all of them, or up to and
/// including the first failure that is not passed over.
pub open spec fn attempted(os: Seq<InstallOutcome>) -> nat
    decreases os.len(),
{
    if os.len() == 0 {
        0
    } else if !proceeds(os[0]) {
        1
    } else {
        1 + attempted(os.drop_first())
    }
}

/// The names of the passed-over failures among the first `n` outcomes, in
/// order.
pub open spec fn failed_among(os: Seq<InstallOutcome>, n: nat) -> Seq<Seq<char>>
    decreases n,
{
    if n == 0 || os.len() == 0 {
        Seq::empty()
    } else {
        let head = if !os[0].2 && os[0].3 {
            seq![os[0].0]
        } else {
            Seq::empty()
        };
        head + failed_among(os.drop_first(), (n - 1) as nat)
    }
}

/// Report of a run of installations.
#[derive(Debug, PartialEq, Eq)]
pub struct InstallReport {
    /// Installation status per package name.
    pub package_statuses: StringMap<InstallStatus>,
    /// The packages whose failures were passed over to go on with the
    /// others, in order; `None` when there was none.
    pub error_report: Option<Vec<String>>,
}

impl InstallReport {
    /// The report of no installation.
    pub fn new() -> (r: InstallReport)
        ensures
            r.package_statuses@ == Map::<Seq<char>, InstallStatus>::empty(),
            r.error_report is None,
    {
        InstallReport { package_statuses: StringMap::new(), error_report: None }
    }

    /// Records the outcome of one installation and tells whether to go on:
    /// after a success, or after a failure that is passed over because of
    /// `no_fail_fast`, which then joins the error report.
    pub fn record(
        &mut self,
        pkg_name: String,
        was_installed: bool,
        succeeded: bool,
        no_fail_fast: bool,
    ) -> (proceed: bool)
        ensures
            final(self).package_statuses@ == old(self).package_statuses@.insert(
                pkg_name@,
                status_for(was_installed, succeeded),
            ),
            proceed == (succeeded || no_fail_fast),
            succeeded || !no_fail_fast ==> final(self).error_report == old(self).error_report,
            !succeeded && no_fail_fast ==> final(self).error_report is Some && failures(
                final(self).error_report,
            ) == failures(old(self).error_report).push(pkg_name@),
            (final(self).package_statuses@, failures(final(self).error_report)) == record_step(
                (old(self).package_statuses@, failures(old(self).error_report)),
                (pkg_name@, was_installed, succeeded, no_fail_fast),
            ),
            proceed == proceeds((pkg_name@, was_installed, succeeded, no_fail_fast)),
    {
        let status = if !succeeded {
            InstallStatus::Failed
        } else if was_installed {
            InstallStatus::Updated
        } else {
            InstallStatus::Installed
        };
        if !succeeded && no_fail_fast {
            let mut failed = match self.error_report.take() {
                Some(f) => f,
                None => Vec::new(),
            };
            let ghost before = strs(failed@);
            failed.push(String::from_str(pkg_name.as_str()));
            assert(strs(failed@) =~= before.push(pkg_name@));
            self.error_report = Some(failed);
        }
        self.package_statuses.insert(pkg_name, status);
        succeeded || no_fail_fast
    }
}

/// What is run to install one package.
#[derive(Debug, PartialEq, Eq)]
pub struct InstallCommand {
    /// The arguments after the program name.
    pub args: Vec<String>,
    /// Whether `cargo binstall` is used rather than `cargo install`.
    pub uses_binstall: bool,
    /// Whether the command is actually run: a dry run of `cargo install`
    /// runs nothing, while `cargo binstall` has a dry run of its own.
    pub run: bool,
}

/// The command that installs a package, with `cargo binstall` when
/// `via_binstall`, else with `cargo install`. `verbosity` is the user's
/// level: `cargo binstall` gets its log level from it, `cargo install` the
/// verbosity that Cargo is handed.
pub fn install_command(
    pkg_name: &str,
    pkg_req: &DetailedPackageReq,
    force: bool,
    dry_run: bool,
    via_binstall: bool,
    color: ColorChoice,
    verbosity: i8,
) -> (r: InstallCommand)
    ensures
        r.uses_binstall == via_binstall,
        r.run == (via_binstall || !dry_run),
        via_binstall ==> strs(r.args@) == spec_binstall_args(
            pkg_name@,
            *pkg_req,
            force,
            dry_run,
            verbosity as int,
        ),
        !via_binstall ==> strs(r.args@) == spec_install_args(
            pkg_name@,
            *pkg_req,
            force,
            color,
            spec_cargo_verbosity(verbosity as int),
        ),
{
    if via_binstall {
        InstallCommand {
            args: binstall_args(pkg_name, pkg_req, force, dry_run, verbosity),
            uses_binstall: true,
            run: true,
        }
    } else {
        InstallCommand {
            args: install_args(pkg_name, pkg_req, force, color, cargo_verbosity(verbosity)),
            uses_binstall: false,
            run: !dry_run,
        }
    }
}

} // verus!
