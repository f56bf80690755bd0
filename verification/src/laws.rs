//! Properties of the library as a whole, each stated over the specifications
//! that the functions' contracts use.

use vstd::prelude::*;

use crate::args::{flag_if, opt_arg, strs};
use crate::cargo::{
    attempted, failed_among, proceeds, run_report, spec_binstall_args, spec_install_args,
    status_for, verbosity_args, InstallOutcome, InstallStatus,
};
use crate::cli::{saturate, verbosity_of, ColorChoice};
use crate::coloring::colors;
use crate::coloring::{Colorizer, Icon};
use crate::commands::import::import_op;
use crate::commands::jettison::uninstall_names;
use crate::commands::ship::{needs_install, summary_row, up_to_date, PackageStatus};
use crate::commands::CellView;
use crate::cli::ImportArgs;
use crate::version::{semver_order, version_text, Op, SemVer};
use crate::config::cargo_crates_toml::{
    best_entries, imported_reqs, kept_entry, CargoCratesPackage, SourceKind,
};
use crate::config::effective_config::{pick, shipped_names, shipped_order};
use crate::config::package::{
    is_simple_star, spec_effective_skip_check, DetailedPackageReq, PackageRequirement,
};
use crate::config::user_config::{others_updated, self_name, self_updated};
use crate::levels::{spec_binstall_log_level, spec_cargo_verbosity};

verus! {

/// Enabling self-updating twice is the same as enabling it once.
pub proof fn law_self_update_idempotent(
    a: Map<Seq<char>, PackageRequirement>,
    b: Map<Seq<char>, PackageRequirement>,
    c: Map<Seq<char>, PackageRequirement>,
)
    requires
        self_updated(a, b, true),
        self_updated(b, c, true),
    ensures
        c == b,
{
}

/// Enabling then disabling self-updating leaves the configuration without
/// this tool, and otherwise as it was.
pub proof fn law_self_update_then_disable(
    a: Map<Seq<char>, PackageRequirement>,
    b: Map<Seq<char>, PackageRequirement>,
    c: Map<Seq<char>, PackageRequirement>,
)
    requires
        self_updated(a, b, true),
        self_updated(b, c, false),
    ensures
        c == a.remove(self_name()),
{
    if !a.dom().contains(self_name()) {
        assert(c =~= a.remove(self_name()));
    }
}

/// Self-updating never replaces the requirement configured for this tool,
/// and adds `*` when there is none.
pub proof fn law_self_update_no_replace(
    a: Map<Seq<char>, PackageRequirement>,
    b: Map<Seq<char>, PackageRequirement>,
)
    requires
        self_updated(a, b, true),
    ensures
        b.dom().contains(self_name()),
        a.dom().contains(self_name()) ==> b[self_name()] == a[self_name()],
        !a.dom().contains(self_name()) ==> is_simple_star(b[self_name()]),
        forall|k: Seq<char>| a.dom().contains(k) ==> #[trigger] b[k] == a[k],
{
}

/// Disabling the update of other packages is irreversible: afterwards,
/// neither enabling nor disabling it changes anything.
pub proof fn law_only_self_irreversible(
    a: Map<Seq<char>, PackageRequirement>,
    b: Map<Seq<char>, PackageRequirement>,
    c: Map<Seq<char>, PackageRequirement>,
    upo: bool,
)
    requires
        others_updated(a, b, false),
        others_updated(b, c, upo),
    ensures
        c == b,
{
    if !upo {
        assert(b.dom().contains(self_name()));
        assert(c.dom() =~= b.dom());
        assert(c =~= b);
    }
}

/// The command line has precedence over the environment, and the
/// environment over the configuration; the default applies only when none
/// of them sets the option.
pub proof fn law_precedence<T>(cli: Option<T>, env: Option<T>, cfg: Option<T>, default: T)
    ensures
        cli matches Some(x) ==> pick(cli, env, cfg, default) == x,
        cli is None ==> (env matches Some(y) ==> pick(cli, env, cfg, default) == y),
        cli is None && env is None ==> (cfg matches Some(z) ==> pick(cli, env, cfg, default) == z),
        cli is None && env is None && cfg is None ==> pick(cli, env, cfg, default) == default,
{
}

/// Installing from a path or from Git implies skipping the version check.
pub proof fn law_sources_imply_skip_check(r: DetailedPackageReq)
    ensures
        r.path is Some || r.git is Some || r.branch is Some || r.tag is Some || r.rev is Some
            ==> spec_effective_skip_check(r),
        r.skip_check ==> spec_effective_skip_check(r),
{
}

/// When self-updating is not disabled, this tool is always shipped, even if
/// the configuration does not list it; with `only_self`, it is the only one.
pub proof fn law_ship_self_updates_by_default(
    old: Map<Seq<char>, PackageRequirement>,
    only_self: bool,
)
    ensures
        shipped_names(old, false, only_self).contains(self_name()),
        shipped_names(old, true, true) == Set::<Seq<char>>::empty().insert(self_name()),
        !shipped_names(old, true, false).contains(self_name()),
{
}

/// This tool is never uninstalled, nor is any configured package.
pub proof fn law_uninstall_spares_configured(
    installed: Set<Seq<char>>,
    configured: Set<Seq<char>>,
    k: Seq<char>,
)
    ensures
        !uninstall_names(installed, configured).contains(self_name()),
        configured.contains(k) ==> !uninstall_names(installed, configured).contains(k),
        uninstall_names(installed, configured).contains(k) ==> installed.contains(k),
{
}

/// A failure is recorded as such, a success as an update exactly when the
/// package was already installed.
pub proof fn law_install_status(was_installed: bool, succeeded: bool)
    ensures
        !succeeded <==> status_for(was_installed, succeeded) == InstallStatus::Failed,
        status_for(was_installed, succeeded) == InstallStatus::Updated <==> succeeded
            && was_installed,
        status_for(was_installed, succeeded) == InstallStatus::Installed <==> succeeded
            && !was_installed,
{
}

/// In `cargo install`'s arguments the package name comes last, after `--`,
/// and the extra arguments come right before that `--`.
pub proof fn law_install_args_tail(
    pkg_name: Seq<char>,
    req: DetailedPackageReq,
    force: bool,
    color: ColorChoice,
    verbosity: int,
)
    ensures
        ({
            let a = spec_install_args(pkg_name, req, force, color, verbosity);
            let x = strs(req.extra_arguments@);
            &&& a.len() >= x.len() + 2
            &&& a[a.len() - 1] == pkg_name
            &&& a[a.len() - 2] == "--"@
            &&& a.subrange(a.len() - 2 - x.len(), a.len() - 2) == x
        }),
{
    let a = spec_install_args(pkg_name, req, force, color, verbosity);
    let x = strs(req.extra_arguments@);
    assert(a.subrange(a.len() - 2 - x.len(), a.len() - 2) =~= x);
}

/// In `cargo binstall`'s arguments the package name comes last, after
/// `--`, and the extra arguments come right before that `--`.
pub proof fn law_binstall_args_tail(
    pkg_name: Seq<char>,
    req: DetailedPackageReq,
    force: bool,
    dry_run: bool,
    verbosity: int,
)
    ensures
        ({
            let a = spec_binstall_args(pkg_name, req, force, dry_run, verbosity);
            let x = strs(req.extra_arguments@);
            &&& a.len() >= x.len() + 2
            &&& a[a.len() - 1] == pkg_name
            &&& a[a.len() - 2] == "--"@
            &&& a.subrange(a.len() - 2 - x.len(), a.len() - 2) == x
        }),
{
    let a = spec_binstall_args(pkg_name, req, force, dry_run, verbosity);
    let x = strs(req.extra_arguments@);
    assert(a.subrange(a.len() - 2 - x.len(), a.len() - 2) =~= x);
}

/// The verbosity level lies in `-127..=127`; it is positive with `-v`,
/// negative with `-q` alone, and zero with neither.
pub proof fn law_verbosity_range(verbose: u8, quiet: u8)
    ensures
        -127 <= verbosity_of(verbose, quiet) <= 127,
        verbosity_of(verbose, quiet) > 0 <==> verbose > 0,
        verbosity_of(verbose, quiet) < 0 <==> verbose == 0 && quiet > 0,
{
}

/// Cargo is told nothing of the verbosity from `-qq` to `-v`; `-vv` gives
/// it `-v`, three or more `-v` give it exactly `-vv`, and from `-qqq` on it
/// is made quiet.
pub proof fn law_cargo_verbosity(verbosity: int)
    ensures
        -2 <= verbosity <= 1 ==> verbosity_args(spec_cargo_verbosity(verbosity)) == Seq::<
            Seq<char>,
        >::empty(),
        verbosity == 2 ==> verbosity_args(spec_cargo_verbosity(verbosity)) == seq![seq!['-', 'v']],
        verbosity >= 3 ==> verbosity_args(spec_cargo_verbosity(verbosity)) == seq![
            seq!['-', 'v', 'v'],
        ],
        verbosity <= -3 ==> verbosity_args(spec_cargo_verbosity(verbosity)) == seq!["-q"@],
{
    if verbosity == 2 {
        assert(seq!['-'] + Seq::new(1, |i: int| 'v') =~= seq!['-', 'v']);
    }
    if verbosity >= 3 {
        assert(seq!['-'] + Seq::new(2, |i: int| 'v') =~= seq!['-', 'v', 'v']);
    }
}

/// Output is never colored when so chosen, and always when so chosen.
pub proof fn law_color_choice(is_terminal: bool)
    ensures
        !colors(is_terminal, ColorChoice::Never),
        colors(is_terminal, ColorChoice::Always),
        colors(is_terminal, ColorChoice::Auto) == is_terminal,
{
}

/// An import without `keep_self` never configures this tool.
pub proof fn law_import_without_self(
    es: Seq<(CargoCratesPackage, Vec<String>)>,
    op: Option<crate::version::Op>,
    keep_local: bool,
)
    ensures
        !imported_reqs(es, op, false, keep_local).dom().contains(self_name()),
    decreases es.len(),
{
    if es.len() > 0 {
        law_import_without_self(es.drop_last(), op, keep_local);
    }
}

/// An import without `keep_local` only configures names that some entry
/// installed from elsewhere than a local path.
pub proof fn law_import_without_local(
    es: Seq<(CargoCratesPackage, Vec<String>)>,
    op: Option<crate::version::Op>,
    keep_self: bool,
    k: Seq<char>,
)
    ensures
        imported_reqs(es, op, keep_self, false).dom().contains(k) ==> exists|i: int|
            0 <= i < es.len() && (#[trigger] es[i]).0.name@ == k && es[i].0.source.kind
                != SourceKind::Path,
    decreases es.len(),
{
    if es.len() > 0 {
        let pre = es.drop_last();
        law_import_without_local(pre, op, keep_self, k);
        if imported_reqs(pre, op, keep_self, false).dom().contains(k) {
            let i = choose|i: int|
                0 <= i < pre.len() && (#[trigger] pre[i]).0.name@ == k && pre[i].0.source.kind
                    != SourceKind::Path;
            assert(es[i] == pre[i]);
        }
        if imported_reqs(es, op, keep_self, false).dom().contains(k) && !imported_reqs(
            pre,
            op,
            keep_self,
            false,
        ).dom().contains(k) {
            assert(kept_entry(es.last().0, keep_self, false));
            assert(es[es.len() - 1] == es.last());
        }
    }
}

/// Packages are shipped in the configuration's order: with self-updating
/// left on, the configured packages keep their order, and this tool comes
/// last when the configuration does not list it.
pub proof fn law_ship_follows_configuration_order(
    m: Map<Seq<char>, PackageRequirement>,
    ks: Seq<Seq<char>>,
)
    ensures
        m.dom().contains(self_name()) ==> shipped_order(m, ks, false, false) == ks,
        !m.dom().contains(self_name()) ==> shipped_order(m, ks, false, false) == ks.push(
            self_name(),
        ),
{
}

/// A run of installations stops at the first failure that is not passed
/// over, and attempts every package when every failure is passed over
/// (`no_fail_fast`); the report then holds a status for exactly the
/// attempted packages, and its failures are the passed-over failures among
/// them, in order.
pub proof fn law_fail_fast_run(
    start: (Map<Seq<char>, InstallStatus>, Seq<Seq<char>>),
    os: Seq<InstallOutcome>,
)
    ensures
        attempted(os) <= os.len(),
        os.len() > 0 ==> attempted(os) >= 1,
        (forall|i: int| 0 <= i < os.len() ==> (#[trigger] os[i]).3) ==> attempted(os) == os.len(),
        (forall|i: int| 0 <= i < os.len() ==> proceeds(#[trigger] os[i])) ==> attempted(os)
            == os.len(),
        attempted(os) < os.len() ==> !proceeds(os[attempted(os) - 1]),
        forall|i: int| 0 <= i < attempted(os) - 1 ==> proceeds(#[trigger] os[i]),
        forall|k: Seq<char>|
            #[trigger] run_report(start, os).0.dom().contains(k) <==> (start.0.dom().contains(k)
                || exists|i: int| 0 <= i < attempted(os) && (#[trigger] os[i]).0 == k),
        run_report(start, os).1 == start.1 + failed_among(os, attempted(os)),
    decreases os.len(),
{
    if os.len() == 0 {
        assert(start.1 + failed_among(os, 0) =~= start.1);
    } else if !proceeds(os[0]) {
        let head = if !os[0].2 && os[0].3 {
            seq![os[0].0]
        } else {
            Seq::<Seq<char>>::empty()
        };
        assert(failed_among(os.drop_first(), 0) =~= Seq::<Seq<char>>::empty());
        assert(failed_among(os, 1) =~= head);
        assert(start.1 + head =~= run_report(start, os).1);
        assert forall|k: Seq<char>|
            #[trigger] run_report(start, os).0.dom().contains(k) <==> (start.0.dom().contains(k)
                || exists|i: int| 0 <= i < attempted(os) && (#[trigger] os[i]).0 == k) by {
            if k == os[0].0 {
                assert(0 <= 0 < attempted(os) && os[0].0 == k);
            }
        }
    } else {
        let rest = os.drop_first();
        let next = crate::cargo::record_step(start, os[0]);
        law_fail_fast_run(next, rest);
        let a = attempted(rest);
        assert(attempted(os) == 1 + a);
        let head = if !os[0].2 && os[0].3 {
            seq![os[0].0]
        } else {
            Seq::<Seq<char>>::empty()
        };
        assert(failed_among(os, (1 + a) as nat) == head + failed_among(rest, a));
        assert(next.1 == start.1 + head);
        assert(start.1 + head + failed_among(rest, a) =~= start.1 + (head + failed_among(rest, a)));
        if forall|j: int| 0 <= j < os.len() ==> (#[trigger] os[j]).3 {
            assert forall|j: int| 0 <= j < rest.len() implies (#[trigger] rest[j]).3 by {
                assert(rest[j] == os[j + 1]);
            }
        }
        if forall|j: int| 0 <= j < os.len() ==> proceeds(#[trigger] os[j]) {
            assert forall|j: int| 0 <= j < rest.len() implies proceeds(#[trigger] rest[j]) by {
                assert(rest[j] == os[j + 1]);
            }
        }
        if attempted(os) < os.len() {
            assert(rest[a - 1] == os[a as int]);
        }
        assert forall|i: int| 0 <= i < attempted(os) - 1 implies proceeds(#[trigger] os[i]) by {
            if i > 0 {
                assert(rest[i - 1] == os[i]);
            }
        }
        assert forall|k: Seq<char>|
            #[trigger] run_report(start, os).0.dom().contains(k) <==> (start.0.dom().contains(k)
                || exists|i: int| 0 <= i < attempted(os) && (#[trigger] os[i]).0 == k) by {
            if k == os[0].0 {
                assert(0 <= 0 < attempted(os) && os[0].0 == k);
            }
            if exists|i: int| 0 <= i < a && (#[trigger] rest[i]).0 == k {
                let i = choose|i: int| 0 <= i < a && (#[trigger] rest[i]).0 == k;
                assert(os[i + 1] == rest[i]);
                assert(0 <= i + 1 < attempted(os) && os[i + 1].0 == k);
            }
            if exists|i: int| 0 <= i < attempted(os) && (#[trigger] os[i]).0 == k {
                let i = choose|i: int| 0 <= i < attempted(os) && (#[trigger] os[i]).0 == k;
                if i > 0 {
                    assert(rest[i - 1] == os[i]);
                    assert(0 <= i - 1 < a && rest[i - 1].0 == k);
                }
            }
        }
    }
}

/// A configured, version-checked, installed package is selected for an
/// update exactly when its installed version is strictly below the latest
/// one in `semver`'s order; a package that is not installed, or whose check
/// is skipped, is always selected.
pub proof fn law_install_when_outdated(
    pkg: DetailedPackageReq,
    old: Map<Seq<char>, SemVer>,
    new: Map<Seq<char>, SemVer>,
    k: Seq<char>,
)
    ensures
        !old.dom().contains(k) ==> needs_install(pkg, old, new, k),
        spec_effective_skip_check(pkg) ==> needs_install(pkg, old, new, k),
        !spec_effective_skip_check(pkg) && old.dom().contains(k) && new.dom().contains(k) ==> (
        needs_install(pkg, old, new, k) <==> semver_order(old[k]@, new[k]@) < 0),
{
}

/// A summary row shows a package as up to date (nothing new, the done icon)
/// only when its installed version is at or above the latest one in
/// `semver`'s order; an installed version strictly below the latest gives
/// the latest version's text and the todo icon.
pub proof fn law_summary_row_outdated(
    c: Colorizer,
    old: Map<Seq<char>, SemVer>,
    new: Map<Seq<char>, SemVer>,
    k: Seq<char>,
    row: PackageStatus,
)
    requires
        summary_row(c, old, new, k, row),
    ensures
        up_to_date(old, new, k) ==> semver_order(old[k]@, new[k]@) >= 0,
        old.dom().contains(k) && new.dom().contains(k) && semver_order(old[k]@, new[k]@) < 0
            ==> row.status.icon == Icon::Todo && row.new_ver@ == CellView::Text(
            version_text(new[k]@),
        ),
        old.dom().contains(k) && new.dom().contains(k) && semver_order(old[k]@, new[k]@) >= 0
            ==> row.status.icon == Icon::Done,
{
}

/// The import options pick the requirement operator: `--exact` gives `=`,
/// otherwise `--compatible` gives `^`, otherwise `--patch` gives `~`, and
/// none of them gives `*`; each imported requirement then starts with that
/// operator.
pub proof fn law_import_operator(
    es: Seq<(CargoCratesPackage, Vec<String>)>,
    args: ImportArgs,
    k: Seq<char>,
)
    ensures
        args.exact ==> import_op(args) == Some(Op::Exact),
        !args.exact && args.compatible ==> import_op(args) == Some(Op::Caret),
        !args.exact && !args.compatible && args.patch ==> import_op(args) == Some(Op::Tilde),
        !args.exact && !args.compatible && !args.patch ==> import_op(args) is None,
        ({
            let reqs = imported_reqs(es, import_op(args), args.keep_self, args.keep_local);
            reqs.dom().contains(k) ==> {
                &&& args.exact ==> reqs[k][0] == '='
                &&& !args.exact && args.compatible ==> reqs[k][0] == '^'
                &&& !args.exact && !args.compatible && args.patch ==> reqs[k][0] == '~'
                &&& !args.exact && !args.compatible && !args.patch ==> reqs[k] == "*"@
            }
        }),
{
}

/// An element of `a + b` is one of `a` or one of `b`.
proof fn lemma_contains_concat(a: Seq<Seq<char>>, b: Seq<Seq<char>>, x: Seq<char>)
    ensures
        (a + b).contains(x) <==> (a.contains(x) || b.contains(x)),
{
    if (a + b).contains(x) {
        let i = choose|i: int| 0 <= i < (a + b).len() && (a + b)[i] == x;
        if i < a.len() {
            assert(a[i] == x);
        } else {
            assert(b[i - a.len()] == x);
        }
    }
    if a.contains(x) {
        let i = choose|i: int| 0 <= i < a.len() && a[i] == x;
        assert((a + b)[i] == x);
    }
    if b.contains(x) {
        let i = choose|i: int| 0 <= i < b.len() && b[i] == x;
        assert((a + b)[i + a.len()] == x);
    }
}

/// `cargo binstall` is asked for a dry run exactly on a dry run: the
/// `--dry-run` flag is among its arguments when `dry_run` is set, and only
/// then, provided that no value handed to it (the package name, the
/// requirement, the index, registry and Git locations, the extra arguments)
/// is that flag itself.
pub proof fn law_binstall_dry_run_flag(
    pkg_name: Seq<char>,
    req: DetailedPackageReq,
    force: bool,
    dry_run: bool,
    verbosity: int,
)
    requires
        pkg_name != "--dry-run"@,
        req.version@ != "--dry-run"@,
        req.index matches Some(v) ==> v@ != "--dry-run"@,
        req.registry matches Some(v) ==> v@ != "--dry-run"@,
        req.git matches Some(v) ==> v@ != "--dry-run"@,
        !strs(req.extra_arguments@).contains("--dry-run"@),
    ensures
        spec_binstall_args(pkg_name, req, force, dry_run, verbosity).contains("--dry-run"@)
            == dry_run,
{
    reveal_strlit("--dry-run");
    reveal_strlit("binstall");
    reveal_strlit("--disable-telemetry");
    reveal_strlit("--no-confirm");
    reveal_strlit("--log-level");
    reveal_strlit("--version");
    reveal_strlit("--index");
    reveal_strlit("--registry");
    reveal_strlit("--git");
    reveal_strlit("--force");
    reveal_strlit("--locked");
    reveal_strlit("--");
    reveal_strlit("off");
    reveal_strlit("error");
    reveal_strlit("warn");
    reveal_strlit("info");
    reveal_strlit("debug");
    reveal_strlit("trace");
    let x = "--dry-run"@;
    assert("--version"@[2] != x[2]);
    let head = seq![
        "binstall"@,
        "--disable-telemetry"@,
        "--no-confirm"@,
        "--log-level"@,
        spec_binstall_log_level(verbosity),
        "--version"@,
        req.version@,
    ];
    assert(!head.contains(x)) by {
        assert(head[0].len() != x.len());
        assert(head[1].len() != x.len());
        assert(head[2].len() != x.len());
        assert(head[3].len() != x.len());
        assert(head[4] != x);
        assert(head[5] != x);
        assert(head[6] != x);
        assert forall|i: int| 0 <= i < head.len() implies head[i] != x by {
            if i == 0 {
            } else if i == 1 {
            } else if i == 2 {
            } else if i == 3 {
            } else if i == 4 {
            } else if i == 5 {
            } else {
            }
        }
    }
    let ix = opt_arg("--index"@, req.index);
    let rg = opt_arg("--registry"@, req.registry);
    let gt = opt_arg("--git"@, req.git);
    assert(!ix.contains(x)) by {
        assert forall|i: int| 0 <= i < ix.len() implies ix[i] != x by {}
    }
    assert(!rg.contains(x)) by {
        assert forall|i: int| 0 <= i < rg.len() implies rg[i] != x by {}
    }
    assert(!gt.contains(x)) by {
        assert forall|i: int| 0 <= i < gt.len() implies gt[i] != x by {}
    }
    let fo = flag_if(force, "--force"@);
    let dr = flag_if(dry_run, "--dry-run"@);
    let lo = flag_if(req.locked, "--locked"@);
    assert(!fo.contains(x)) by {
        assert forall|i: int| 0 <= i < fo.len() implies fo[i] != x by {}
    }
    assert(!lo.contains(x)) by {
        assert forall|i: int| 0 <= i < lo.len() implies lo[i] != x by {}
    }
    assert(dr.contains(x) == dry_run) by {
        if dry_run {
            assert(dr[0] == x);
        }
    }
    let ex = strs(req.extra_arguments@);
    let tail = seq!["--"@, pkg_name];
    assert(!tail.contains(x)) by {
        assert(tail[0].len() != x.len());
        assert(tail[1] != x);
        assert forall|i: int| 0 <= i < tail.len() implies tail[i] != x by {
            if i == 0 {
            } else {
            }
        }
    }
    lemma_contains_concat(head, ix, x);
    lemma_contains_concat(head + ix, rg, x);
    lemma_contains_concat(head + ix + rg, gt, x);
    lemma_contains_concat(head + ix + rg + gt, fo, x);
    lemma_contains_concat(head + ix + rg + gt + fo, dr, x);
    lemma_contains_concat(head + ix + rg + gt + fo + dr, lo, x);
    lemma_contains_concat(head + ix + rg + gt + fo + dr + lo, ex, x);
    lemma_contains_concat(head + ix + rg + gt + fo + dr + lo + ex, tail, x);
}

/// `jettison` removes every installed package that is not configured, this
/// tool excepted, and only those.
pub proof fn law_uninstall_exactly_unconfigured(
    installed: Set<Seq<char>>,
    configured: Set<Seq<char>>,
    k: Seq<char>,
)
    ensures
        installed.contains(k) && k != self_name() && !configured.contains(k) ==> uninstall_names(
            installed,
            configured,
        ).contains(k),
        uninstall_names(installed, configured).contains(k) ==> installed.contains(k) && k
            != self_name() && !configured.contains(k),
{
}

} // verus!
