//! The `ship` command: which packages need an install or update, and the
//! tables that report on them.

use vstd::prelude::*;

use super::{Cell, CellView};
use crate::cargo::InstallStatus;
use crate::coloring::{Colorizer, Icon, StyledIcon};
use crate::config::package::{spec_effective_skip_check, DetailedPackageReq};
use crate::string_map::{sorted_names, StringMap};
use crate::text::reversed;
use crate::version::{semver_order, version_text, SemVer};

verus! {

/// The names to search the latest version of, in the map's order: those whose
/// version check is not skipped, among the first `n` entries.
pub open spec fn searched_names(m: StringMap<DetailedPackageReq>, n: int) -> Seq<Seq<char>>
    decreases n,
{
    if n <= 0 {
        Seq::empty()
    } else if !spec_effective_skip_check(m.value_seq()[n - 1]) {
        searched_names(m, n - 1).push(m.key_seq()[n - 1])
    } else {
        searched_names(m, n - 1)
    }
}

/// The names of the packages whose latest version is searched for, in the
/// configuration's order.
pub fn packages_to_search(pkgs: &StringMap<DetailedPackageReq>) -> (r: Vec<String>)
    ensures
        crate::args::strs(r@) == searched_names(*pkgs, pkgs.key_seq().len() as int),
{
    let n = pkgs.len();
    let mut out: Vec<String> = Vec::new();
    let mut i: usize = 0;
    assert(crate::args::strs(out@) =~= Seq::<Seq<char>>::empty());
    while i < n
        invariant
            n == pkgs.key_seq().len(),
            pkgs.laid_out(),
            i <= n,
            crate::args::strs(out@) == searched_names(*pkgs, i as int),
        decreases n - i,
    {
        if !pkgs.value_at(i).effective_skip_check() {
            let ghost before = crate::args::strs(out@);
            out.push(String::from_str(pkgs.key_at(i).as_str()));
            assert(crate::args::strs(out@) =~= before.push(pkgs.key_seq()[i as int]));
        }
        i = i + 1;
    }
    out
}

/// Whether the installed version of `k` is at least the latest one.
pub open spec fn up_to_date(old: Map<Seq<char>, SemVer>, new: Map<Seq<char>, SemVer>, k: Seq<char>) -> bool {
    &&& old.dom().contains(k)
    &&& new.dom().contains(k)
    &&& semver_order(old[k]@, new[k]@) >= 0
}

/// Whether a package is to be installed or updated: its check is skipped,
/// it is not installed, or its installed version is below the latest one.
pub open spec fn needs_install(
    pkg: DetailedPackageReq,
    old: Map<Seq<char>, SemVer>,
    new: Map<Seq<char>, SemVer>,
    k: Seq<char>,
) -> bool {
    ||| spec_effective_skip_check(pkg)
    ||| !old.dom().contains(k)
    ||| semver_order(old[k]@, new[k]@) < 0
}

/// The names among the first `n` of `ks` (with requirements `vs`) that need
/// an install or update, in their order.
pub open spec fn install_order(
    ks: Seq<Seq<char>>,
    vs: Seq<DetailedPackageReq>,
    old: Map<Seq<char>, SemVer>,
    new: Map<Seq<char>, SemVer>,
    n: int,
) -> Seq<Seq<char>>
    decreases n,
{
    if n <= 0 {
        Seq::empty()
    } else if needs_install(vs[n - 1], old, new, ks[n - 1]) {
        install_order(ks, vs, old, new, n - 1).push(ks[n - 1])
    } else {
        install_order(ks, vs, old, new, n - 1)
    }
}

/// Returns the packages that do indeed need an install or update, in the
/// configuration's order.
pub fn needing_install(
    pkgs: StringMap<DetailedPackageReq>,
    new_vers: &StringMap<SemVer>,
    old_vers: &StringMap<SemVer>,
) -> (r: StringMap<DetailedPackageReq>)
    requires
        forall|k: Seq<char>| #[trigger]
            pkgs@.dom().contains(k) && !spec_effective_skip_check(pkgs@[k]) && old_vers@.dom().contains(k)
                ==> new_vers@.dom().contains(k),
    ensures
        forall|k: Seq<char>| #[trigger]
            r@.dom().contains(k) <==> pkgs@.dom().contains(k) && needs_install(
                pkgs@[k],
                old_vers@,
                new_vers@,
                k,
            ),
        forall|k: Seq<char>| #[trigger] r@.dom().contains(k) ==> r@[k] == pkgs@[k],
        forall|k: Seq<char>|
            pkgs@.dom().contains(k) && !spec_effective_skip_check(pkgs@[k]) && old_vers@.dom().contains(
                k,
            ) && new_vers@.dom().contains(k) ==> (#[trigger] r@.dom().contains(k) <==> semver_order(
                old_vers@[k]@,
                new_vers@[k]@,
            ) < 0),
        r.key_seq() == install_order(
            pkgs.key_seq(),
            pkgs.value_seq(),
            old_vers@,
            new_vers@,
            pkgs.key_seq().len() as int,
        ),
{
    let ghost old_map = pkgs@;
    let ghost ks = pkgs.key_seq();
    let ghost vs = pkgs.value_seq();
    let entries = pkgs.into_entries();
    let ghost es = entries@;
    let mut rest = reversed(entries);
    let mut out: StringMap<DetailedPackageReq> = StringMap::new();
    let n = rest.len();
    let mut i: usize = 0;
    while i < n
        invariant
            n == es.len(),
            n == ks.len(),
            i <= n,
            rest@ == es.subrange(i as int, n as int).reverse(),
            forall|j: int| 0 <= j < n ==> (#[trigger] es[j]).0@ == ks[j] && es[j].1 == vs[j],
            forall|j: int| 0 <= j < n ==> old_map[#[trigger] ks[j]] == vs[j],
            forall|j: int| 0 <= j < n ==> old_map.dom().contains(#[trigger] ks[j]),
            forall|k: Seq<char>| #[trigger] old_map.dom().contains(k) ==> ks.contains(k),
            forall|j1: int, j2: int|
                0 <= j1 < n && 0 <= j2 < n && j1 != j2 ==> #[trigger] ks[j1] != #[trigger] ks[j2],
            forall|k: Seq<char>| #[trigger]
                old_map.dom().contains(k) && !spec_effective_skip_check(old_map[k])
                    && old_vers@.dom().contains(k) ==> new_vers@.dom().contains(k),
            forall|k: Seq<char>| #[trigger]
                out@.dom().contains(k) <==> exists|j: int|
                    0 <= j < i && ks[j] == k && needs_install(vs[j], old_vers@, new_vers@, k),
            forall|j: int| 0 <= j < i && out@.dom().contains(#[trigger] ks[j]) ==> out@[ks[j]] == vs[j],
            out.key_seq() == install_order(ks, vs, old_vers@, new_vers@, i as int),
        decreases n - i,
    {
        let (name, pkg) = rest.pop().unwrap();
        let ghost at = i as int;
        assert(es[at] == (name, pkg));
        let skip = pkg.effective_skip_check();
        let needed = if skip {
            true
        } else {
            match old_vers.get(name.as_str()) {
                None => true,
                Some(old) => {
                    assert(old_map.dom().contains(ks[at]));
                    match new_vers.get(name.as_str()) {
                        Some(new) => old.lt(new),
                        None => true,
                    }
                },
            }
        };
        let ghost before = out@;
        if needed {
            assert(!before.dom().contains(ks[at])) by {
                if before.dom().contains(ks[at]) {
                    let j = choose|j: int|
                        0 <= j < i && ks[j] == ks[at] && needs_install(vs[j], old_vers@, new_vers@, ks[at]);
                    assert(ks[j] != ks[at]);
                }
            }
            out.insert(name, pkg);
        }
        proof {
            assert forall|k: Seq<char>| #[trigger] out@.dom().contains(k) <==> exists|j: int|
                0 <= j < i + 1 && ks[j] == k && needs_install(vs[j], old_vers@, new_vers@, k) by {
                if k == ks[at] && needs_install(vs[at], old_vers@, new_vers@, k) {
                    assert(0 <= at < i + 1 && ks[at] == k);
                }
                if exists|j: int| 0 <= j < i + 1 && ks[j] == k && needs_install(vs[j], old_vers@, new_vers@, k) {
                    let j = choose|j: int| 0 <= j < i + 1 && ks[j] == k && needs_install(vs[j], old_vers@, new_vers@, k);
                    if j < at {
                        assert(before.dom().contains(k));
                    }
                }
            }
            assert forall|j: int| 0 <= j < i + 1 && out@.dom().contains(#[trigger] ks[j]) implies out@[ks[j]] == vs[j] by {
                if j < at {
                    assert(ks[j] != ks[at]);
                }
            }
        }
        i = i + 1;
        assert(rest@ =~= es.subrange(i as int, n as int).reverse());
    }
    proof {
        assert forall|k: Seq<char>| #[trigger] out@.dom().contains(k) <==> old_map.dom().contains(k)
            && needs_install(old_map[k], old_vers@, new_vers@, k) by {
            if old_map.dom().contains(k) {
                let j = choose|j: int| 0 <= j < ks.len() && ks[j] == k;
                assert(old_map[ks[j]] == vs[j]);
            }
            if out@.dom().contains(k) {
                let j = choose|j: int| 0 <= j < i && ks[j] == k && needs_install(vs[j], old_vers@, new_vers@, k);
                assert(old_map[ks[j]] == vs[j]);
            }
        }
        assert forall|k: Seq<char>| #[trigger] out@.dom().contains(k) implies out@[k] == old_map[k] by {
            let j = choose|j: int| 0 <= j < i && ks[j] == k && needs_install(vs[j], old_vers@, new_vers@, k);
            assert(old_map[ks[j]] == vs[j]);
        }
    }
    out
}

/// A row of the tables that report on packages.
#[derive(Debug, PartialEq, Eq)]
pub struct PackageStatus {
    pub name: String,
    pub old_ver: Cell,
    pub new_ver: Cell,
    pub status: StyledIcon,
}

/// The installed version of `k`, or the icon for nothing.
pub open spec fn old_version_cell(old: Map<Seq<char>, SemVer>, k: Seq<char>) -> CellView {
    if old.dom().contains(k) {
        CellView::Text(version_text(old[k]@))
    } else {
        CellView::Icon(StyledIcon { icon: Icon::Nothing, colored: false })
    }
}

/// The version-check summary's row for `k`: the installed version; the
/// latest version unless it is not newer (nothing) or unknown; and whether
/// the package is up to date or has something to do.
pub open spec fn summary_row(
    c: Colorizer,
    old: Map<Seq<char>, SemVer>,
    new: Map<Seq<char>, SemVer>,
    k: Seq<char>,
    row: PackageStatus,
) -> bool {
    &&& row.name@ == k
    &&& row.old_ver@ == old_version_cell(old, k)
    &&& row.new_ver@ == if !new.dom().contains(k) {
        CellView::Icon(StyledIcon { icon: Icon::Unknown, colored: c.spec_colors() })
    } else if up_to_date(old, new, k) {
        CellView::Icon(StyledIcon { icon: Icon::Nothing, colored: false })
    } else {
        CellView::Text(version_text(new[k]@))
    }
    &&& row.status == if up_to_date(old, new, k) {
        StyledIcon { icon: Icon::Done, colored: c.spec_colors() }
    } else {
        StyledIcon { icon: Icon::Todo, colored: c.spec_colors() }
    }
}

fn old_cell(colorizer: &Colorizer, old_vers: &StringMap<SemVer>, name: &str) -> (r: Cell)
    ensures
        r@ == old_version_cell(old_vers@, name@),
{
    match old_vers.get(name) {
        Some(v) => Cell::Text(v.to_string()),
        None => Cell::Icon(colorizer.none_icon()),
    }
}

/// The names of a table's rows, in order.
pub open spec fn row_names(rows: Seq<PackageStatus>) -> Seq<Seq<char>> {
    Seq::new(rows.len(), |i: int| rows[i].name@)
}

/// The rows of the version-check summary, one per configured package, in
/// increasing order of the names.
pub fn version_check_rows(
    colorizer: &Colorizer,
    pkg_reqs: &StringMap<DetailedPackageReq>,
    new_vers: &StringMap<SemVer>,
    old_vers: &StringMap<SemVer>,
) -> (r: Vec<PackageStatus>)
    ensures
        r@.len() == pkg_reqs.key_seq().len(),
        sorted_names(row_names(r@)),
        forall|k: Seq<char>| #[trigger]
            pkg_reqs@.dom().contains(k) <==> row_names(r@).contains(k),
        forall|i: int|
            0 <= i < r@.len() ==> summary_row(
                *colorizer,
                old_vers@,
                new_vers@,
                r@[i].name@,
                #[trigger] r@[i],
            ),
        forall|i: int|
            0 <= i < r@.len() && old_vers@.dom().contains(r@[i].name@) && new_vers@.dom().contains(
                r@[i].name@,
            ) ==> ((#[trigger] r@[i]).status.icon == Icon::Done <==> semver_order(
                old_vers@[r@[i].name@]@,
                new_vers@[r@[i].name@]@,
            ) >= 0),
{
    let names = pkg_reqs.names_in_order();
    let ghost ns = crate::args::strs(names@);
    let n = names.len();
    let mut rows: Vec<PackageStatus> = Vec::new();
    let mut i: usize = 0;
    while i < n
        invariant
            n == names@.len(),
            ns == crate::args::strs(names@),
            i <= n,
            rows@.len() == i,
            forall|j: int| 0 <= j < i ==> (#[trigger] rows@[j]).name@ == ns[j],
            forall|j: int|
                0 <= j < i ==> summary_row(
                    *colorizer,
                    old_vers@,
                    new_vers@,
                    rows@[j].name@,
                    #[trigger] rows@[j],
                ),
        decreases n - i,
    {
        let name = &names[i];
        let old_ver = old_cell(colorizer, old_vers, name.as_str());
        let old = old_vers.get(name.as_str());
        let new = new_vers.get(name.as_str());
        let current = match (old, new) {
            (Some(o), Some(v)) => !o.lt(v),
            _ => false,
        };
        let new_ver = match new {
            None => Cell::Icon(colorizer.unknown_icon()),
            Some(v) => if current {
                Cell::Icon(colorizer.none_icon())
            } else {
                Cell::Text(v.to_string())
            },
        };
        let status = if current {
            colorizer.ok_icon()
        } else {
            colorizer.todo_icon()
        };
        rows.push(PackageStatus { name: String::from_str(name.as_str()), old_ver, new_ver, status });
        i = i + 1;
    }
    assert(row_names(rows@) =~= ns);
    rows
}

/// The status icon of an installation.
pub open spec fn status_icon(c: Colorizer, status: InstallStatus) -> StyledIcon {
    match status {
        InstallStatus::Installed => StyledIcon { icon: Icon::New, colored: c.spec_colors() },
        InstallStatus::Updated => StyledIcon { icon: Icon::Done, colored: c.spec_colors() },
        InstallStatus::Failed => StyledIcon { icon: Icon::Failure, colored: c.spec_colors() },
    }
}

/// The installation report's row for `k`: the installed and latest versions
/// (nothing and unknown when missing), and the outcome.
pub open spec fn report_row(
    c: Colorizer,
    old: Map<Seq<char>, SemVer>,
    new: Map<Seq<char>, SemVer>,
    k: Seq<char>,
    status: InstallStatus,
    row: PackageStatus,
) -> bool {
    &&& row.name@ == k
    &&& row.old_ver@ == old_version_cell(old, k)
    &&& row.new_ver@ == if new.dom().contains(k) {
        CellView::Text(version_text(new[k]@))
    } else {
        CellView::Icon(StyledIcon { icon: Icon::Unknown, colored: c.spec_colors() })
    }
    &&& row.status == status_icon(c, status)
}

/// The rows of the installation report, one per package, in increasing
/// order of the names.
pub fn install_report_rows(
    colorizer: &Colorizer,
    install_report: &StringMap<InstallStatus>,
    new_vers: &StringMap<SemVer>,
    old_vers: &StringMap<SemVer>,
) -> (r: Vec<PackageStatus>)
    ensures
        r@.len() == install_report.key_seq().len(),
        sorted_names(row_names(r@)),
        forall|k: Seq<char>| #[trigger]
            install_report@.dom().contains(k) <==> row_names(r@).contains(k),
        forall|i: int|
            0 <= i < r@.len() ==> report_row(
                *colorizer,
                old_vers@,
                new_vers@,
                r@[i].name@,
                install_report@[r@[i].name@],
                #[trigger] r@[i],
            ),
{
    let names = install_report.names_in_order();
    let ghost ns = crate::args::strs(names@);
    let n = names.len();
    let mut rows: Vec<PackageStatus> = Vec::new();
    let mut i: usize = 0;
    while i < n
        invariant
            n == names@.len(),
            ns == crate::args::strs(names@),
            forall|k: Seq<char>| #[trigger]
                install_report@.dom().contains(k) <==> ns.contains(k),
            i <= n,
            rows@.len() == i,
            forall|j: int| 0 <= j < i ==> (#[trigger] rows@[j]).name@ == ns[j],
            forall|j: int|
                0 <= j < i ==> report_row(
                    *colorizer,
                    old_vers@,
                    new_vers@,
                    rows@[j].name@,
                    install_report@[rows@[j].name@],
                    #[trigger] rows@[j],
                ),
        decreases n - i,
    {
        let name = &names[i];
        assert(ns[i as int] == name@);
        assert(ns.contains(name@));
        let st = match install_report.get(name.as_str()) {
            Some(st) => *st,
            None => {
                proof {
                    assert(false);
                }
                InstallStatus::Failed
            },
        };
        let old_ver = old_cell(colorizer, old_vers, name.as_str());
        let new_ver = match new_vers.get(name.as_str()) {
            Some(v) => Cell::Text(v.to_string()),
            None => Cell::Icon(colorizer.unknown_icon()),
        };
        let status = match st {
            InstallStatus::Installed => colorizer.new_icon(),
            InstallStatus::Updated => colorizer.ok_icon(),
            InstallStatus::Failed => colorizer.err_icon(),
        };
        rows.push(PackageStatus { name: String::from_str(name.as_str()), old_ver, new_ver, status });
        i = i + 1;
    }
    assert(row_names(rows@) =~= ns);
    rows
}

} // verus!
