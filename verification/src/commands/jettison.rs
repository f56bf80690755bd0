//! The `jettison` command: which installed packages are not configured, and
//! the confirmation asked before removing them.

use vstd::prelude::*;

use crate::config::package::PackageRequirement;
use crate::config::user_config::{self_name, SELF_NAME};
use crate::string_map::{sorted_names, StringMap};
use crate::text::{reversed, str_eq};
use crate::version::{version_text, SemVer};

verus! {

/// The installed names that are not configured, this tool excepted.
pub open spec fn uninstall_names(installed: Set<Seq<char>>, configured: Set<Seq<char>>) -> Set<
    Seq<char>,
> {
    installed.filter(|k: Seq<char>| k != self_name() && !configured.contains(k))
}

/// Computes the package names that need uninstallation: all those installed
/// but not part of the user-configured ones, this tool excepted.
pub fn needing_uninstall(
    installed: StringMap<SemVer>,
    configured: &StringMap<PackageRequirement>,
) -> (r: StringMap<SemVer>)
    ensures
        r@.dom() == uninstall_names(installed@.dom(), configured@.dom()),
        forall|k: Seq<char>| #[trigger]
            r@.dom().contains(k) <==> (installed@.dom().contains(k) && k != self_name()
                && !configured@.dom().contains(k)),
        forall|k: Seq<char>| #[trigger] r@.dom().contains(k) ==> r@[k] == installed@[k],
{
    let ghost old_map = installed@;
    let mut installed = installed;
    installed.remove(SELF_NAME);
    let ghost trimmed = installed@;
    let ghost ks = installed.key_seq();
    let ghost vs = installed.value_seq();
    let entries = installed.into_entries();
    let ghost es = entries@;
    let mut rest = reversed(entries);
    let mut out: StringMap<SemVer> = StringMap::new();
    let n = rest.len();
    let mut i: usize = 0;
    while i < n
        invariant
            n == es.len(),
            n == ks.len(),
            i <= n,
            rest@ == es.subrange(i as int, n as int).reverse(),
            forall|j: int| 0 <= j < n ==> (#[trigger] es[j]).0@ == ks[j] && es[j].1 == vs[j],
            forall|j: int| 0 <= j < n ==> trimmed[#[trigger] ks[j]] == vs[j],
            forall|j: int| 0 <= j < n ==> trimmed.dom().contains(#[trigger] ks[j]),
            forall|k: Seq<char>| #[trigger] trimmed.dom().contains(k) ==> ks.contains(k),
            forall|j1: int, j2: int|
                0 <= j1 < n && 0 <= j2 < n && j1 != j2 ==> #[trigger] ks[j1] != #[trigger] ks[j2],
            forall|k: Seq<char>| #[trigger]
                out@.dom().contains(k) <==> exists|j: int|
                    0 <= j < i && ks[j] == k && !configured@.dom().contains(k),
            forall|j: int| 0 <= j < i && out@.dom().contains(#[trigger] ks[j]) ==> out@[ks[j]] == vs[j],
        decreases n - i,
    {
        let (name, version) = rest.pop().unwrap();
        let ghost at = i as int;
        assert(es[at] == (name, version));
        let ghost before = out@;
        if !configured.contains_key(name.as_str()) {
            out.insert(name, version);
        }
        proof {
            assert forall|k: Seq<char>| #[trigger] out@.dom().contains(k) <==> exists|j: int|
                0 <= j < i + 1 && ks[j] == k && !configured@.dom().contains(k) by {
                if k == ks[at] && !configured@.dom().contains(k) {
                    assert(0 <= at < i + 1 && ks[at] == k);
                }
                if exists|j: int| 0 <= j < i + 1 && ks[j] == k && !configured@.dom().contains(k) {
                    let j = choose|j: int| 0 <= j < i + 1 && ks[j] == k && !configured@.dom().contains(k);
                    if j < at {
                        assert(before.dom().contains(k));
                    }
                }
            }
            assert forall|j: int| 0 <= j < i + 1 && out@.dom().contains(#[trigger] ks[j]) implies out@[ks[j]] == vs[j] by {
                if j < at {
                    assert(ks[j] != ks[at]);
                }
            }
        }
        i = i + 1;
        assert(rest@ =~= es.subrange(i as int, n as int).reverse());
    }
    proof {
        assert forall|k: Seq<char>| #[trigger] out@.dom().contains(k) <==> uninstall_names(
            old_map.dom(),
            configured@.dom(),
        ).contains(k) by {
            if trimmed.dom().contains(k) {
                let j = choose|j: int| 0 <= j < ks.len() && ks[j] == k;
                assert(trimmed[ks[j]] == vs[j]);
            }
            if out@.dom().contains(k) {
                let j = choose|j: int| 0 <= j < i && ks[j] == k && !configured@.dom().contains(k);
                assert(trimmed.dom().contains(ks[j]));
            }
        }
        assert forall|k: Seq<char>| #[trigger] out@.dom().contains(k) implies out@[k] == old_map[k] by {
            let j = choose|j: int| 0 <= j < i && ks[j] == k && !configured@.dom().contains(k);
            assert(trimmed[ks[j]] == vs[j]);
        }
        assert(out@.dom() =~= uninstall_names(old_map.dom(), configured@.dom()));
    }
    out
}

/// A row of the uninstallation plan.
#[derive(Debug, PartialEq, Eq)]
pub struct PackageEntry {
    pub name: String,
    pub version: String,
}

/// The names of the plan's rows, in order.
pub open spec fn entry_names(rows: Seq<PackageEntry>) -> Seq<Seq<char>> {
    Seq::new(rows.len(), |i: int| rows[i].name@)
}

/// The rows of the uninstallation plan, one per package, in increasing order
/// of the names.
pub fn uninstallation_rows(to_uninstall: &StringMap<SemVer>) -> (r: Vec<PackageEntry>)
    ensures
        r@.len() == to_uninstall.key_seq().len(),
        sorted_names(entry_names(r@)),
        forall|k: Seq<char>| #[trigger]
            to_uninstall@.dom().contains(k) <==> entry_names(r@).contains(k),
        forall|i: int|
            0 <= i < r@.len() ==> (#[trigger] r@[i]).version@ == version_text(
                to_uninstall@[r@[i].name@]@,
            ),
{
    let names = to_uninstall.names_in_order();
    let ghost ns = crate::args::strs(names@);
    let n = names.len();
    let mut rows: Vec<PackageEntry> = Vec::new();
    let mut i: usize = 0;
    while i < n
        invariant
            n == names@.len(),
            ns == crate::args::strs(names@),
            forall|k: Seq<char>| #[trigger] to_uninstall@.dom().contains(k) <==> ns.contains(k),
            i <= n,
            rows@.len() == i,
            forall|j: int|
                0 <= j < i ==> (#[trigger] rows@[j]).name@ == ns[j] && rows@[j].version@
                    == version_text(to_uninstall@[rows@[j].name@]@),
        decreases n - i,
    {
        let name = &names[i];
        assert(ns[i as int] == name@);
        assert(ns.contains(name@));
        let version = match to_uninstall.get(name.as_str()) {
            Some(v) => v.to_string(),
            None => {
                proof {
                    assert(false);
                }
                String::new()
            },
        };
        rows.push(PackageEntry { name: String::from_str(name.as_str()), version });
        i = i + 1;
    }
    assert(entry_names(rows@) =~= ns);
    rows
}

/// Question asked before uninstalling.
pub fn log_confirmation() -> (r: &'static str)
    ensures
        r@ == "This will remove all the packages listed above: do you confirm? [Y/n]"@,
{
    "This will remove all the packages listed above: do you confirm? [Y/n]"
}

/// What an answer line means: `Some(true)` to abort (`n`), `Some(false)` to
/// proceed (empty or `y`), `None` to ask again.
pub open spec fn answer_of(line: Seq<char>) -> Option<bool> {
    if line.len() == 0 || line == "y"@ {
        Some(false)
    } else if line == "n"@ {
        Some(true)
    } else {
        None
    }
}

/// Reads one answer line to the confirmation question; the absence of any
/// further input proceeds.
pub fn confirmation_answer(line: &str) -> (r: Option<bool>)
    ensures
        r == answer_of(line@),
{
    proof {
        reveal_strlit("y");
        reveal_strlit("n");
    }
    if line.is_empty() || str_eq(line, "y") {
        Some(false)
    } else if str_eq(line, "n") {
        Some(true)
    } else {
        None
    }
}

} // verus!
