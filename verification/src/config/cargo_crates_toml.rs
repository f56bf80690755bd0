//! Cargo's record of installed packages: `$CARGO_HOME/.crates.toml`.

use vstd::prelude::*;

use super::package::PackageRequirement;
use super::user_config::{self_name, UserConfig, SELF_NAME};
use crate::string_map::StringMap;
use crate::text::{seq_lt, str_lt, split_first, split_once, str_eq, trim_end_char, trim_end_matches, trim_start_char, trim_start_matches, reversed};
use crate::version::{pinned_req_text, ver_to_req, Op, SemVer, VersionReq, VersionView, semver_order, semver_parse};

verus! {

/// What `url::Url::parse` yields for a text, as its serialization.
pub uninterp spec fn url_serialization(text: Seq<char>) -> Option<Seq<char>>;

/// Calls `url::Url::parse` and returns the serialization of the result.
///
/// Trusted: the result is what `url_serialization` names for the text.
#[verifier::external_body]
fn url_parse(s: &str) -> (r: Option<String>)
    ensures
        r matches Some(t) ==> url_serialization(s@) == Some(t@),
        r is None ==> url_serialization(s@) is None,
{
    match url::Url::parse(s) {
        Ok(u) => Some(u.as_str().to_string()),
        Err(_) => None,
    }
}

/// Why an entry of `.crates.toml` could not be read.
#[derive(Clone, Copy, Debug, PartialEq, Eq, Structural)]
pub enum CrateEntryError {
    MissingVersion,
    InvalidVersion,
    MissingSource,
    UnsupportedSourceKind,
    MissingSourcePath,
    InvalidUrl,
}

/// Kinds of package sources.
#[derive(Clone, Copy, Debug, PartialEq, Eq, Structural)]
pub enum SourceKind {
    Git,
    Path,
    Registry,
    SparseRegistry,
}

/// The kind that a source protocol names.
pub open spec fn source_kind_named(s: Seq<char>) -> Option<SourceKind> {
    if s == "git"@ {
        Some(SourceKind::Git)
    } else if s == "path"@ {
        Some(SourceKind::Path)
    } else if s == "registry"@ {
        Some(SourceKind::Registry)
    } else if s == "sparse"@ {
        Some(SourceKind::SparseRegistry)
    } else {
        None
    }
}

impl SourceKind {
    /// Reads `git`, `path`, `registry` or `sparse`.
    pub fn from_str(s: &str) -> (r: Result<SourceKind, CrateEntryError>)
        ensures
            r matches Ok(k) ==> source_kind_named(s@) == Some(k),
            r matches Err(e) ==> source_kind_named(s@) is None && e
                == CrateEntryError::UnsupportedSourceKind,
    {
        proof {
            reveal_strlit("git");
            reveal_strlit("path");
            reveal_strlit("registry");
            reveal_strlit("sparse");
            assert("git"@.len() != "path"@.len());
            assert("git"@.len() != "registry"@.len());
            assert("git"@.len() != "sparse"@.len());
            assert("path"@.len() != "registry"@.len());
            assert("path"@.len() != "sparse"@.len());
            assert("registry"@.len() != "sparse"@.len());
        }
        if str_eq(s, "git") {
            Ok(SourceKind::Git)
        } else if str_eq(s, "path") {
            Ok(SourceKind::Path)
        } else if str_eq(s, "registry") {
            Ok(SourceKind::Registry)
        } else if str_eq(s, "sparse") {
            Ok(SourceKind::SparseRegistry)
        } else {
            Err(CrateEntryError::UnsupportedSourceKind)
        }
    }
}

/// Where a package was installed from.
#[derive(Debug, PartialEq, Eq)]
pub struct PackageSource {
    pub kind: SourceKind,
    /// The location, as `url` serializes it.
    pub url: String,
}

/// A source's kind and location read from `KIND+URL`.
pub open spec fn source_parse(s: Seq<char>) -> Result<(SourceKind, Seq<char>), CrateEntryError> {
    let (kind_text, rest) = split_first(s, '+');
    match source_kind_named(kind_text) {
        None => Err(CrateEntryError::UnsupportedSourceKind),
        Some(kind) => match rest {
            None => Err(CrateEntryError::MissingSourcePath),
            Some(u) => match url_serialization(u) {
                None => Err(CrateEntryError::InvalidUrl),
                Some(url) => Ok((kind, url)),
            },
        },
    }
}

impl PackageSource {
    /// Reads `KIND+URL`, splitting at the first `+`.
    pub fn from_str(s: &str) -> (r: Result<PackageSource, CrateEntryError>)
        ensures
            r matches Ok(src) ==> source_parse(s@) == Ok::<(SourceKind, Seq<char>), CrateEntryError>(
                (src.kind, src.url@),
            ),
            r matches Err(e) ==> source_parse(s@) == Err::<(SourceKind, Seq<char>), CrateEntryError>(e),
    {
        let (kind_text, rest) = split_once(s, '+');
        let kind = SourceKind::from_str(kind_text.as_str())?;
        match rest {
            None => Err(CrateEntryError::MissingSourcePath),
            Some(u) => match url_parse(u.as_str()) {
                None => Err(CrateEntryError::InvalidUrl),
                Some(url) => Ok(PackageSource { kind, url }),
            },
        }
    }
}

/// Representation of keys of the `v1` table of `.crates.toml`:
/// `NAME VERSION (SOURCE)`.
#[derive(Debug, PartialEq, Eq)]
pub struct CargoCratesPackage {
    pub name: String,
    pub version: SemVer,
    pub source: PackageSource,
}

/// The parts read from a `.crates.toml` key: the text splits at the first
/// two spaces into name, version and source, and the source loses its
/// enclosing parentheses.
pub open spec fn entry_parse(s: Seq<char>) -> Result<
    (Seq<char>, VersionView, SourceKind, Seq<char>),
    CrateEntryError,
> {
    let (name, rest) = split_first(s, ' ');
    match rest {
        None => Err(CrateEntryError::MissingVersion),
        Some(rest) => {
            let (version_text, source) = split_first(rest, ' ');
            match semver_parse(version_text) {
                None => Err(CrateEntryError::InvalidVersion),
                Some(version) => match source {
                    None => Err(CrateEntryError::MissingSource),
                    Some(source) => match source_parse(
                        trim_end_char(trim_start_char(source, '('), ')'),
                    ) {
                        Err(e) => Err(e),
                        Ok((kind, url)) => Ok((name, version, kind, url)),
                    },
                },
            }
        },
    }
}

impl CargoCratesPackage {
    /// Reads `NAME VERSION (SOURCE)`.
    pub fn from_str(s: &str) -> (r: Result<CargoCratesPackage, CrateEntryError>)
        ensures
            r matches Ok(p) ==> entry_parse(s@) == Ok::<
                (Seq<char>, VersionView, SourceKind, Seq<char>),
                CrateEntryError,
            >((p.name@, p.version@, p.source.kind, p.source.url@)),
            r matches Err(e) ==> entry_parse(s@) == Err::<
                (Seq<char>, VersionView, SourceKind, Seq<char>),
                CrateEntryError,
            >(e),
    {
        let (name, rest) = split_once(s, ' ');
        let rest = match rest {
            None => {
                return Err(CrateEntryError::MissingVersion);
            },
            Some(rest) => rest,
        };
        let (version_text, source) = split_once(rest.as_str(), ' ');
        let version = match SemVer::parse(version_text.as_str()) {
            None => {
                return Err(CrateEntryError::InvalidVersion);
            },
            Some(v) => v,
        };
        let source = match source {
            None => {
                return Err(CrateEntryError::MissingSource);
            },
            Some(source) => source,
        };
        let opened = trim_start_matches(source.as_str(), '(');
        let inner = trim_end_matches(opened.as_str(), ')');
        let source = PackageSource::from_str(inner.as_str())?;
        Ok(CargoCratesPackage { name, version, source })
    }
}

/// The parts of an entry, as [`entry_parse`] gives them.
pub open spec fn entry_parts(p: CargoCratesPackage) -> (Seq<char>, VersionView, SourceKind, Seq<char>) {
    (p.name@, p.version@, p.source.kind, p.source.url@)
}

/// Rank of a source kind in the order of the kinds' declaration.
pub open spec fn kind_rank(k: SourceKind) -> int {
    match k {
        SourceKind::Git => 0,
        SourceKind::Path => 1,
        SourceKind::Registry => 2,
        SourceKind::SparseRegistry => 3,
    }
}

/// Whether `a` comes at or before `b` in the order of entries of the same
/// name: by version in `semver`'s order, then by source kind, then by
/// location.
pub open spec fn entry_le(a: CargoCratesPackage, b: CargoCratesPackage) -> bool {
    let o = semver_order(a.version@, b.version@);
    if o != 0 {
        o < 0
    } else if a.source.kind != b.source.kind {
        kind_rank(a.source.kind) < kind_rank(b.source.kind)
    } else {
        !seq_lt(b.source.url@, a.source.url@)
    }
}

/// Whether an entry is imported into a configuration: local packages only
/// with `keep_local`, this tool only with `keep_self`.
pub open spec fn kept_entry(p: CargoCratesPackage, keep_self: bool, keep_local: bool) -> bool {
    &&& (keep_local || p.source.kind != SourceKind::Path)
    &&& (keep_self || p.name@ != self_name())
}

/// The kept entries by name; where a name occurs more than once, the entry
/// that is greatest in the order of [`entry_le`] is kept (the later one on a
/// tie).
pub open spec fn best_entries(
    es: Seq<(CargoCratesPackage, Vec<String>)>,
    keep_self: bool,
    keep_local: bool,
) -> Map<Seq<char>, CargoCratesPackage>
    decreases es.len(),
{
    if es.len() == 0 {
        Map::empty()
    } else {
        let m = best_entries(es.drop_last(), keep_self, keep_local);
        let e = es.last().0;
        if kept_entry(e, keep_self, keep_local) && (!m.dom().contains(e.name@) || entry_le(
            m[e.name@],
            e,
        )) {
            m.insert(e.name@, e)
        } else {
            m
        }
    }
}

/// Versions by name, from the greatest entry of each name.
pub open spec fn name_versions(es: Seq<(CargoCratesPackage, Vec<String>)>) -> Map<
    Seq<char>,
    VersionView,
> {
    let m = best_entries(es, true, true);
    Map::new(|k: Seq<char>| m.dom().contains(k), |k: Seq<char>| m[k].version@)
}

/// The requirement imported for an entry: `*`, or its version pinned with
/// the operator.
pub open spec fn imported_req(p: CargoCratesPackage, op: Option<Op>) -> Seq<char> {
    match op {
        None => "*"@,
        Some(o) => pinned_req_text(p.version@, o),
    }
}

/// Requirement texts by name for the kept entries, from the greatest kept
/// entry of each name.
pub open spec fn imported_reqs(
    es: Seq<(CargoCratesPackage, Vec<String>)>,
    op: Option<Op>,
    keep_self: bool,
    keep_local: bool,
) -> Map<Seq<char>, Seq<char>> {
    let m = best_entries(es, keep_self, keep_local);
    Map::new(|k: Seq<char>| m.dom().contains(k), |k: Seq<char>| imported_req(m[k], op))
}

/// The simple requirement whose text is `t`.
pub open spec fn is_simple_req(p: PackageRequirement, t: Seq<char>) -> bool {
    match p {
        PackageRequirement::Simple(v) => v@ == t,
        PackageRequirement::Detailed(_) => false,
    }
}

/// A configuration whose packages are exactly the requirements `reqs`, each
/// in simple form, with no defaults section.
pub open spec fn simple_config_of(c: UserConfig, reqs: Map<Seq<char>, Seq<char>>) -> bool {
    &&& c.packages@.dom() == reqs.dom()
    &&& forall|k: Seq<char>| #[trigger]
        c.packages@.dom().contains(k) ==> is_simple_req(c.packages@[k], reqs[k])
    &&& c.defaults is None
}

/// The names of the entries occur in [`name_versions`], and only they.
pub proof fn lemma_name_versions_dom(es: Seq<(CargoCratesPackage, Vec<String>)>, k: Seq<char>)
    ensures
        name_versions(es).dom().contains(k) <==> exists|i: int|
            0 <= i < es.len() && (#[trigger] es[i]).0.name@ == k,
    decreases es.len(),
{
    if es.len() > 0 {
        let pre = es.drop_last();
        lemma_name_versions_dom(pre, k);
        if name_versions(pre).dom().contains(k) {
            let i = choose|i: int| 0 <= i < pre.len() && (#[trigger] pre[i]).0.name@ == k;
            assert(es[i] == pre[i]);
        }
        if exists|i: int| 0 <= i < es.len() && (#[trigger] es[i]).0.name@ == k {
            let i = choose|i: int| 0 <= i < es.len() && (#[trigger] es[i]).0.name@ == k;
            if i < es.len() - 1 {
                assert(pre[i] == es[i]);
            }
        }
    }
}

fn kind_rank_exec(k: SourceKind) -> (r: u8)
    ensures
        r == kind_rank(k),
{
    match k {
        SourceKind::Git => 0,
        SourceKind::Path => 1,
        SourceKind::Registry => 2,
        SourceKind::SparseRegistry => 3,
    }
}

/// Whether `a` comes at or before `b` among entries of the same name.
fn entry_le_exec(a: &CargoCratesPackage, b: &CargoCratesPackage) -> (r: bool)
    ensures
        r == entry_le(*a, *b),
{
    let o = a.version.order(&b.version);
    if o != 0 {
        o < 0
    } else if a.source.kind != b.source.kind {
        kind_rank_exec(a.source.kind) < kind_rank_exec(b.source.kind)
    } else {
        !str_lt(b.source.url.as_str(), a.source.url.as_str())
    }
}

/// Representation of the `$CARGO_HOME/.crates.toml` Cargo-managed save file.
///
/// The entries are held in the order in which they were read.
#[derive(Debug, PartialEq, Eq)]
pub struct CargoCratesToml {
    pub package_bins: Vec<(CargoCratesPackage, Vec<String>)>,
}

impl Default for CargoCratesToml {
    fn default() -> (r: CargoCratesToml)
        ensures
            r.package_bins@.len() == 0,
    {
        CargoCratesToml::empty()
    }
}

impl CargoCratesToml {
    /// The default name for the save file in Cargo's home.
    pub const FILE_NAME: &'static str = ".crates.toml";

    /// A record of no package.
    pub fn empty() -> (r: CargoCratesToml)
        ensures
            r.package_bins@.len() == 0,
    {
        CargoCratesToml { package_bins: Vec::new() }
    }

    /// Reads the entries of the `v1` table, in order: each key is parsed as
    /// with [`CargoCratesPackage::from_str`]; the first key that cannot be
    /// read is returned with the reason.
    pub fn from_table(table: Vec<(String, Vec<String>)>) -> (r: Result<
        CargoCratesToml,
        (String, CrateEntryError),
    >)
        ensures
            r matches Ok(t) ==> {
                &&& t.package_bins@.len() == table@.len()
                &&& forall|i: int|
                    0 <= i < table@.len() ==> entry_parse((#[trigger] table@[i]).0@) == Ok::<
                        (Seq<char>, VersionView, SourceKind, Seq<char>),
                        CrateEntryError,
                    >(entry_parts(t.package_bins@[i].0)) && t.package_bins@[i].1 == table@[i].1
            },
            r matches Err((key, e)) ==> exists|i: int|
                0 <= i < table@.len() && (#[trigger] table@[i]).0@ == key@ && entry_parse(key@)
                    == Err::<(Seq<char>, VersionView, SourceKind, Seq<char>), CrateEntryError>(e)
                    && forall|j: int| 0 <= j < i ==> entry_parse((#[trigger] table@[j]).0@) is Ok,
            r is Ok <==> forall|i: int|
                0 <= i < table@.len() ==> entry_parse((#[trigger] table@[i]).0@) is Ok,
    {
        let ghost tab = table@;
        let mut rest = reversed(table);
        let mut out: Vec<(CargoCratesPackage, Vec<String>)> = Vec::new();
        let n = rest.len();
        let mut i: usize = 0;
        while i < n
            invariant
                n == tab.len(),
                tab == table@,
                i <= n,
                rest@ == tab.subrange(i as int, n as int).reverse(),
                out@.len() == i,
                forall|j: int|
                    0 <= j < i ==> entry_parse((#[trigger] tab[j]).0@) == Ok::<
                        (Seq<char>, VersionView, SourceKind, Seq<char>),
                        CrateEntryError,
                    >(entry_parts(out@[j].0)) && out@[j].1 == tab[j].1,
            decreases n - i,
        {
            let (key, bins) = rest.pop().unwrap();
            assert(tab[i as int] == (key, bins));
            match CargoCratesPackage::from_str(key.as_str()) {
                Ok(pkg) => {
                    out.push((pkg, bins));
                },
                Err(e) => {
                    proof {
                        let ii = i as int;
                        assert(tab[ii].0@ == key@);
                        assert(entry_parse(tab[ii].0@) is Err);
                        assert(0 <= ii < tab.len() && tab[ii].0@ == key@ && entry_parse(key@)
                            == Err::<(Seq<char>, VersionView, SourceKind, Seq<char>), CrateEntryError>(e)
                            && forall|j: int| 0 <= j < ii ==> entry_parse((#[trigger] tab[j]).0@) is Ok);
                    }
                    return Err((key, e));
                },
            }
            i = i + 1;
            assert(rest@ =~= tab.subrange(i as int, n as int).reverse());
        }
        Ok(CargoCratesToml { package_bins: out })
    }

    /// Consumes the document and returns the set of installed package names.
    pub fn into_names(self) -> (r: StringMap<()>)
        ensures
            r@.dom() == name_versions(self.package_bins@).dom(),
    {
        let ghost es = self.package_bins@;
        let mut rest = reversed(self.package_bins);
        let mut out: StringMap<()> = StringMap::new();
        let n = rest.len();
        let mut i: usize = 0;
        while i < n
            invariant
                n == es.len(),
                i <= n,
                rest@ == es.subrange(i as int, n as int).reverse(),
                out@.dom() == name_versions(es.subrange(0, i as int)).dom(),
            decreases n - i,
        {
            let (pkg, _bins) = rest.pop().unwrap();
            assert(es[i as int].0 == pkg);
            out.insert(pkg.name, ());
            proof {
                assert(es.subrange(0, i + 1).drop_last() =~= es.subrange(0, i as int));
                assert(out@.dom() =~= name_versions(es.subrange(0, i + 1)).dom());
            }
            i = i + 1;
            assert(rest@ =~= es.subrange(i as int, n as int).reverse());
        }
        assert(es.subrange(0, n as int) =~= es);
        out
    }

    /// The kept entries by name, the greatest entry of each name winning.
    fn best_entries_of(self, keep_self: bool, keep_local: bool) -> (r: StringMap<
        CargoCratesPackage,
    >)
        ensures
            r@ == best_entries(self.package_bins@, keep_self, keep_local),
    {
        let ghost es = self.package_bins@;
        let mut rest = reversed(self.package_bins);
        let mut out: StringMap<CargoCratesPackage> = StringMap::new();
        let n = rest.len();
        let mut i: usize = 0;
        while i < n
            invariant
                n == es.len(),
                i <= n,
                rest@ == es.subrange(i as int, n as int).reverse(),
                out@ == best_entries(es.subrange(0, i as int), keep_self, keep_local),
            decreases n - i,
        {
            let (pkg, _bins) = rest.pop().unwrap();
            assert(es[i as int].0 == pkg);
            proof {
                assert(es.subrange(0, i + 1).drop_last() =~= es.subrange(0, i as int));
            }
            let local = match pkg.source.kind {
                SourceKind::Path => true,
                _ => false,
            };
            let is_self = str_eq(pkg.name.as_str(), SELF_NAME);
            if (keep_local || !local) && (keep_self || !is_self) {
                let replace = match out.get(pkg.name.as_str()) {
                    None => true,
                    Some(prev) => entry_le_exec(prev, &pkg),
                };
                if replace {
                    let name = String::from_str(pkg.name.as_str());
                    out.insert(name, pkg);
                }
            }
            i = i + 1;
            assert(rest@ =~= es.subrange(i as int, n as int).reverse());
        }
        assert(es.subrange(0, n as int) =~= es);
        out
    }

    /// Consumes the document and returns the installed package names to
    /// versions; where a name occurs more than once, the version of its
    /// greatest entry.
    pub fn into_name_versions(self) -> (r: StringMap<SemVer>)
        ensures
            r@.dom() == name_versions(self.package_bins@).dom(),
            forall|k: Seq<char>| #[trigger]
                r@.dom().contains(k) ==> r@[k]@ == name_versions(self.package_bins@)[k],
    {
        let best = self.best_entries_of(true, true);
        let ghost bm = best@;
        let ghost ks = best.key_seq();
        let ghost vs = best.value_seq();
        let entries = best.into_entries();
        let ghost es = entries@;
        let mut rest = reversed(entries);
        let mut out: StringMap<SemVer> = StringMap::new();
        let n = rest.len();
        let mut i: usize = 0;
        while i < n
            invariant
                n == es.len(),
                n == ks.len(),
                i <= n,
                rest@ == es.subrange(i as int, n as int).reverse(),
                forall|j: int| 0 <= j < n ==> (#[trigger] es[j]).0@ == ks[j] && es[j].1 == vs[j],
                forall|j1: int, j2: int|
                    0 <= j1 < n && 0 <= j2 < n && j1 != j2 ==> #[trigger] ks[j1] != #[trigger] ks[j2],
                forall|k: Seq<char>| #[trigger]
                    out@.dom().contains(k) <==> exists|j: int| 0 <= j < i && ks[j] == k,
                forall|j: int| 0 <= j < i ==> out@[#[trigger] ks[j]]@ == vs[j].version@,
            decreases n - i,
        {
            let (name, pkg) = rest.pop().unwrap();
            let ghost at = i as int;
            assert(es[at] == (name, pkg));
            out.insert(name, pkg.version);
            i = i + 1;
            assert(rest@ =~= es.subrange(i as int, n as int).reverse());
            assert forall|k: Seq<char>| #[trigger] out@.dom().contains(k) <==> exists|j: int|
                0 <= j < i && ks[j] == k by {
                if k == ks[at] {
                    assert(0 <= at < i && ks[at] == k);
                }
            }
            assert forall|j: int| 0 <= j < i implies out@[#[trigger] ks[j]]@ == vs[j].version@ by {
                if j != at {
                    assert(ks[j] != ks[at]);
                }
            }
        }
        assert forall|k: Seq<char>| #[trigger] out@.dom().contains(k) == bm.dom().contains(k) by {
            if bm.dom().contains(k) {
                let j = choose|j: int| 0 <= j < ks.len() && ks[j] == k;
                assert(0 <= j < n && ks[j] == k);
            }
            if out@.dom().contains(k) {
                let j = choose|j: int| 0 <= j < i && ks[j] == k;
                assert(ks.contains(k));
            }
        }
        assert(out@.dom() =~= name_versions(self.package_bins@).dom());
        assert forall|k: Seq<char>| #[trigger] out@.dom().contains(k) implies out@[k]@
            == name_versions(self.package_bins@)[k] by {
            let j = choose|j: int| 0 <= j < i && ks[j] == k;
            assert(bm[ks[j]] == vs[j]);
        }
        out
    }

    /// Converts the record into a configuration of simple requirements: `*`
    /// when `op` is `None`, else each version pinned with `op`.
    ///
    /// The current crate is kept only if `keep_self`, locally-installed
    /// packages only if `keep_local`; where a name occurs more than once, the
    /// greatest kept entry of that name is used.
    fn into_config(self, op: Option<Op>, keep_self: bool, keep_local: bool) -> (r: UserConfig)
        ensures
            simple_config_of(r, imported_reqs(self.package_bins@, op, keep_self, keep_local)),
    {
        let best = self.best_entries_of(keep_self, keep_local);
        let ghost bm = best@;
        let ghost ks = best.key_seq();
        let ghost vs = best.value_seq();
        let entries = best.into_entries();
        let ghost es = entries@;
        let mut rest = reversed(entries);
        let mut out: StringMap<PackageRequirement> = StringMap::new();
        let n = rest.len();
        let mut i: usize = 0;
        while i < n
            invariant
                n == es.len(),
                n == ks.len(),
                i <= n,
                rest@ == es.subrange(i as int, n as int).reverse(),
                forall|j: int| 0 <= j < n ==> (#[trigger] es[j]).0@ == ks[j] && es[j].1 == vs[j],
                forall|j1: int, j2: int|
                    0 <= j1 < n && 0 <= j2 < n && j1 != j2 ==> #[trigger] ks[j1] != #[trigger] ks[j2],
                forall|k: Seq<char>| #[trigger]
                    out@.dom().contains(k) <==> exists|j: int| 0 <= j < i && ks[j] == k,
                forall|j: int|
                    0 <= j < i ==> is_simple_req(out@[#[trigger] ks[j]], imported_req(vs[j], op)),
            decreases n - i,
        {
            let (name, pkg) = rest.pop().unwrap();
            let ghost at = i as int;
            assert(es[at] == (name, pkg));
            let req = match op {
                None => VersionReq::star(),
                Some(o) => ver_to_req(&pkg.version, o),
            };
            out.insert(name, PackageRequirement::Simple(req));
            i = i + 1;
            assert(rest@ =~= es.subrange(i as int, n as int).reverse());
            assert forall|k: Seq<char>| #[trigger] out@.dom().contains(k) <==> exists|j: int|
                0 <= j < i && ks[j] == k by {
                if k == ks[at] {
                    assert(0 <= at < i && ks[at] == k);
                }
            }
            assert forall|j: int| 0 <= j < i implies is_simple_req(
                out@[#[trigger] ks[j]],
                imported_req(vs[j], op),
            ) by {
                if j != at {
                    assert(ks[j] != ks[at]);
                }
            }
        }
        assert forall|k: Seq<char>| #[trigger] out@.dom().contains(k) == bm.dom().contains(k) by {
            if bm.dom().contains(k) {
                let j = choose|j: int| 0 <= j < ks.len() && ks[j] == k;
                assert(0 <= j < n && ks[j] == k);
            }
            if out@.dom().contains(k) {
                let j = choose|j: int| 0 <= j < i && ks[j] == k;
                assert(ks.contains(k));
            }
        }
        let ghost reqs = imported_reqs(self.package_bins@, op, keep_self, keep_local);
        assert(out@.dom() =~= reqs.dom());
        assert forall|k: Seq<char>| #[trigger] out@.dom().contains(k) implies is_simple_req(
            out@[k],
            reqs[k],
        ) by {
            let j = choose|j: int| 0 <= j < i && ks[j] == k;
            assert(bm[ks[j]] == vs[j]);
        }
        UserConfig { packages: out, defaults: None }
    }

    /// Converts this toml document into a simple user config containing no
    /// particular version requirement, only stars are used.
    pub fn into_star_version_config(self, keep_self: bool, keep_local: bool) -> (r: UserConfig)
        ensures
            simple_config_of(r, imported_reqs(self.package_bins@, None, keep_self, keep_local)),
    {
        self.into_config(None, keep_self, keep_local)
    }

    /// Converts this toml document into a simple user config containing full
    /// and exact version requirements.
    pub fn into_exact_version_config(self, keep_self: bool, keep_local: bool) -> (r: UserConfig)
        ensures
            simple_config_of(
                r,
                imported_reqs(self.package_bins@, Some(Op::Exact), keep_self, keep_local),
            ),
    {
        self.into_config(Some(Op::Exact), keep_self, keep_local)
    }

    /// Converts this toml document into a simple user config containing
    /// compatible version requirements, i.e. with the caret operator.
    pub fn into_comp_version_config(self, keep_self: bool, keep_local: bool) -> (r: UserConfig)
        ensures
            simple_config_of(
                r,
                imported_reqs(self.package_bins@, Some(Op::Caret), keep_self, keep_local),
            ),
    {
        self.into_config(Some(Op::Caret), keep_self, keep_local)
    }

    /// Converts this toml document into a simple user config containing
    /// patch version requirements, i.e. with the tilde operator.
    pub fn into_patch_version_config(self, keep_self: bool, keep_local: bool) -> (r: UserConfig)
        ensures
            simple_config_of(
                r,
                imported_reqs(self.package_bins@, Some(Op::Tilde), keep_self, keep_local),
            ),
    {
        self.into_config(Some(Op::Tilde), keep_self, keep_local)
    }
}

} // verus!
