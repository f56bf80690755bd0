//! What is configured for one package.

use vstd::prelude::*;

use crate::cli::BinstallChoice;
use crate::string_map::StringMap;
use crate::version::VersionReq;

verus! {

/// The default of `default-features`: `true`.
pub fn serde_default_true() -> (r: bool)
    ensures
        r,
{
    true
}

/// Package requirement with additional options set.
///
/// See <https://doc.rust-lang.org/cargo/reference/specifying-dependencies.html>.
#[derive(Debug, PartialEq, Eq)]
pub struct DetailedPackageReq {
    pub version: VersionReq,
    pub default_features: bool,
    pub all_features: bool,
    pub features: Vec<String>,
    pub index: Option<String>,
    pub registry: Option<String>,
    pub git: Option<String>,
    pub branch: Option<String>,
    pub tag: Option<String>,
    pub rev: Option<String>,
    pub path: Option<String>,
    pub bins: Vec<String>,
    pub all_bins: bool,
    pub examples: Vec<String>,
    pub all_examples: bool,
    pub force: bool,
    pub ignore_rust_version: bool,
    pub frozen: bool,
    pub locked: bool,
    pub offline: bool,
    /// Additional arguments passed between the last option set here and the
    /// `--` that precedes the package name.
    pub extra_arguments: Vec<String>,
    /// Environment variables set for the installing process.
    pub environment: StringMap<String>,
    /// Do the same as the global `--skip-check` but only for this package.
    pub skip_check: bool,
    /// Do the same as the global `--no-fail-fast` but only for this package.
    pub no_fail_fast: bool,
    /// Do the same as the global `--binstall` but only for this package.
    pub binstall: Option<BinstallChoice>,
}

/// Every option but the version requirement is at its default.
pub open spec fn has_default_options(r: DetailedPackageReq) -> bool {
    &&& r.default_features
    &&& !r.all_features
    &&& r.features@.len() == 0
    &&& r.index is None
    &&& r.registry is None
    &&& r.git is None
    &&& r.branch is None
    &&& r.tag is None
    &&& r.rev is None
    &&& r.path is None
    &&& r.bins@.len() == 0
    &&& !r.all_bins
    &&& r.examples@.len() == 0
    &&& !r.all_examples
    &&& !r.force
    &&& !r.ignore_rust_version
    &&& !r.frozen
    &&& !r.locked
    &&& !r.offline
    &&& r.extra_arguments@.len() == 0
    &&& r.environment@ == Map::<Seq<char>, String>::empty()
    &&& !r.skip_check
    &&& !r.no_fail_fast
    &&& r.binstall is None
}

/// Whether the version check is skipped for a package: asked for, or implied
/// by a source that is not a registry.
pub open spec fn spec_effective_skip_check(r: DetailedPackageReq) -> bool {
    r.skip_check || r.path is Some || r.git is Some || r.branch is Some || r.tag is Some
        || r.rev is Some
}

impl DetailedPackageReq {
    /// The requirement `version` with every option at its default.
    pub fn with_version(version: VersionReq) -> (r: DetailedPackageReq)
        ensures
            r.version == version,
            has_default_options(r),
    {
        DetailedPackageReq {
            version,
            default_features: serde_default_true(),
            all_features: false,
            features: Vec::new(),
            index: None,
            registry: None,
            git: None,
            branch: None,
            tag: None,
            rev: None,
            path: None,
            bins: Vec::new(),
            all_bins: false,
            examples: Vec::new(),
            all_examples: false,
            force: false,
            ignore_rust_version: false,
            frozen: false,
            locked: false,
            offline: false,
            extra_arguments: Vec::new(),
            environment: StringMap::new(),
            skip_check: false,
            no_fail_fast: false,
            binstall: None,
        }
    }

    /// Returns whether the package should be version-checked beyond only the
    /// raw `skip_check` element by taking other fields into consideration.
    pub fn effective_skip_check(&self) -> (r: bool)
        ensures
            r == spec_effective_skip_check(*self),
    {
        self.skip_check || self.path.is_some() || self.git.is_some() || self.branch.is_some()
            || self.tag.is_some() || self.rev.is_some()
    }

    /// The detailed form of a configured requirement.
    pub fn from_requirement(pkg: PackageRequirement) -> (r: DetailedPackageReq)
        ensures
            detailed_of(pkg, r),
    {
        match pkg {
            PackageRequirement::Simple(version) => DetailedPackageReq::with_version(version),
            PackageRequirement::Detailed(det) => *det,
        }
    }
}

impl Default for DetailedPackageReq {
    fn default() -> (r: DetailedPackageReq)
        ensures
            r.version@ == "*"@,
            has_default_options(r),
    {
        DetailedPackageReq::with_version(VersionReq::star())
    }
}

/// Represents the requirement setting configured for a package.
#[derive(Debug, PartialEq, Eq)]
pub enum PackageRequirement {
    /// Simple form: only a SemVer requirement string.
    Simple(VersionReq),
    /// Detailed form: all supported options made available.
    Detailed(Box<DetailedPackageReq>),
}

/// The requirement configured for a package, by its shorter name.
pub type Package = PackageRequirement;

/// `d` is the detailed form of `p`.
pub open spec fn detailed_of(p: PackageRequirement, d: DetailedPackageReq) -> bool {
    match p {
        PackageRequirement::Simple(v) => d.version == v && has_default_options(d),
        PackageRequirement::Detailed(b) => d == *b,
    }
}

/// The simple requirement `*`.
pub open spec fn is_simple_star(p: PackageRequirement) -> bool {
    p matches PackageRequirement::Simple(v) && v@ == "*"@
}

impl PackageRequirement {
    /// Convenience shortcut for simple and star version requirement package.
    pub fn simple_star() -> (r: PackageRequirement)
        ensures
            is_simple_star(r),
    {
        proof {
            reveal_strlit("*");
        }
        PackageRequirement::Simple(VersionReq::star())
    }
}

} // verus!
