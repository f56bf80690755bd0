//! The user's configuration: configured packages and option defaults.

use vstd::prelude::*;

use super::package::{is_simple_star, PackageRequirement};
use crate::cli::{JettisonArgs, ShipArgs};
use crate::string_map::{without, StringMap};

verus! {

/// The name of this tool's own package.
pub const SELF_NAME: &'static str = "cargo-liner";

/// The name of this tool's own package, as characters.
pub open spec fn self_name() -> Seq<char> {
    "cargo-liner"@
}

/// Represents the user's configuration deserialized from its file.
#[derive(Debug, PartialEq, Eq)]
pub struct UserConfig {
    /// The name-to-setting map for the `packages` section of the config.
    pub packages: StringMap<PackageRequirement>,
    /// The option defaults section.
    pub defaults: Option<DefaultsSection>,
}

/// Represents the section of the configuration dedicated to setting CLI option
/// defaults.
#[derive(Clone, Copy, Debug, PartialEq, Eq, Structural)]
pub struct DefaultsSection {
    /// The sub-section supporting the `ship` command options.
    pub ship_cmd: ShipArgs,
    /// The sub-section supporting the `jettison` command options.
    pub jettison_cmd: JettisonArgs,
}

/// `new` is `old` after enabling (`sup`) or disabling self-updating: enabling
/// adds this tool with the requirement `*` unless it is already configured,
/// disabling removes it.
pub open spec fn self_updated(
    old: Map<Seq<char>, PackageRequirement>,
    new: Map<Seq<char>, PackageRequirement>,
    sup: bool,
) -> bool {
    if sup {
        if old.dom().contains(self_name()) {
            new == old
        } else {
            &&& new.dom() == old.dom().insert(self_name())
            &&& is_simple_star(new[self_name()])
            &&& forall|k: Seq<char>| #[trigger] old.dom().contains(k) ==> new[k] == old[k]
        }
    } else {
        new == old.remove(self_name())
    }
}

/// `new` is `old` after enabling (`upo`) or disabling the update of other
/// packages: disabling keeps only this tool, with its configured requirement
/// or `*`.
pub open spec fn others_updated(
    old: Map<Seq<char>, PackageRequirement>,
    new: Map<Seq<char>, PackageRequirement>,
    upo: bool,
) -> bool {
    if upo {
        new == old
    } else {
        &&& new.dom() == Set::<Seq<char>>::empty().insert(self_name())
        &&& if old.dom().contains(self_name()) {
            new[self_name()] == old[self_name()]
        } else {
            is_simple_star(new[self_name()])
        }
    }
}

/// The order of the packages after enabling (`sup`) or disabling
/// self-updating: this tool comes last when it is added, and the other
/// packages keep their order.
pub open spec fn self_updated_order(
    old: Map<Seq<char>, PackageRequirement>,
    ks: Seq<Seq<char>>,
    sup: bool,
) -> Seq<Seq<char>> {
    if sup {
        if old.dom().contains(self_name()) {
            ks
        } else {
            ks.push(self_name())
        }
    } else {
        without(ks, self_name())
    }
}

/// The order of the packages after enabling (`upo`) or disabling the update
/// of other packages.
pub open spec fn others_updated_order(ks: Seq<Seq<char>>, upo: bool) -> Seq<Seq<char>> {
    if upo {
        ks
    } else {
        seq![self_name()]
    }
}

impl Default for UserConfig {
    fn default() -> (r: UserConfig)
        ensures
            r.packages@ == Map::<Seq<char>, PackageRequirement>::empty(),
            r.defaults is None,
    {
        UserConfig::empty()
    }
}

impl UserConfig {
    /// The default name for the configuration file in Cargo's home.
    pub const FILE_NAME: &'static str = "liner.toml";

    /// A configuration with no package and no defaults section.
    pub fn empty() -> (r: UserConfig)
        ensures
            r.packages@ == Map::<Seq<char>, PackageRequirement>::empty(),
            r.defaults is None,
    {
        UserConfig { packages: StringMap::new(), defaults: None }
    }

    /// Enable or disable self-updating.
    ///
    /// If `sup` is `true` and the current crate is not already contained in
    /// the configured packages, then it will add it, otherwise remove it.
    pub fn self_update(self, sup: bool) -> (r: UserConfig)
        ensures
            self_updated(self.packages@, r.packages@, sup),
            r.packages.key_seq() == self_updated_order(
                self.packages@,
                self.packages.key_seq(),
                sup,
            ),
            r.defaults == self.defaults,
    {
        let mut cfg = self;
        if sup {
            if !cfg.packages.contains_key(SELF_NAME) {
                cfg.packages.insert(String::from_str(SELF_NAME), PackageRequirement::simple_star());
            }
        } else {
            cfg.packages.remove(SELF_NAME);
        }
        cfg
    }

    /// Enable or disable updating other packages.
    ///
    /// If `upo` is `false`, then the list of packages is reset to only contain
    /// the current crate: irreversible. Otherwise, nothing is done.
    pub fn update_others(self, upo: bool) -> (r: UserConfig)
        ensures
            others_updated(self.packages@, r.packages@, upo),
            r.packages.key_seq() == others_updated_order(self.packages.key_seq(), upo),
            r.defaults == self.defaults,
    {
        if upo {
            self
        } else {
            let UserConfig { packages, defaults } = self;
            let mut packages = packages;
            let own = match packages.remove(SELF_NAME) {
                Some(req) => req,
                None => PackageRequirement::simple_star(),
            };
            let mut only = StringMap::new();
            only.insert(String::from_str(SELF_NAME), own);
            proof {
                assert(only@.dom() =~= Set::<Seq<char>>::empty().insert(self_name()));
                assert(only.key_seq() =~= seq![self_name()]);
            }
            UserConfig { packages: only, defaults }
        }
    }
}

} // verus!
