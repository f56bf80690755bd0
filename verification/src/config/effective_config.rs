//! Merge of all configuration sources: command line over environment over
//! configuration file over built-in defaults.

use vstd::prelude::*;

use super::package::{detailed_of, has_default_options, DetailedPackageReq, PackageRequirement};
use super::user_config::{
    others_updated, others_updated_order, self_name, self_updated, self_updated_order, UserConfig,
};
use crate::cli::{BinstallChoice, JettisonArgs, ShipArgs};
use crate::string_map::StringMap;
use crate::text::reversed;

verus! {

/// The first of the three sources that sets a value, else the default.
pub open spec fn pick<T>(cli: Option<T>, env: Option<T>, cfg: Option<T>, default: T) -> T {
    match cli {
        Some(v) => v,
        None => match env {
            Some(v) => v,
            None => match cfg {
                Some(v) => v,
                None => default,
            },
        },
    }
}

fn pick_flag(cli: Option<bool>, env: Option<bool>, cfg: Option<bool>) -> (r: bool)
    ensures
        r == pick(cli, env, cfg, false),
{
    match cli {
        Some(v) => v,
        None => match env {
            Some(v) => v,
            None => match cfg {
                Some(v) => v,
                None => false,
            },
        },
    }
}

fn pick_choice(
    cli: Option<BinstallChoice>,
    env: Option<BinstallChoice>,
    cfg: Option<BinstallChoice>,
) -> (r: BinstallChoice)
    ensures
        r == pick(cli, env, cfg, BinstallChoice::Auto),
{
    match cli {
        Some(v) => v,
        None => match env {
            Some(v) => v,
            None => match cfg {
                Some(v) => v,
                None => BinstallChoice::Auto,
            },
        },
    }
}

/// The `ship` defaults of a configuration, all unset when it has none.
pub open spec fn ship_defaults(defaults: Option<super::user_config::DefaultsSection>) -> ShipArgs {
    match defaults {
        Some(d) => d.ship_cmd,
        None => ShipArgs {
            no_self: None,
            only_self: None,
            skip_check: None,
            no_fail_fast: None,
            force: None,
            dry_run: None,
            binstall: None,
        },
    }
}

/// The `jettison` defaults of a configuration, all unset when it has none.
pub open spec fn jettison_defaults(
    defaults: Option<super::user_config::DefaultsSection>,
) -> JettisonArgs {
    match defaults {
        Some(d) => d.jettison_cmd,
        None => JettisonArgs { no_confirm: None, no_fail_fast: None, dry_run: None },
    }
}

/// Effective merge of all configuration sources regarding [`ShipArgs`].
#[derive(Clone, Copy, Debug, PartialEq, Eq, Structural)]
pub struct EffectiveShipArgs {
    pub no_self: bool,
    pub only_self: bool,
    pub skip_check: bool,
    pub no_fail_fast: bool,
    pub force: bool,
    pub dry_run: bool,
    pub binstall: BinstallChoice,
}

impl Default for EffectiveShipArgs {
    fn default() -> (r: EffectiveShipArgs)
        ensures
            r == (EffectiveShipArgs {
                no_self: false,
                only_self: false,
                skip_check: false,
                no_fail_fast: false,
                force: false,
                dry_run: false,
                binstall: BinstallChoice::Auto,
            }),
    {
        EffectiveShipArgs {
            no_self: false,
            only_self: false,
            skip_check: false,
            no_fail_fast: false,
            force: false,
            dry_run: false,
            binstall: BinstallChoice::Auto,
        }
    }
}

/// `r` merges the three sources of `ship` options field by field.
pub open spec fn merged_ship_args(r: EffectiveShipArgs, cli: ShipArgs, env: ShipArgs, cfg: ShipArgs) -> bool {
    &&& r.no_self == pick(cli.no_self, env.no_self, cfg.no_self, false)
    &&& r.only_self == pick(cli.only_self, env.only_self, cfg.only_self, false)
    &&& r.skip_check == pick(cli.skip_check, env.skip_check, cfg.skip_check, false)
    &&& r.no_fail_fast == pick(cli.no_fail_fast, env.no_fail_fast, cfg.no_fail_fast, false)
    &&& r.force == pick(cli.force, env.force, cfg.force, false)
    &&& r.dry_run == pick(cli.dry_run, env.dry_run, cfg.dry_run, false)
    &&& r.binstall == pick(cli.binstall, env.binstall, cfg.binstall, BinstallChoice::Auto)
}

impl EffectiveShipArgs {
    /// Merges the configuration's defaults, the environment and the command
    /// line, in increasing order of precedence.
    pub fn new(user_config: &UserConfig, env_args: ShipArgs, cli_args: ShipArgs) -> (r: Self)
        ensures
            merged_ship_args(r, cli_args, env_args, ship_defaults(user_config.defaults)),
    {
        let cfg = match user_config.defaults {
            Some(d) => d.ship_cmd,
            None => ShipArgs::default(),
        };
        EffectiveShipArgs {
            no_self: pick_flag(cli_args.no_self, env_args.no_self, cfg.no_self),
            only_self: pick_flag(cli_args.only_self, env_args.only_self, cfg.only_self),
            skip_check: pick_flag(cli_args.skip_check, env_args.skip_check, cfg.skip_check),
            no_fail_fast: pick_flag(cli_args.no_fail_fast, env_args.no_fail_fast, cfg.no_fail_fast),
            force: pick_flag(cli_args.force, env_args.force, cfg.force),
            dry_run: pick_flag(cli_args.dry_run, env_args.dry_run, cfg.dry_run),
            binstall: pick_choice(cli_args.binstall, env_args.binstall, cfg.binstall),
        }
    }
}

/// Effective merge of all configuration sources regarding [`JettisonArgs`].
#[derive(Clone, Copy, Debug, PartialEq, Eq, Structural)]
pub struct EffectiveJettisonArgs {
    pub no_confirm: bool,
    pub no_fail_fast: bool,
    pub dry_run: bool,
}

impl Default for EffectiveJettisonArgs {
    fn default() -> (r: EffectiveJettisonArgs)
        ensures
            r == (EffectiveJettisonArgs { no_confirm: false, no_fail_fast: false, dry_run: false }),
    {
        EffectiveJettisonArgs { no_confirm: false, no_fail_fast: false, dry_run: false }
    }
}

/// `r` merges the three sources of `jettison` options field by field.
pub open spec fn merged_jettison_args(
    r: EffectiveJettisonArgs,
    cli: JettisonArgs,
    env: JettisonArgs,
    cfg: JettisonArgs,
) -> bool {
    &&& r.no_confirm == pick(cli.no_confirm, env.no_confirm, cfg.no_confirm, false)
    &&& r.no_fail_fast == pick(cli.no_fail_fast, env.no_fail_fast, cfg.no_fail_fast, false)
    &&& r.dry_run == pick(cli.dry_run, env.dry_run, cfg.dry_run, false)
}

impl EffectiveJettisonArgs {
    /// Merges the configuration's defaults, the environment and the command
    /// line, in increasing order of precedence.
    pub fn new(user_config: &UserConfig, env_args: JettisonArgs, cli_args: JettisonArgs) -> (r: Self)
        ensures
            merged_jettison_args(r, cli_args, env_args, jettison_defaults(user_config.defaults)),
    {
        let cfg = match user_config.defaults {
            Some(d) => d.jettison_cmd,
            None => JettisonArgs::default(),
        };
        EffectiveJettisonArgs {
            no_confirm: pick_flag(cli_args.no_confirm, env_args.no_confirm, cfg.no_confirm),
            no_fail_fast: pick_flag(cli_args.no_fail_fast, env_args.no_fail_fast, cfg.no_fail_fast),
            dry_run: pick_flag(cli_args.dry_run, env_args.dry_run, cfg.dry_run),
        }
    }

    /// Whether the interactive confirmation is skipped: when asked so, and on
    /// a dry run.
    pub fn skips_confirmation(&self) -> (r: bool)
        ensures
            r == (self.no_confirm || self.dry_run),
    {
        self.no_confirm || self.dry_run
    }
}

/// Whether a configured package stays among those to ship, with its own
/// requirement, once self-updating and the update of others are applied.
pub open spec fn keeps_configured(
    old: Map<Seq<char>, PackageRequirement>,
    k: Seq<char>,
    no_self: bool,
    only_self: bool,
) -> bool {
    &&& old.dom().contains(k)
    &&& !(no_self && k == self_name())
    &&& (only_self ==> k == self_name())
}

/// The names that are shipped for a configuration.
pub open spec fn shipped_names(
    old: Map<Seq<char>, PackageRequirement>,
    no_self: bool,
    only_self: bool,
) -> Set<Seq<char>> {
    if only_self {
        Set::<Seq<char>>::empty().insert(self_name())
    } else if no_self {
        old.dom().remove(self_name())
    } else {
        old.dom().insert(self_name())
    }
}

/// `new` holds the packages shipped for the configured `old`: the names of
/// [`shipped_names`], each with its configured requirement in detailed form,
/// or, for this tool when not configured, `*` with default options.
pub open spec fn shipped_packages(
    old: Map<Seq<char>, PackageRequirement>,
    new: Map<Seq<char>, DetailedPackageReq>,
    no_self: bool,
    only_self: bool,
) -> bool {
    &&& new.dom() == shipped_names(old, no_self, only_self)
    &&& forall|k: Seq<char>| #[trigger]
        new.dom().contains(k) ==> if keeps_configured(old, k, no_self, only_self) {
            detailed_of(old[k], new[k])
        } else {
            new[k].version@ == "*"@ && has_default_options(new[k])
        }
}

proof fn lemma_shipped(
    old: Map<Seq<char>, PackageRequirement>,
    mid: Map<Seq<char>, PackageRequirement>,
    fin: Map<Seq<char>, PackageRequirement>,
    new: Map<Seq<char>, DetailedPackageReq>,
    no_self: bool,
    only_self: bool,
)
    requires
        self_updated(old, mid, !no_self),
        others_updated(mid, fin, !only_self),
        new.dom() == fin.dom(),
        forall|k: Seq<char>| #[trigger] new.dom().contains(k) ==> detailed_of(fin[k], new[k]),
    ensures
        shipped_packages(old, new, no_self, only_self),
{
    if only_self {
        assert(new.dom() =~= shipped_names(old, no_self, only_self));
    } else if no_self {
        assert(new.dom() =~= shipped_names(old, no_self, only_self));
    } else {
        if old.dom().contains(self_name()) {
            assert(old.dom().insert(self_name()) =~= old.dom());
        }
        assert(new.dom() =~= shipped_names(old, no_self, only_self));
    }
    assert forall|k: Seq<char>| #[trigger] new.dom().contains(k) implies if keeps_configured(
        old,
        k,
        no_self,
        only_self,
    ) {
        detailed_of(old[k], new[k])
    } else {
        new[k].version@ == "*"@ && has_default_options(new[k])
    } by {
        assert(detailed_of(fin[k], new[k]));
    }
}

/// Effective merge of all configuration sources.
#[derive(Debug)]
pub struct EffectiveConfig {
    /// The name-to-setting map derived from the [`UserConfig`].
    pub packages: StringMap<DetailedPackageReq>,
    /// Effective arguments to use for the `ship` CLI command.
    pub ship_args: EffectiveShipArgs,
}

/// Turns every requirement of a map into its detailed form, keeping the
/// order of the keys.
pub fn detail_all(packages: StringMap<PackageRequirement>) -> (r: StringMap<DetailedPackageReq>)
    ensures
        r@.dom() == packages@.dom(),
        forall|k: Seq<char>| #[trigger] r@.dom().contains(k) ==> detailed_of(packages@[k], r@[k]),
        r.key_seq() == packages.key_seq(),
{
    let ghost old = packages@;
    let ghost ks = packages.key_seq();
    let ghost vs = packages.value_seq();
    let entries = packages.into_entries();
    let ghost es = entries@;
    let mut rest = reversed(entries);
    let mut out: StringMap<DetailedPackageReq> = StringMap::new();
    let n = rest.len();
    let mut i: usize = 0;
    while i < n
        invariant
            n == es.len(),
            n == ks.len(),
            i <= n,
            rest@ == es.subrange(i as int, n as int).reverse(),
            forall|j: int| 0 <= j < n ==> (#[trigger] es[j]).0@ == ks[j] && es[j].1 == vs[j],
            forall|j1: int, j2: int|
                0 <= j1 < n && 0 <= j2 < n && j1 != j2 ==> #[trigger] ks[j1] != #[trigger] ks[j2],
            forall|k: Seq<char>| #[trigger]
                out@.dom().contains(k) <==> exists|j: int| 0 <= j < i && ks[j] == k,
            forall|j: int| 0 <= j < i ==> detailed_of(vs[j], out@[#[trigger] ks[j]]),
            out.key_seq() == ks.subrange(0, i as int),
        decreases n - i,
    {
        let ghost before = out@;
        let (name, req) = rest.pop().unwrap();
        let ghost at = i as int;
        assert(es[at] == (name, req));
        assert(!before.dom().contains(ks[at])) by {
            if before.dom().contains(ks[at]) {
                let j = choose|j: int| 0 <= j < i && ks[j] == ks[at];
                assert(ks[j] != ks[at]);
            }
        }
        let d = DetailedPackageReq::from_requirement(req);
        out.insert(name, d);
        i = i + 1;
        assert(rest@ =~= es.subrange(i as int, n as int).reverse());
        assert(out.key_seq() =~= ks.subrange(0, i as int));
        assert forall|k: Seq<char>| #[trigger] out@.dom().contains(k) <==> exists|j: int|
            0 <= j < i && ks[j] == k by {
            if k == ks[at] {
                assert(0 <= at < i && ks[at] == k);
            }
        }
        assert forall|j: int| 0 <= j < i implies detailed_of(vs[j], out@[#[trigger] ks[j]]) by {
            if j != at {
                assert(ks[j] != ks[at]);
            }
        }
    }
    assert(out.key_seq() =~= ks);
    assert forall|k: Seq<char>| #[trigger] out@.dom().contains(k) == old.dom().contains(k) by {
        if old.dom().contains(k) {
            assert(ks.contains(k));
            let j = choose|j: int| 0 <= j < ks.len() && ks[j] == k;
            assert(0 <= j < n && ks[j] == k);
        }
        if out@.dom().contains(k) {
            let j = choose|j: int| 0 <= j < i && ks[j] == k;
            assert(ks.contains(k));
        }
    }
    assert(out@.dom() =~= old.dom());
    assert forall|k: Seq<char>| #[trigger] out@.dom().contains(k) implies detailed_of(
        old[k],
        out@[k],
    ) by {
        let j = choose|j: int| 0 <= j < i && ks[j] == k;
        assert(old[ks[j]] == vs[j]);
    }
    out
}

/// The order in which the packages of a configuration are shipped: that of
/// the configuration, with this tool last when self-updating adds it, without
/// it for `no_self`, and alone for `only_self`.
pub open spec fn shipped_order(
    old: Map<Seq<char>, PackageRequirement>,
    ks: Seq<Seq<char>>,
    no_self: bool,
    only_self: bool,
) -> Seq<Seq<char>> {
    others_updated_order(self_updated_order(old, ks, !no_self), !only_self)
}

impl EffectiveConfig {
    /// Merges all given sources and exports the result as public fields.
    pub fn new(user_config: UserConfig, env_args: ShipArgs, cli_args: ShipArgs) -> (r: Self)
        ensures
            merged_ship_args(r.ship_args, cli_args, env_args, ship_defaults(user_config.defaults)),
            shipped_packages(
                user_config.packages@,
                r.packages@,
                r.ship_args.no_self,
                r.ship_args.only_self,
            ),
            r.packages.key_seq() == shipped_order(
                user_config.packages@,
                user_config.packages.key_seq(),
                r.ship_args.no_self,
                r.ship_args.only_self,
            ),
    {
        let ship_args = EffectiveShipArgs::new(&user_config, env_args, cli_args);
        let ghost old = user_config.packages@;
        let cfg = user_config.self_update(!ship_args.no_self);
        let ghost mid = cfg.packages@;
        let cfg = cfg.update_others(!ship_args.only_self);
        let ghost fin = cfg.packages@;
        let packages = detail_all(cfg.packages);
        proof {
            lemma_shipped(old, mid, fin, packages@, ship_args.no_self, ship_args.only_self);
        }
        EffectiveConfig { packages, ship_args }
    }
}

} // verus!
