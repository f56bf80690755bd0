//! The `import` command: which conversion of Cargo's record is written,
//! and whether an existing configuration may be replaced.

use vstd::prelude::*;

use crate::cli::ImportArgs;
use crate::config::cargo_crates_toml::{imported_reqs, simple_config_of, CargoCratesToml};
use crate::config::package::PackageRequirement;
use crate::config::user_config::UserConfig;
use crate::version::Op;

verus! {

/// The operator that the import options ask for: none for `*`.
pub open spec fn import_op(args: ImportArgs) -> Option<Op> {
    if args.exact {
        Some(Op::Exact)
    } else if args.compatible {
        Some(Op::Caret)
    } else if args.patch {
        Some(Op::Tilde)
    } else {
        None
    }
}

/// Converts Cargo's record into the configuration to import: exact,
/// compatible or patch requirements as asked, else `*`.
pub fn import_config(cct: CargoCratesToml, args: &ImportArgs) -> (r: UserConfig)
    ensures
        simple_config_of(
            r,
            imported_reqs(cct.package_bins@, import_op(*args), args.keep_self, args.keep_local),
        ),
        forall|k: Seq<char>| #[trigger]
            r.packages@.dom().contains(k) ==> match r.packages@[k] {
                PackageRequirement::Simple(v) => {
                    &&& args.exact ==> v@[0] == '='
                    &&& !args.exact && args.compatible ==> v@[0] == '^'
                    &&& !args.exact && !args.compatible && args.patch ==> v@[0] == '~'
                    &&& !args.exact && !args.compatible && !args.patch ==> v@ == "*"@
                },
                PackageRequirement::Detailed(_) => false,
            },
{
    let ghost es = cct.package_bins@;
    let r = import_config_of(cct, args);
    proof {
        assert forall|k: Seq<char>| #[trigger] r.packages@.dom().contains(k) implies match r.packages@[k] {
            PackageRequirement::Simple(v) => {
                &&& args.exact ==> v@[0] == '='
                &&& !args.exact && args.compatible ==> v@[0] == '^'
                &&& !args.exact && !args.compatible && args.patch ==> v@[0] == '~'
                &&& !args.exact && !args.compatible && !args.patch ==> v@ == "*"@
            },
            PackageRequirement::Detailed(_) => false,
        } by {
            crate::laws::law_import_operator(es, *args, k);
        }
    }
    r
}

fn import_config_of(cct: CargoCratesToml, args: &ImportArgs) -> (r: UserConfig)
    ensures
        simple_config_of(
            r,
            imported_reqs(cct.package_bins@, import_op(*args), args.keep_self, args.keep_local),
        ),
{
    if args.exact {
        cct.into_exact_version_config(args.keep_self, args.keep_local)
    } else if args.compatible {
        cct.into_comp_version_config(args.keep_self, args.keep_local)
    } else if args.patch {
        cct.into_patch_version_config(args.keep_self, args.keep_local)
    } else {
        cct.into_star_version_config(args.keep_self, args.keep_local)
    }
}

/// Why nothing is imported.
#[derive(Clone, Copy, Debug, PartialEq, Eq, Structural)]
pub enum ImportError {
    /// The configuration file exists and overwriting it was not asked for.
    AlreadyExists,
}

/// How the configuration file is written: `Ok(true)` to overwrite it,
/// `Ok(false)` to create it, an error when it exists and `--force` is not
/// given.
pub fn import_write_mode(file_exists: bool, args: &ImportArgs) -> (r: Result<bool, ImportError>)
    ensures
        r == if file_exists && !args.force {
            Err::<bool, ImportError>(ImportError::AlreadyExists)
        } else {
            Ok::<bool, ImportError>(args.force)
        },
{
    if file_exists && !args.force {
        Err(ImportError::AlreadyExists)
    } else {
        Ok(args.force)
    }
}

} // verus!
