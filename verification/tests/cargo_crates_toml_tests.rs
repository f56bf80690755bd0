use cargo_liner::config::cargo_crates_toml::{
    CargoCratesPackage, CargoCratesToml, CrateEntryError, PackageSource, SourceKind,
};
use cargo_liner::config::package::PackageRequirement;
use cargo_liner::config::user_config::UserConfig;
use cargo_liner::string_map::StringMap;
use cargo_liner::version::{SemVer, VersionReq};

const SELF: &str = "cargo-liner";

fn crates_io() -> PackageSource {
    PackageSource {
        kind: SourceKind::Registry,
        url: "https://github.com/rust-lang/crates.io-index".to_owned(),
    }
}

fn table(entries: &[(&str, &[&str])]) -> Vec<(String, Vec<String>)> {
    entries
        .iter()
        .map(|(key, bins)| {
            (
                (*key).to_owned(),
                bins.iter().map(|b| (*b).to_owned()).collect(),
            )
        })
        .collect()
}

fn cargocrates_example1() -> CargoCratesToml {
    CargoCratesToml::from_table(table(&[
        ("a 1.2.3 (registry+https://example.com/index)", &["a"]),
        ("b 0.1.2 (registry+https://example.com/index)", &["b1", "b2"]),
        ("c 0.0.0 (path+file:///a/b/c)", &["c1", "c2", "c3"]),
        ("cargo-liner 0.2.1 (registry+https://crates.io/index)", &["cargo-liner"]),
    ]))
    .unwrap()
}

fn only_self() -> CargoCratesToml {
    CargoCratesToml {
        package_bins: vec![(
            CargoCratesPackage {
                name: SELF.to_owned(),
                version: SemVer::parse("1.2.3").unwrap(),
                source: crates_io(),
            },
            vec![],
        )],
    }
}

fn simple_config(entries: &[(&str, &str)]) -> UserConfig {
    let mut packages = StringMap::new();
    for (name, version) in entries {
        packages.insert(
            (*name).to_owned(),
            PackageRequirement::Simple(VersionReq::parse(version).unwrap()),
        );
    }
    UserConfig {
        packages,
        defaults: None,
    }
}

fn expected_entries(rows: &[(&str, &str, SourceKind, &str, &[&str])]) -> CargoCratesToml {
    CargoCratesToml {
        package_bins: rows
            .iter()
            .map(|(name, version, kind, url, bins)| {
                (
                    CargoCratesPackage {
                        name: (*name).to_owned(),
                        version: SemVer::parse(version).unwrap(),
                        source: PackageSource {
                            kind: *kind,
                            url: (*url).to_owned(),
                        },
                    },
                    bins.iter().map(|b| (*b).to_owned()).collect(),
                )
            })
            .collect(),
    }
}

#[test]
fn cargo_crates_toml_test_deser_cargocrates_no_packages() {
    assert_eq!(
        CargoCratesToml::from_table(vec![]).unwrap(),
        CargoCratesToml {
            package_bins: vec![],
        },
    );
}

#[test]
fn config_test_deser_cargocrates_no_packages() {
    assert_eq!(
        CargoCratesToml::from_table(Vec::new()).unwrap(),
        CargoCratesToml::default(),
    );
}

#[test]
fn cargo_crates_toml_test_deser_cargocrates_full_versions() {
    assert_eq!(
        cargocrates_example1(),
        expected_entries(&[
            ("a", "1.2.3", SourceKind::Registry, "https://example.com/index", &["a"]),
            ("b", "0.1.2", SourceKind::Registry, "https://example.com/index", &["b1", "b2"]),
            ("c", "0.0.0", SourceKind::Path, "file:///a/b/c", &["c1", "c2", "c3"]),
            (
                "cargo-liner",
                "0.2.1",
                SourceKind::Registry,
                "https://crates.io/index",
                &["cargo-liner"],
            ),
        ]),
    );
}

#[test]
fn config_test_deser_cargocrates_full_versions() {
    assert_eq!(
        CargoCratesToml::from_table(table(&[
            ("a 1.2.3 (registry+https://example.com/index)", &["a"]),
            ("b 0.1.2 (registry+https://example.com/index)", &["b1", "b2"]),
            ("c 0.0.0 (path+file:///a/b/c)", &["c1", "c2", "c3"]),
        ]))
        .unwrap(),
        expected_entries(&[
            ("a", "1.2.3", SourceKind::Registry, "https://example.com/index", &["a"]),
            ("b", "0.1.2", SourceKind::Registry, "https://example.com/index", &["b1", "b2"]),
            ("c", "0.0.0", SourceKind::Path, "file:///a/b/c", &["c1", "c2", "c3"]),
        ]),
    );
}

#[test]
fn test_cargocrates_intostarcfg_no_packages() {
    assert_eq!(
        CargoCratesToml::default().into_star_version_config(false, false),
        UserConfig::default(),
    );
}

#[test]
fn test_cargocrates_intostarcfg_nopackages_keepself() {
    assert_eq!(
        CargoCratesToml::default().into_star_version_config(true, false),
        UserConfig::default(),
    );
}

#[test]
fn test_cargocrates_intostarcfg_noself() {
    assert!(!only_self()
        .into_star_version_config(false, false)
        .packages
        .contains_key(SELF));
}

#[test]
fn test_cargocrates_intostarcfg_keepself() {
    assert!(only_self()
        .into_star_version_config(true, false)
        .packages
        .contains_key(SELF));
}

#[test]
fn test_cargocrates_intoexactcfg_noself() {
    assert!(!only_self()
        .into_exact_version_config(false, false)
        .packages
        .contains_key(SELF));
}

#[test]
fn test_cargocrates_intoexactcfg_keepself() {
    assert!(only_self()
        .into_exact_version_config(true, false)
        .packages
        .contains_key(SELF));
}

#[test]
fn test_cargocrates_intocompcfg_noself() {
    assert!(!only_self()
        .into_comp_version_config(false, false)
        .packages
        .contains_key(SELF));
}

#[test]
fn test_cargocrates_intocompcfg_keepself() {
    assert!(only_self()
        .into_comp_version_config(true, false)
        .packages
        .contains_key(SELF));
}

#[test]
fn test_cargocrates_intopatchcfg_noself() {
    assert!(!only_self()
        .into_patch_version_config(false, false)
        .packages
        .contains_key(SELF));
}

#[test]
fn test_cargocrates_intopatchcfg_keepself() {
    assert!(only_self()
        .into_patch_version_config(true, false)
        .packages
        .contains_key(SELF));
}

#[test]
fn test_cargocrates_intostarcfg_full_versions() {
    assert_eq!(
        cargocrates_example1().into_star_version_config(false, false),
        simple_config(&[("a", "*"), ("b", "*")]),
    );
}

#[test]
fn test_cargocrates_intoexactcfg_full_versions() {
    assert_eq!(
        cargocrates_example1().into_exact_version_config(false, false),
        simple_config(&[("a", "=1.2.3"), ("b", "=0.1.2")]),
    );
}

#[test]
fn test_cargocrates_intocompcfg_full_versions() {
    assert_eq!(
        cargocrates_example1().into_comp_version_config(false, false),
        simple_config(&[("a", "^1.2.3"), ("b", "^0.1.2")]),
    );
}

#[test]
fn test_cargocrates_intopatchcfg_full_versions() {
    assert_eq!(
        cargocrates_example1().into_patch_version_config(false, false),
        simple_config(&[("a", "~1.2.3"), ("b", "~0.1.2")]),
    );
}

#[test]
fn test_cargocrates_intostarcfg_fullversions_keeplocal() {
    assert_eq!(
        cargocrates_example1().into_star_version_config(false, true),
        simple_config(&[("a", "*"), ("b", "*"), ("c", "*")]),
    );
}

#[test]
fn test_cargocrates_intostarcfg_fullversions_keepself() {
    assert_eq!(
        cargocrates_example1().into_star_version_config(true, false),
        simple_config(&[("a", "*"), ("b", "*"), ("cargo-liner", "*")]),
    );
}

#[test]
fn test_cargocrates_intostarcfg_fullversions_keepself_keeplocal() {
    assert_eq!(
        cargocrates_example1().into_star_version_config(true, true),
        simple_config(&[("a", "*"), ("b", "*"), ("c", "*"), ("cargo-liner", "*")]),
    );
}

#[test]
fn test_cargocrates_intoexactcfg_fullversions_keepself() {
    assert_eq!(
        cargocrates_example1().into_exact_version_config(true, false),
        simple_config(&[("a", "=1.2.3"), ("b", "=0.1.2"), ("cargo-liner", "=0.2.1")]),
    );
}

#[test]
fn test_cargocrates_intocompcfg_fullversions_keepself() {
    assert_eq!(
        cargocrates_example1().into_comp_version_config(true, false),
        simple_config(&[("a", "^1.2.3"), ("b", "^0.1.2"), ("cargo-liner", "^0.2.1")]),
    );
}

#[test]
fn test_cargocrates_intopatchcfg_fullversions_keepself() {
    assert_eq!(
        cargocrates_example1().into_patch_version_config(true, false),
        simple_config(&[("a", "~1.2.3"), ("b", "~0.1.2"), ("cargo-liner", "~0.2.1")]),
    );
}

#[test]
fn entry_errors_are_reported() {
    assert_eq!(
        CargoCratesPackage::from_str("a").unwrap_err(),
        CrateEntryError::MissingVersion
    );
    assert_eq!(
        CargoCratesPackage::from_str("a x.y (registry+https://example.com)").unwrap_err(),
        CrateEntryError::InvalidVersion
    );
    assert_eq!(
        CargoCratesPackage::from_str("a 1.2.3").unwrap_err(),
        CrateEntryError::MissingSource
    );
    assert_eq!(
        CargoCratesPackage::from_str("a 1.2.3 (ftp+https://example.com)").unwrap_err(),
        CrateEntryError::UnsupportedSourceKind
    );
    assert_eq!(
        CargoCratesPackage::from_str("a 1.2.3 (registry)").unwrap_err(),
        CrateEntryError::MissingSourcePath
    );
    assert_eq!(
        CargoCratesPackage::from_str("a 1.2.3 (registry+not a url)").unwrap_err(),
        CrateEntryError::InvalidUrl
    );
}

#[test]
fn source_kinds_and_urls() {
    assert_eq!(SourceKind::from_str("git"), Ok(SourceKind::Git));
    assert_eq!(SourceKind::from_str("sparse"), Ok(SourceKind::SparseRegistry));
    assert_eq!(
        SourceKind::from_str("Git"),
        Err(CrateEntryError::UnsupportedSourceKind)
    );
    let src = PackageSource::from_str("sparse+https://index.crates.io").unwrap();
    assert_eq!(src.kind, SourceKind::SparseRegistry);
    // The location is kept as `url` serializes it.
    assert_eq!(src.url, "https://index.crates.io/");
    let git = PackageSource::from_str("git+https://example.com/a.git#abc").unwrap();
    assert_eq!(git.url, "https://example.com/a.git#abc");
}

#[test]
fn from_table_reports_first_bad_key() {
    let err = CargoCratesToml::from_table(table(&[
        ("a 1.2.3 (registry+https://example.com/index)", &["a"]),
        ("b oops (registry+https://example.com/index)", &["b"]),
        ("c", &["c"]),
    ]))
    .unwrap_err();
    assert_eq!(
        err,
        (
            "b oops (registry+https://example.com/index)".to_owned(),
            CrateEntryError::InvalidVersion
        )
    );
}

#[test]
fn names_and_versions_of_record() {
    let names = cargocrates_example1().into_names();
    assert_eq!(names.len(), 4);
    assert!(names.contains_key("c"));
    let versions = cargocrates_example1().into_name_versions();
    assert_eq!(versions.get("b").unwrap().to_string(), "0.1.2");
    assert_eq!(versions.get("cargo-liner").unwrap().to_string(), "0.2.1");
}

#[test]
fn greatest_entry_of_same_name_wins() {
    // In key order, `a 0.10.0` comes before `a 0.9.0`; the greater version
    // still wins.
    let cct = || {
        CargoCratesToml::from_table(table(&[
            ("a 0.10.0 (registry+https://example.com/index)", &["a"]),
            ("a 0.9.0 (registry+https://example.com/index)", &["a"]),
        ]))
        .unwrap()
    };
    assert_eq!(
        cct().into_exact_version_config(false, false),
        simple_config(&[("a", "=0.10.0")]),
    );
    assert_eq!(
        cct().into_name_versions().get("a").unwrap().to_string(),
        "0.10.0"
    );
}

#[test]
fn greater_later_entry_of_same_name_wins() {
    let cct = CargoCratesToml::from_table(table(&[
        ("a 1.0.0 (registry+https://example.com/index)", &["a"]),
        ("a 2.0.0 (registry+https://example.com/index)", &["a"]),
    ]))
    .unwrap();
    assert_eq!(
        cct.into_exact_version_config(false, false),
        simple_config(&[("a", "=2.0.0")]),
    );
}
