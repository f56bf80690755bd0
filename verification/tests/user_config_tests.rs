use cargo_liner::config::package::PackageRequirement;
use cargo_liner::config::user_config::{UserConfig, SELF_NAME};
use cargo_liner::string_map::StringMap;
use cargo_liner::version::VersionReq;

fn simple(version: &str) -> PackageRequirement {
    PackageRequirement::Simple(VersionReq::parse(version).unwrap())
}

fn packages(entries: Vec<(&str, PackageRequirement)>) -> StringMap<PackageRequirement> {
    let mut map = StringMap::new();
    for (name, req) in entries {
        map.insert(name.to_owned(), req);
    }
    map
}

fn self_pinned() -> StringMap<PackageRequirement> {
    packages(vec![("cargo-liner", simple("1.2.3"))])
}

#[test]
fn user_config_test_userconfig_selfupdate_enable() {
    assert_eq!(
        UserConfig::default().self_update(true).packages,
        packages(vec![("cargo-liner", PackageRequirement::simple_star())]),
    );
}

#[test]
fn user_config_test_userconfig_selfupdate_enable_noreplace() {
    assert_eq!(
        UserConfig {
            packages: self_pinned(),
            defaults: None,
        }
        .self_update(true)
        .packages,
        self_pinned(),
    );
}

#[test]
fn user_config_test_userconfig_selfupdate_disable_star() {
    assert_eq!(
        UserConfig::default()
            .self_update(true)
            .self_update(false)
            .packages,
        StringMap::new(),
    );
}

#[test]
fn user_config_test_userconfig_selfupdate_disable_nostar() {
    assert_eq!(
        UserConfig {
            packages: self_pinned(),
            defaults: None,
        }
        .self_update(false)
        .packages,
        StringMap::new(),
    );
}

#[test]
fn config_test_userconfig_selfupdate_enable() {
    assert_eq!(
        UserConfig::default().self_update(true).packages,
        packages(vec![("cargo-liner", PackageRequirement::simple_star())]),
    );
}

#[test]
fn config_test_userconfig_selfupdate_enable_noreplace() {
    assert_eq!(
        UserConfig {
            packages: self_pinned(),
            defaults: None,
        }
        .self_update(true)
        .packages,
        self_pinned(),
    );
}

#[test]
fn config_test_userconfig_selfupdate_disable_star() {
    assert_eq!(
        UserConfig::default()
            .self_update(true)
            .self_update(false)
            .packages,
        StringMap::new(),
    );
}

#[test]
fn config_test_userconfig_selfupdate_disable_nostar() {
    assert_eq!(
        UserConfig {
            packages: self_pinned(),
            defaults: None,
        }
        .self_update(false)
        .packages,
        StringMap::new(),
    );
}

#[test]
fn test_userconfig_onlyselfupdate_enable_isdelete() {
    assert_eq!(
        UserConfig {
            packages: packages(vec![("a", simple("1.2.3"))]),
            defaults: None,
        }
        .self_update(true)
        .update_others(false)
        .packages,
        packages(vec![("cargo-liner", PackageRequirement::simple_star())]),
    );
}

#[test]
fn test_userconfig_onlyselfupdate_disable_isnop() {
    assert_eq!(
        UserConfig {
            packages: packages(vec![("a", simple("1.2.3"))]),
            defaults: None,
        }
        .self_update(true)
        .update_others(true)
        .packages,
        // This tool comes after the configured packages.
        packages(vec![
            ("a", simple("1.2.3")),
            ("cargo-liner", PackageRequirement::simple_star()),
        ]),
    );
}

#[test]
fn test_userconfig_onlyselfupdate_enable_isnoreplace() {
    assert_eq!(
        UserConfig {
            packages: self_pinned(),
            defaults: None,
        }
        .update_others(false)
        .packages,
        self_pinned(),
    );
}

#[test]
fn update_others_without_self_configured_adds_star() {
    assert_eq!(
        UserConfig {
            packages: packages(vec![("a", simple("1")), ("b", simple("2"))]),
            defaults: None,
        }
        .update_others(false)
        .packages,
        packages(vec![("cargo-liner", PackageRequirement::simple_star())]),
    );
}

#[test]
fn self_update_is_idempotent_on_example() {
    let once = UserConfig::default().self_update(true);
    let twice = UserConfig::default().self_update(true).self_update(true);
    assert_eq!(once, twice);
    assert_eq!(SELF_NAME, "cargo-liner");
    assert_eq!(UserConfig::FILE_NAME, "liner.toml");
}

#[test]
fn version_requirements_display_as_semver_does() {
    for (text, shown) in [
        ("1.2.3", "^1.2.3"),
        ("1.2", "^1.2"),
        ("1", "^1"),
        ("*", "*"),
        ("1.*", "1.*"),
        ("1.2.*", "1.2.*"),
        ("~1.2", "~1.2"),
        ("~1", "~1"),
    ] {
        assert_eq!(VersionReq::parse(text).unwrap().as_str(), shown);
    }
    assert!(VersionReq::parse("not a version").is_none());
}

#[test]
fn self_update_keeps_configured_order() {
    let cfg = UserConfig {
        packages: packages(vec![
            ("z", simple("1")),
            ("cargo-liner", simple("1.2.3")),
            ("a", simple("2")),
        ]),
        defaults: None,
    };
    let disabled = cfg.self_update(false);
    assert_eq!(disabled.packages.key_at(0), "z");
    assert_eq!(disabled.packages.key_at(1), "a");
    let enabled = disabled.self_update(true);
    assert_eq!(enabled.packages.key_at(2), "cargo-liner");
}
