use cargo_liner::cargo::{
    binstall_args, binstall_is_available, binstall_probe_needed, binstall_version_args,
    binstall_version_from_output, config_get_args, config_get_value, install_args,
    install_command, package_install_options, search_args, uninstall_args, use_binstall,
    InstallReport, InstallStatus, PackageInstallOptions, BINSTALL_NAME,
};
use cargo_liner::cli::{BinstallChoice, ColorChoice};
use cargo_liner::config::package::DetailedPackageReq;
use cargo_liner::string_map::StringMap;
use cargo_liner::version::VersionReq;

fn owned(args: &[&str]) -> Vec<String> {
    args.iter().map(|a| (*a).to_owned()).collect()
}

#[test]
fn install_args_of_default_requirement() {
    assert_eq!(
        install_args("abc", &DetailedPackageReq::default(), false, ColorChoice::Auto, 0),
        owned(&["--color", "auto", "install", "--version", "*", "--", "abc"]),
    );
}

#[test]
fn install_args_with_every_option() {
    let mut environment = StringMap::new();
    environment.insert("KEY".to_owned(), "value".to_owned());
    let req = DetailedPackageReq {
        version: VersionReq::parse("1.2").unwrap(),
        default_features: false,
        all_features: true,
        features: owned(&["f1", "f2"]),
        index: Some("https://index".to_owned()),
        registry: Some("reg".to_owned()),
        git: Some("https://git".to_owned()),
        branch: Some("main".to_owned()),
        tag: Some("v1".to_owned()),
        rev: Some("abc123".to_owned()),
        path: Some("/a/b".to_owned()),
        bins: owned(&["b1", "b2"]),
        all_bins: true,
        examples: owned(&["e1"]),
        all_examples: true,
        force: false,
        ignore_rust_version: true,
        frozen: true,
        locked: true,
        offline: true,
        extra_arguments: owned(&["--x", "--y"]),
        environment,
        skip_check: false,
        no_fail_fast: false,
        binstall: None,
    };
    assert_eq!(
        install_args("pkg", &req, true, ColorChoice::Never, 3),
        owned(&[
            "--color",
            "never",
            "-vvv",
            "install",
            "--version",
            "^1.2",
            "--no-default-features",
            "--all-features",
            "--features",
            "f1,f2",
            "--index",
            "https://index",
            "--registry",
            "reg",
            "--git",
            "https://git",
            "--branch",
            "main",
            "--tag",
            "v1",
            "--rev",
            "abc123",
            "--path",
            "/a/b",
            "--bin",
            "b1",
            "--bin",
            "b2",
            "--bins",
            "--example",
            "e1",
            "--examples",
            "--ignore-rust-version",
            "--force",
            "--frozen",
            "--locked",
            "--offline",
            "--x",
            "--y",
            "--",
            "pkg",
        ]),
    );
}

#[test]
fn install_args_quiet() {
    assert_eq!(
        install_args("abc", &DetailedPackageReq::default(), false, ColorChoice::Always, -1),
        owned(&["--color", "always", "-q", "install", "--version", "*", "--", "abc"]),
    );
}

#[test]
fn binstall_args_with_options() {
    let req = DetailedPackageReq {
        version: VersionReq::parse("=1.0.0").unwrap(),
        git: Some("https://git".to_owned()),
        locked: true,
        extra_arguments: owned(&["--z"]),
        ..Default::default()
    };
    assert_eq!(
        binstall_args("pkg", &req, true, true, 2),
        owned(&[
            "binstall",
            "--disable-telemetry",
            "--no-confirm",
            "--log-level",
            "debug",
            "--version",
            "=1.0.0",
            "--git",
            "https://git",
            "--force",
            "--dry-run",
            "--locked",
            "--z",
            "--",
            "pkg",
        ]),
    );
}

#[test]
fn other_cargo_arguments() {
    assert_eq!(
        search_args("abc", false),
        owned(&["--color=never", "search", "--limit=1", "--", "abc"]),
    );
    assert_eq!(
        search_args("abc", true),
        owned(&[
            "--color=never",
            "search",
            "--registry=dummy-registry",
            "--limit=1",
            "--",
            "abc"
        ]),
    );
    assert_eq!(
        config_get_args("install.root"),
        owned(&[
            "--color=never",
            "-Zunstable-options",
            "config",
            "get",
            "--format=json-value",
            "--",
            "install.root"
        ]),
    );
    assert_eq!(binstall_version_args(), owned(&["binstall", "-V"]));
    assert_eq!(
        uninstall_args("abc", ColorChoice::Auto, -2),
        owned(&["--color", "auto", "-q", "uninstall", "--", "abc"]),
    );
    assert_eq!(
        uninstall_args("abc", ColorChoice::Never, 1),
        owned(&["--color", "never", "-v", "uninstall", "--", "abc"]),
    );
}

#[test]
fn config_value_is_unquoted() {
    assert_eq!(config_get_value("\"/tmp\"\n"), "/tmp");
    assert_eq!(config_get_value("42  \n"), "42");
    assert_eq!(config_get_value(""), "");
}

#[test]
fn binstall_version_is_read() {
    assert_eq!(
        binstall_version_from_output("1.10.2\n").unwrap().to_string(),
        "1.10.2"
    );
    assert!(binstall_version_from_output("cargo-binstall 1.10.2\n").is_none());
}

#[test]
fn binstall_availability_and_choice() {
    let none: StringMap<()> = StringMap::new();
    assert!(binstall_is_available(&none, true));
    assert!(!binstall_is_available(&none, false));
    let mut installed: StringMap<()> = StringMap::new();
    installed.insert("abc".to_owned(), ());
    assert!(!binstall_is_available(&installed, true));
    installed.insert(BINSTALL_NAME.to_owned(), ());
    assert!(binstall_is_available(&installed, false));

    assert!(binstall_probe_needed(BinstallChoice::Auto, false));
    assert!(!binstall_probe_needed(BinstallChoice::Auto, true));
    assert!(!binstall_probe_needed(BinstallChoice::Always, false));
    assert!(use_binstall(BinstallChoice::Always, true, false));
    assert!(use_binstall(BinstallChoice::Auto, false, true));
    assert!(!use_binstall(BinstallChoice::Auto, true, true));
    assert!(!use_binstall(BinstallChoice::Never, false, true));
}

#[test]
fn package_options_combine_with_global_ones() {
    let pkg = DetailedPackageReq {
        force: true,
        binstall: Some(BinstallChoice::Never),
        ..Default::default()
    };
    assert_eq!(
        package_install_options(&pkg, false, BinstallChoice::Always, false),
        PackageInstallOptions {
            force: true,
            binstall: BinstallChoice::Never,
            no_fail_fast: false,
        }
    );
    assert_eq!(
        package_install_options(&DetailedPackageReq::default(), false, BinstallChoice::Always, true),
        PackageInstallOptions {
            force: false,
            binstall: BinstallChoice::Always,
            no_fail_fast: true,
        }
    );
}

#[test]
fn install_command_picks_tool_and_dry_run() {
    let req = DetailedPackageReq::default();
    let plain = install_command("abc", &req, false, true, false, ColorChoice::Auto, 0);
    assert!(!plain.uses_binstall);
    assert!(!plain.run);
    assert_eq!(plain.args, install_args("abc", &req, false, ColorChoice::Auto, 0));
    let bin = install_command("abc", &req, false, true, true, ColorChoice::Auto, 0);
    assert!(bin.uses_binstall);
    assert!(bin.run);
    assert_eq!(bin.args, binstall_args("abc", &req, false, true, 0));
}

#[test]
fn install_report_records_outcomes() {
    let mut report = InstallReport::new();
    assert!(report.record("a".to_owned(), false, true, false));
    assert!(report.record("b".to_owned(), true, true, false));
    assert!(report.record("c".to_owned(), true, false, true));
    assert_eq!(report.package_statuses.get("a"), Some(&InstallStatus::Installed));
    assert_eq!(report.package_statuses.get("b"), Some(&InstallStatus::Updated));
    assert_eq!(report.package_statuses.get("c"), Some(&InstallStatus::Failed));
    assert_eq!(report.error_report, Some(owned(&["c"])));
    assert!(!report.record("d".to_owned(), false, false, false));
    assert_eq!(report.package_statuses.get("d"), Some(&InstallStatus::Failed));
    assert_eq!(report.error_report, Some(owned(&["c"])));
}

#[test]
fn install_command_takes_the_user_verbosity() {
    let req = DetailedPackageReq::default();
    // Three or more `-v` give Cargo exactly `-vv`.
    let plain = install_command("abc", &req, false, false, false, ColorChoice::Auto, 5);
    assert_eq!(
        plain.args,
        owned(&["--color", "auto", "-vv", "install", "--version", "*", "--", "abc"])
    );
    let two = install_command("abc", &req, false, false, false, ColorChoice::Auto, 2);
    assert_eq!(two.args[2], "-v");
    let quiet = install_command("abc", &req, false, false, false, ColorChoice::Auto, -1);
    assert_eq!(quiet.args[2], "install");
    // `cargo binstall` gets the log level from the user's verbosity.
    for (verbosity, level) in [(-1, "warn"), (-2, "error"), (-3, "off"), (0, "info"), (2, "debug"), (3, "trace")] {
        let bin = install_command("abc", &req, false, false, true, ColorChoice::Auto, verbosity);
        assert_eq!(bin.args[3], "--log-level");
        assert_eq!(bin.args[4], level);
    }
}

#[test]
fn run_stops_at_first_failure_unless_passed_over() {
    // Without passing failures over, the run stops at the first failure.
    let mut report = InstallReport::new();
    let outcomes = [("a", true), ("b", false), ("c", true)];
    let mut attempted = Vec::new();
    for (name, ok) in outcomes {
        attempted.push(name);
        if !report.record(name.to_owned(), false, ok, false) {
            break;
        }
    }
    assert_eq!(attempted, vec!["a", "b"]);
    assert_eq!(report.package_statuses.len(), 2);
    assert_eq!(report.error_report, None);

    // Passing them over, every package is attempted and failures are listed
    // in order.
    let mut report = InstallReport::new();
    let outcomes = [("a", false), ("b", true), ("c", false)];
    let mut attempted = Vec::new();
    for (name, ok) in outcomes {
        attempted.push(name);
        if !report.record(name.to_owned(), false, ok, true) {
            break;
        }
    }
    assert_eq!(attempted, vec!["a", "b", "c"]);
    assert_eq!(report.package_statuses.len(), 3);
    assert_eq!(report.error_report, Some(owned(&["a", "c"])));
}
