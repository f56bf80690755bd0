use cargo_liner::cargo::InstallStatus;
use cargo_liner::cli::{BinstallChoice, ColorChoice, ImportArgs, LinerArgs};
use cargo_liner::coloring::{Colorizer, Icon, StyledIcon};
use cargo_liner::commands::import::{import_config, import_write_mode, ImportError};
use cargo_liner::commands::jettison::{
    confirmation_answer, log_confirmation, needing_uninstall, uninstallation_rows, PackageEntry,
};
use cargo_liner::commands::ship::{
    install_report_rows, needing_install, packages_to_search, version_check_rows, PackageStatus,
};
use cargo_liner::commands::Cell;
use cargo_liner::config::cargo_crates_toml::CargoCratesToml;
use cargo_liner::config::package::{DetailedPackageReq, PackageRequirement};
use cargo_liner::levels::{
    backtrace_setting, binstall_log_level, cargo_verbosity, log_filter, reports_errors,
    LogFilter, LogLevel,
};
use cargo_liner::search::{parse_search_output, SearchError};
use cargo_liner::string_map::StringMap;
use cargo_liner::version::{ver_to_req, Op, SemVer, VersionReq};

fn ver(s: &str) -> SemVer {
    SemVer::parse(s).unwrap()
}

fn versions(entries: &[(&str, &str)]) -> StringMap<SemVer> {
    let mut m = StringMap::new();
    for (name, v) in entries {
        m.insert((*name).to_owned(), ver(v));
    }
    m
}

fn reqs(entries: &[(&str, bool)]) -> StringMap<DetailedPackageReq> {
    let mut m = StringMap::new();
    for (name, skip_check) in entries {
        m.insert(
            (*name).to_owned(),
            DetailedPackageReq {
                skip_check: *skip_check,
                ..Default::default()
            },
        );
    }
    m
}

#[test]
fn search_output_gives_version() {
    let out = "abc = \"1.2.3\"    # A description\n... and 3 crates more\n";
    assert_eq!(parse_search_output("abc", out).unwrap().to_string(), "1.2.3");
    let pre = "abc = \"0.1.0-rc.1+b2\" # x\n";
    assert_eq!(
        parse_search_output("abc", pre).unwrap().to_string(),
        "0.1.0-rc.1+b2"
    );
}

#[test]
fn search_output_errors() {
    assert_eq!(parse_search_output("abc", ""), Err(SearchError::NoOutput));
    assert_eq!(
        parse_search_output("abc", "xyz = \"1.2.3\"    # other\n"),
        Err(SearchError::NoMatch)
    );
    assert_eq!(
        parse_search_output("abc", "abc = \"1.2\"    # short\n"),
        Err(SearchError::InvalidVersion)
    );
    // The comment marker is required after the version.
    assert_eq!(
        parse_search_output("abc", "abc = \"1.2.3\"\n"),
        Err(SearchError::NoMatch)
    );
    // The line must start with the package's own entry.
    assert_eq!(
        parse_search_output("bat", "xbat = \"1.0.0\"    # other\n"),
        Err(SearchError::NoMatch)
    );
    assert_eq!(
        parse_search_output("bat", "bat = \"0.24.0\"    # cat clone\n").unwrap().to_string(),
        "0.24.0"
    );
    // Only the first line is read.
    assert_eq!(
        parse_search_output("abc", "\nabc = \"1.2.3\"    # later\n"),
        Err(SearchError::NoMatch)
    );
}

#[test]
fn semver_values_and_order() {
    let v = ver("1.2.3-alpha.1+build.5");
    assert_eq!(v.major(), 1);
    assert_eq!(v.minor(), 2);
    assert_eq!(v.patch(), 3);
    assert_eq!(v.pre(), "alpha.1");
    assert_eq!(v.build(), "build.5");
    assert_eq!(v.to_string(), "1.2.3-alpha.1+build.5");
    assert!(SemVer::parse("1.2").is_none());
    assert!(ver("1.2.3").lt(&ver("1.10.0")));
    assert!(ver("1.0.0-alpha").lt(&ver("1.0.0")));
    assert_eq!(ver("2.0.0").order(&ver("1.9.9")), 1);
    assert_eq!(ver("1.0.0").order(&ver("1.0.0")), 0);
    assert!(!ver("1.0.0").lt(&ver("1.0.0")));
}

#[test]
fn version_to_requirement() {
    assert_eq!(ver_to_req(&ver("1.2.3"), Op::Exact).as_str(), "=1.2.3");
    assert_eq!(ver_to_req(&ver("1.2.3"), Op::Caret).as_str(), "^1.2.3");
    assert_eq!(ver_to_req(&ver("1.2.3"), Op::Tilde).as_str(), "~1.2.3");
    assert_eq!(ver_to_req(&ver("1.2.3"), Op::GreaterEq).to_string(), ">=1.2.3");
    assert_eq!(
        ver_to_req(&ver("1.2.3-rc.1+b7"), Op::Exact),
        VersionReq::parse("=1.2.3-rc.1").unwrap()
    );
}

#[test]
fn verbosity_levels() {
    assert_eq!(cargo_verbosity(0), 0);
    assert_eq!(cargo_verbosity(1), 0);
    assert_eq!(cargo_verbosity(2), 1);
    assert_eq!(cargo_verbosity(3), 2);
    assert_eq!(cargo_verbosity(4), 2);
    assert_eq!(cargo_verbosity(127), 2);
    assert_eq!(cargo_verbosity(-2), 0);
    assert_eq!(cargo_verbosity(-4), -2);
    assert_eq!(backtrace_setting(0), None);
    assert_eq!(backtrace_setting(1), Some("1"));
    assert_eq!(backtrace_setting(5), Some("full"));
    assert!(reports_errors(-2));
    assert!(!reports_errors(-3));
    assert_eq!(
        log_filter(0),
        LogFilter {
            own_crate_only: true,
            level: LogLevel::Info
        }
    );
    assert_eq!(
        log_filter(3),
        LogFilter {
            own_crate_only: false,
            level: LogLevel::Trace
        }
    );
    assert_eq!(
        log_filter(-3),
        LogFilter {
            own_crate_only: false,
            level: LogLevel::Off
        }
    );
    assert_eq!(binstall_log_level(-5), "off");
    assert_eq!(binstall_log_level(1), "info");
    assert_eq!(binstall_log_level(2), "debug");
    assert_eq!(binstall_log_level(9), "trace");
}

#[test]
fn cli_verbosity_and_choices() {
    let args = |verbose: u8, quiet: u8| LinerArgs {
        command: None,
        verbose,
        quiet,
        color: ColorChoice::Auto,
    };
    assert_eq!(args(0, 0).verbosity(), 0);
    assert_eq!(args(2, 0).verbosity(), 2);
    assert_eq!(args(0, 3).verbosity(), -3);
    assert_eq!(args(200, 0).verbosity(), 127);
    assert_eq!(args(0, 255).verbosity(), -127);
    assert_eq!(BinstallChoice::from_str("always"), Ok(BinstallChoice::Always));
    assert!(BinstallChoice::from_str("Always").is_err());
    assert_eq!(BinstallChoice::default_choice(), BinstallChoice::Auto);
    assert_eq!(BinstallChoice::Never.as_str(), "never");
    assert_eq!(ColorChoice::Always.as_str(), "always");
}

#[test]
fn colorizer_icons() {
    let c = Colorizer::new(false, ColorChoice::Auto);
    assert!(!c.colorizes());
    assert_eq!(*c.color(), ColorChoice::Auto);
    assert!(Colorizer::new(true, ColorChoice::Auto).colorizes());
    assert!(Colorizer::new(false, ColorChoice::Always).colorizes());
    assert!(!Colorizer::new(true, ColorChoice::Never).colorizes());
    let on = Colorizer::new(false, ColorChoice::Always);
    assert_eq!(
        on.ok_icon(),
        StyledIcon {
            icon: Icon::Done,
            colored: true
        }
    );
    assert!(!on.none_icon().colored);
    assert_eq!(on.err_icon().icon.as_str(), "\u{2718}");
    assert_eq!(on.ok_icon().icon.as_str(), "\u{2714}");
    assert_eq!(on.new_icon().icon.as_str(), "+");
    assert_eq!(on.unknown_icon().icon.as_str(), "?");
    assert_eq!(on.todo_icon().icon.as_str(), "\u{1f6c8}");
    assert_eq!(on.none_icon().icon.as_str(), "\u{f8}");
}

#[test]
fn packages_needing_install_keep_configured_order() {
    let pkgs = reqs(&[("z", true), ("a", true), ("m", true)]);
    let todo = needing_install(pkgs, &StringMap::new(), &StringMap::new());
    assert_eq!(todo.key_at(0), "z");
    assert_eq!(todo.key_at(1), "a");
    assert_eq!(todo.key_at(2), "m");
}

#[test]
fn packages_needing_install() {
    let pkgs = reqs(&[("a", false), ("b", false), ("c", false), ("d", true)]);
    assert_eq!(
        packages_to_search(&pkgs),
        vec!["a".to_owned(), "b".to_owned(), "c".to_owned()]
    );
    let new_vers = versions(&[("a", "1.0.0"), ("b", "2.0.0"), ("c", "1.0.0")]);
    let old_vers = versions(&[("a", "1.0.0"), ("b", "1.5.0"), ("d", "0.1.0")]);
    let todo = needing_install(pkgs, &new_vers, &old_vers);
    assert_eq!(todo.len(), 3);
    assert!(!todo.contains_key("a"));
    assert!(todo.contains_key("b"));
    assert!(todo.contains_key("c"));
    assert!(todo.contains_key("d"));
}

#[test]
fn version_check_table_rows() {
    let c = Colorizer::new(false, ColorChoice::Never);
    let pkgs = reqs(&[("a", false), ("b", false), ("z", true)]);
    let new_vers = versions(&[("a", "1.0.0"), ("b", "2.0.0")]);
    let old_vers = versions(&[("a", "1.0.0")]);
    let rows = version_check_rows(&c, &pkgs, &new_vers, &old_vers);
    assert_eq!(
        rows,
        vec![
            PackageStatus {
                name: "a".to_owned(),
                old_ver: Cell::Text("1.0.0".to_owned()),
                new_ver: Cell::Icon(c.none_icon()),
                status: c.ok_icon(),
            },
            PackageStatus {
                name: "b".to_owned(),
                old_ver: Cell::Icon(c.none_icon()),
                new_ver: Cell::Text("2.0.0".to_owned()),
                status: c.todo_icon(),
            },
            PackageStatus {
                name: "z".to_owned(),
                old_ver: Cell::Icon(c.none_icon()),
                new_ver: Cell::Icon(c.unknown_icon()),
                status: c.todo_icon(),
            },
        ]
    );
}

#[test]
fn version_check_rows_sorted_by_name() {
    let c = Colorizer::new(false, ColorChoice::Never);
    let pkgs = reqs(&[("z", true), ("cargo-liner", true), ("a", true)]);
    let rows = version_check_rows(&c, &pkgs, &StringMap::new(), &StringMap::new());
    let names: Vec<&str> = rows.iter().map(|r| r.name.as_str()).collect();
    assert_eq!(names, vec!["a", "cargo-liner", "z"]);
}

#[test]
fn uninstallation_rows_sorted_by_name() {
    let plan = uninstallation_rows(&versions(&[("z", "1.0.0"), ("b", "0.2.0")]));
    assert_eq!(
        plan,
        vec![
            PackageEntry {
                name: "b".to_owned(),
                version: "0.2.0".to_owned(),
            },
            PackageEntry {
                name: "z".to_owned(),
                version: "1.0.0".to_owned(),
            },
        ]
    );
}

#[test]
fn install_report_table_rows() {
    let c = Colorizer::new(true, ColorChoice::Auto);
    let mut report = StringMap::new();
    report.insert("b".to_owned(), InstallStatus::Failed);
    report.insert("a".to_owned(), InstallStatus::Updated);
    report.insert("c".to_owned(), InstallStatus::Installed);
    let new_vers = versions(&[("a", "1.1.0"), ("b", "0.2.0")]);
    let old_vers = versions(&[("a", "1.0.0")]);
    let rows = install_report_rows(&c, &report, &new_vers, &old_vers);
    // Rows come in increasing order of the names.
    assert_eq!(rows.len(), 3);
    assert_eq!(rows[0].name, "a");
    assert_eq!(rows[0].old_ver, Cell::Text("1.0.0".to_owned()));
    assert_eq!(rows[0].new_ver, Cell::Text("1.1.0".to_owned()));
    assert_eq!(rows[0].status, c.ok_icon());
    assert_eq!(rows[1].name, "b");
    assert_eq!(rows[1].status, c.err_icon());
    assert_eq!(rows[2].name, "c");
    assert_eq!(rows[2].new_ver, Cell::Icon(c.unknown_icon()));
    assert_eq!(rows[2].status, c.new_icon());
}

#[test]
fn packages_needing_uninstall() {
    let installed = versions(&[("a", "1.0.0"), ("b", "2.0.0"), ("cargo-liner", "0.1.0")]);
    let mut configured = StringMap::new();
    configured.insert("a".to_owned(), PackageRequirement::simple_star());
    let todo = needing_uninstall(installed, &configured);
    assert_eq!(todo.len(), 1);
    assert_eq!(
        uninstallation_rows(&todo),
        vec![PackageEntry {
            name: "b".to_owned(),
            version: "2.0.0".to_owned(),
        }]
    );
}

#[test]
fn confirmation_answers() {
    assert_eq!(confirmation_answer(""), Some(false));
    assert_eq!(confirmation_answer("y"), Some(false));
    assert_eq!(confirmation_answer("n"), Some(true));
    assert_eq!(confirmation_answer("yes"), None);
    assert!(log_confirmation().ends_with("[Y/n]"));
}

#[test]
fn import_modes() {
    let args = ImportArgs {
        exact: false,
        compatible: false,
        patch: false,
        force: false,
        keep_self: false,
        keep_local: false,
    };
    assert_eq!(import_write_mode(false, &args), Ok(false));
    assert_eq!(import_write_mode(true, &args), Err(ImportError::AlreadyExists));
    let forced = ImportArgs {
        force: true,
        ..args
    };
    assert_eq!(import_write_mode(true, &forced), Ok(true));
    assert_eq!(import_write_mode(false, &forced), Ok(true));

    let table = vec![(
        "a 1.2.3 (registry+https://example.com/index)".to_owned(),
        vec!["a".to_owned()],
    )];
    let patch = ImportArgs {
        patch: true,
        ..args
    };
    let cfg = import_config(CargoCratesToml::from_table(table).unwrap(), &patch);
    assert_eq!(
        cfg.packages.get("a"),
        Some(&PackageRequirement::Simple(VersionReq::parse("~1.2.3").unwrap()))
    );
}
