use cargo_liner::cli::{BinstallChoice, JettisonArgs, ShipArgs};
use cargo_liner::config::env::{
    choice_value, flag_value, jettison_env_args, jettison_var_name, parse_bool, ship_env_args,
    ship_var_name, EnvErrorKind, EnvValue, JettisonEnvValues, ShipEnvValues,
};

/// The `ship` variables, each set to the value given for its suffix.
fn ship_values(set: &[(&str, &str)]) -> ShipEnvValues {
    let value = |suffix: &str| {
        set.iter()
            .find(|(s, _)| *s == suffix)
            .map_or(EnvValue::Absent, |(_, v)| EnvValue::Present((*v).to_owned()))
    };
    ShipEnvValues {
        no_self: value("NO_SELF"),
        only_self: value("ONLY_SELF"),
        skip_check: value("SKIP_CHECK"),
        no_fail_fast: value("NO_FAIL_FAST"),
        force: value("FORCE"),
        dry_run: value("DRY_RUN"),
        binstall: value("BINSTALL"),
    }
}

#[test]
fn test_singlethreaded_ship_ok() {
    assert_eq!(
        ship_env_args(ship_values(&[("NO_SELF", "true"), ("FORCE", "false")])).unwrap(),
        ShipArgs {
            no_self: Some(true),
            force: Some(false),
            ..Default::default()
        }
    );
}

#[test]
fn test_singlethreaded_ship_errs() {
    for (var, val) in [
        ("ONLY_SELF", ""),
        ("NO_FAIL_FAST", " "),
        ("SKIP_CHECK", "123"),
        ("NO_SELF", "abc"),
        ("FORCE", "\x01"),
    ] {
        assert_eq!(ship_env_args(ship_values(&[])).unwrap(), ShipArgs::default());
        assert!(ship_env_args(ship_values(&[(var, val)])).is_err());
    }
}

#[test]
fn ship_env_error_names_variable() {
    let err = ship_env_args(ship_values(&[("SKIP_CHECK", "yes")])).unwrap_err();
    assert_eq!(err.var_name, "CARGO_LINER_SHIP_SKIP_CHECK");
    assert_eq!(err.kind, EnvErrorKind::NotBool);
}

#[test]
fn ship_env_first_bad_variable_is_reported() {
    let err = ship_env_args(ship_values(&[("FORCE", "no"), ("NO_SELF", "no")])).unwrap_err();
    assert_eq!(err.var_name, "CARGO_LINER_SHIP_NO_SELF");
}

#[test]
fn ship_env_binstall_choice() {
    assert_eq!(
        ship_env_args(ship_values(&[("BINSTALL", "never"), ("DRY_RUN", "true")])).unwrap(),
        ShipArgs {
            binstall: Some(BinstallChoice::Never),
            dry_run: Some(true),
            ..Default::default()
        }
    );
    let err = ship_env_args(ship_values(&[("BINSTALL", "sometimes")])).unwrap_err();
    assert_eq!(err.var_name, "CARGO_LINER_SHIP_BINSTALL");
    assert_eq!(err.kind, EnvErrorKind::NotChoice);
}

#[test]
fn ship_env_not_unicode_is_refused() {
    let mut values = ship_values(&[]);
    values.force = EnvValue::NotUnicode;
    let err = ship_env_args(values).unwrap_err();
    assert_eq!(err.var_name, "CARGO_LINER_SHIP_FORCE");
    assert_eq!(err.kind, EnvErrorKind::NotUnicode);
}

#[test]
fn jettison_env_reads_flags() {
    let values = JettisonEnvValues {
        no_confirm: EnvValue::Present("true".to_owned()),
        no_fail_fast: EnvValue::Absent,
        dry_run: EnvValue::Present("false".to_owned()),
    };
    assert_eq!(
        jettison_env_args(values).unwrap(),
        JettisonArgs {
            no_confirm: Some(true),
            no_fail_fast: None,
            dry_run: Some(false),
        }
    );
    let bad = JettisonEnvValues {
        no_confirm: EnvValue::Absent,
        no_fail_fast: EnvValue::Present("1".to_owned()),
        dry_run: EnvValue::Present("x".to_owned()),
    };
    let err = jettison_env_args(bad).unwrap_err();
    assert_eq!(err.var_name, "CARGO_LINER_JETTISON_NO_FAIL_FAST");
}

#[test]
fn variable_names_and_values() {
    assert_eq!(ship_var_name("FORCE"), "CARGO_LINER_SHIP_FORCE");
    assert_eq!(jettison_var_name("DRY_RUN"), "CARGO_LINER_JETTISON_DRY_RUN");
    assert_eq!(parse_bool("true"), Some(true));
    assert_eq!(parse_bool("false"), Some(false));
    assert_eq!(parse_bool("True"), None);
    assert_eq!(flag_value("X".to_owned(), EnvValue::Absent), Ok(None));
    assert_eq!(
        choice_value("X".to_owned(), EnvValue::Present("auto".to_owned())),
        Ok(Some(BinstallChoice::Auto))
    );
}
