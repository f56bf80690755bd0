use cargo_liner::config::package::{serde_default_true, DetailedPackageReq, PackageRequirement};
use cargo_liner::version::VersionReq;

#[test]
fn test_detailedpackagereq_effectiveskipcheck_default() {
    assert!(!DetailedPackageReq::default().effective_skip_check());
}

#[test]
fn test_detailedpackagereq_effectiveskipcheck_skipcheck() {
    assert!(
        DetailedPackageReq {
            skip_check: true,
            ..Default::default()
        }
        .effective_skip_check()
    );
}

#[test]
fn test_detailedpackagereq_effectiveskipcheck_path() {
    assert!(
        DetailedPackageReq {
            path: Some("/a/b/c".to_owned()),
            ..Default::default()
        }
        .effective_skip_check()
    );
}

#[test]
fn test_detailedpackagereq_effectiveskipcheck_git() {
    assert!(
        DetailedPackageReq {
            git: Some("ssh://git@example.com/user/repo.git".to_owned()),
            ..Default::default()
        }
        .effective_skip_check()
    );
}

#[test]
fn test_detailedpackagereq_effectiveskipcheck_branch() {
    assert!(
        DetailedPackageReq {
            branch: Some("example".to_owned()),
            ..Default::default()
        }
        .effective_skip_check()
    );
}

#[test]
fn test_detailedpackagereq_effectiveskipcheck_tag() {
    assert!(
        DetailedPackageReq {
            tag: Some("example".to_owned()),
            ..Default::default()
        }
        .effective_skip_check()
    );
}

#[test]
fn test_detailedpackagereq_effectiveskipcheck_rev() {
    assert!(
        DetailedPackageReq {
            rev: Some("1337133713371337133713371337133713371337".to_owned()),
            ..Default::default()
        }
        .effective_skip_check()
    );
}

#[test]
fn test_detailedpackagereq_effectiveskipcheck_combination_1() {
    assert!(
        DetailedPackageReq {
            skip_check: true,
            path: Some("/a/b/c".to_owned()),
            ..Default::default()
        }
        .effective_skip_check()
    );
}

#[test]
fn test_detailedpackagereq_effectiveskipcheck_combination_2() {
    assert!(
        DetailedPackageReq {
            git: Some("ssh://git@example.com/user/repo.git".to_owned()),
            branch: Some("example".to_owned()),
            ..Default::default()
        }
        .effective_skip_check()
    );
}

#[test]
fn detailed_default_has_documented_values() {
    let d = DetailedPackageReq::default();
    assert_eq!(d.version.as_str(), "*");
    assert!(d.default_features);
    assert!(!d.all_features);
    assert!(d.features.is_empty());
    assert!(d.environment.is_empty());
    assert!(d.binstall.is_none());
    assert!(serde_default_true());
}

#[test]
fn from_requirement_of_simple_keeps_version_only() {
    let req = VersionReq::parse("~1.2").unwrap();
    let d = DetailedPackageReq::from_requirement(PackageRequirement::Simple(req.clone()));
    assert_eq!(d, DetailedPackageReq::with_version(req));
    assert_eq!(d.version.as_str(), "~1.2");
    assert!(!d.effective_skip_check());
}

#[test]
fn from_requirement_of_detailed_is_unchanged() {
    let d = DetailedPackageReq {
        git: Some("https://example.com/repo.git".to_owned()),
        force: true,
        ..Default::default()
    };
    let again = DetailedPackageReq::from_requirement(PackageRequirement::Detailed(Box::new(
        DetailedPackageReq {
            git: Some("https://example.com/repo.git".to_owned()),
            force: true,
            ..Default::default()
        },
    )));
    assert_eq!(again, d);
}

#[test]
fn simple_star_is_star_requirement() {
    assert_eq!(
        PackageRequirement::simple_star(),
        PackageRequirement::Simple(VersionReq::star())
    );
    assert_eq!(VersionReq::star().as_str(), "*");
}
