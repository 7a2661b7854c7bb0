use launchcore::rules::{is_library_allowed, FeatureFlag, OsRule, Platform, Rule};

fn rule(action: &str, os: Option<&str>) -> Rule {
    Rule {
        action: action.to_string(),
        os: os.map(|n| OsRule { name: Some(n.to_string()), version: None, arch: None }),
        features: None,
    }
}

const ALL: [Platform; 4] = [Platform::Windows, Platform::MacOs, Platform::Linux, Platform::Other];

#[test]
fn no_rules_are_allowed_everywhere() {
    for p in ALL {
        assert!(is_library_allowed(&None, p));
        assert!(is_library_allowed(&Some(vec![]), p));
    }
}

#[test]
fn allow_then_disallow_one_os() {
    let rules = Some(vec![rule("allow", None), rule("disallow", Some("osx"))]);
    assert!(is_library_allowed(&rules, Platform::Windows));
    assert!(is_library_allowed(&rules, Platform::Linux));
    assert!(is_library_allowed(&rules, Platform::Other));
    assert!(!is_library_allowed(&rules, Platform::MacOs));
}

#[test]
fn allow_only_on_one_os() {
    let rules = Some(vec![rule("allow", Some("linux"))]);
    assert!(is_library_allowed(&rules, Platform::Linux));
    assert!(!is_library_allowed(&rules, Platform::Windows));
}

#[test]
fn macos_alias_matches() {
    let rules = Some(vec![rule("allow", Some("macos"))]);
    assert!(is_library_allowed(&rules, Platform::MacOs));
    let unknown = Some(vec![rule("allow", Some("beos"))]);
    assert!(!is_library_allowed(&unknown, Platform::Linux));
}

#[test]
fn feature_gated_rules_never_apply() {
    let rules = Some(vec![Rule {
        action: "allow".to_string(),
        os: None,
        features: Some(vec![FeatureFlag { name: "is_demo_user".to_string(), enabled: true }]),
    }]);
    for p in ALL {
        assert!(!is_library_allowed(&rules, p));
    }
}

#[test]
fn later_rule_overrides_earlier() {
    let rules = Some(vec![rule("disallow", None), rule("allow", Some("windows"))]);
    assert!(is_library_allowed(&rules, Platform::Windows));
    assert!(!is_library_allowed(&rules, Platform::Linux));
}
