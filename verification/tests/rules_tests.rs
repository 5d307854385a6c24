//! Rule interpreter behaviour: last-matching-rule wins, empty list allows,
//! non-empty list with no match denies.

use launcher_core::{evaluate, Architecture, HostInfo, OsRule, Rule, RuleAction};

fn host(os_name: &str) -> HostInfo {
    HostInfo {
        os_name: os_name.to_string(),
        os_version: "10.0".to_string(),
        arch: Architecture::X64,
    }
}

fn allow_all() -> Rule {
    Rule { action: RuleAction::Allow, os: None, features: None }
}

fn os_rule(action: RuleAction, name: &str) -> Rule {
    Rule {
        action,
        os: Some(OsRule { name: Some(name.to_string()), version: None, arch: None }),
        features: None,
    }
}

#[test]
fn empty_rule_list_allows() {
    let rules: Vec<Rule> = Vec::new();
    assert!(evaluate(&rules, &host("linux"), &Vec::new()));
}

#[test]
fn unconditional_allow() {
    let rules = vec![allow_all()];
    assert!(evaluate(&rules, &host("linux"), &Vec::new()));
}

#[test]
fn no_matching_rule_excludes() {
    let rules = vec![os_rule(RuleAction::Allow, "osx")];
    assert!(!evaluate(&rules, &host("linux"), &Vec::new()));
    assert!(evaluate(&rules, &host("osx"), &Vec::new()));
}

#[test]
fn last_matching_rule_wins() {
    let rules = vec![allow_all(), os_rule(RuleAction::Disallow, "osx")];
    assert!(!evaluate(&rules, &host("osx"), &Vec::new()));
    assert!(evaluate(&rules, &host("linux"), &Vec::new()));
}

#[test]
fn os_version_and_arch_must_match_exactly() {
    let rule = Rule {
        action: RuleAction::Allow,
        os: Some(OsRule {
            name: Some("windows".to_string()),
            version: Some("10.0".to_string()),
            arch: Some(Architecture::X64),
        }),
        features: None,
    };
    let rules = vec![rule];
    assert!(evaluate(&rules, &host("windows"), &Vec::new()));
    let other = HostInfo {
        os_name: "windows".to_string(),
        os_version: "6.1".to_string(),
        arch: Architecture::X64,
    };
    assert!(!evaluate(&rules, &other, &Vec::new()));
    let other_arch = HostInfo {
        os_name: "windows".to_string(),
        os_version: "10.0".to_string(),
        arch: Architecture::Arm64,
    };
    assert!(!evaluate(&rules, &other_arch, &Vec::new()));
}

#[test]
fn feature_predicates_check_membership_and_absence() {
    let rule = Rule {
        action: RuleAction::Allow,
        os: None,
        features: Some(vec![
            ("is_demo_user".to_string(), true),
            ("has_custom_resolution".to_string(), false),
        ]),
    };
    let rules = vec![rule];
    let enabled = vec!["is_demo_user".to_string()];
    assert!(evaluate(&rules, &host("linux"), &enabled));
    let both = vec!["is_demo_user".to_string(), "has_custom_resolution".to_string()];
    assert!(!evaluate(&rules, &host("linux"), &both));
    assert!(!evaluate(&rules, &host("linux"), &Vec::new()));
}

#[test]
fn disallow_then_allow_reverses_verdict() {
    let rules = vec![os_rule(RuleAction::Disallow, "osx"), allow_all()];
    assert!(evaluate(&rules, &host("osx"), &Vec::new()));
}
