//! The conditional-rule interpreter: rules with an allow/disallow action and
//! optional OS and feature predicates, evaluated over a host description and
//! an enabled-feature set with last-matching-rule-wins semantics. An empty
//! rule list always allows; a non-empty list with no matching rule denies.

use vstd::prelude::*;
use crate::strutil::string_eq;

verus! {

/// What a matching rule decides for the guarded entry.
#[derive(Clone, Copy, PartialEq, Eq, Structural, Debug)]
pub enum RuleAction {
    Allow,
    Disallow,
}

/// Processor architecture of a host, as rule predicates name it.
#[derive(Clone, Copy, PartialEq, Eq, Structural, Debug)]
pub enum Architecture {
    X86,
    X64,
    Arm,
    Arm64,
}

/// A rule's OS predicate: every present field must equal the host's.
pub struct OsRule {
    pub name: Option<String>,
    pub version: Option<String>,
    pub arch: Option<Architecture>,
}

/// One conditional rule. The feature predicate is a list of
/// (feature name, required enabled state) pairs, all of which must hold.
pub struct Rule {
    pub action: RuleAction,
    pub os: Option<OsRule>,
    pub features: Option<Vec<(String, bool)>>,
}

/// The host a rule list is evaluated against.
pub struct HostInfo {
    pub os_name: String,
    pub os_version: String,
    pub arch: Architecture,
}

/// A feature name is enabled iff it occurs in the enabled-feature set.
pub open spec fn feature_enabled(features: Seq<String>, name: Seq<char>) -> bool {
    exists|j: int| 0 <= j < features.len() && features[j]@ == name
}

/// An OS predicate matches when each present field equals the host's value.
pub open spec fn os_rule_matches(os: OsRule, host: HostInfo) -> bool {
    &&& match os.name {
        Option::Some(n) => n@ == host.os_name@,
        Option::None => true,
    }
    &&& match os.version {
        Option::Some(v) => v@ == host.os_version@,
        Option::None => true,
    }
    &&& match os.arch {
        Option::Some(a) => a == host.arch,
        Option::None => true,
    }
}

/// A feature predicate matches when every required feature state equals the
/// feature's membership in the enabled set.
pub open spec fn features_rule_matches(reqs: Seq<(String, bool)>, features: Seq<String>) -> bool {
    forall|j: int|
        0 <= j < reqs.len() ==> (#[trigger] reqs[j]).1 == feature_enabled(features, reqs[j].0@)
}

/// A rule matches when its OS predicate (if any) and its feature predicate
/// (if any) both match.
pub open spec fn rule_matches(r: Rule, host: HostInfo, features: Seq<String>) -> bool {
    &&& match r.os {
        Option::Some(os) => os_rule_matches(os, host),
        Option::None => true,
    }
    &&& match r.features {
        Option::Some(reqs) => features_rule_matches(reqs@, features),
        Option::None => true,
    }
}

/// The scan underlying rule evaluation: walk the rules in order, replacing
/// the accumulated verdict with the action of each matching rule.
pub open spec fn eval_rules_from(
    rules: Seq<Rule>,
    host: HostInfo,
    features: Seq<String>,
    acc: bool,
) -> bool
    decreases rules.len(),
{
    if rules.len() == 0 {
        acc
    } else {
        eval_rules_from(
            rules.skip(1),
            host,
            features,
            if rule_matches(rules[0], host, features) {
                rules[0].action is Allow
            } else {
                acc
            },
        )
    }
}

/// Verdict of a rule list: the action of the last matching rule; with no
/// matching rule, allowed exactly when the list is empty.
pub open spec fn eval_rules(rules: Seq<Rule>, host: HostInfo, features: Seq<String>) -> bool {
    eval_rules_from(rules, host, features, rules.len() == 0)
}

fn feature_enabled_exec(features: &Vec<String>, name: &String) -> (b: bool)
    ensures
        b == feature_enabled(features@, name@),
{
    let n = features.len();
    for j in 0..n
        invariant
            n == features@.len(),
            forall|i: int| 0 <= i < j ==> (#[trigger] features@[i])@ != name@,
    {
        if string_eq(&features[j], name) {
            return true;
        }
    }
    false
}

fn os_rule_matches_exec(os: &OsRule, host: &HostInfo) -> (b: bool)
    ensures
        b == os_rule_matches(*os, *host),
{
    let name_ok = match &os.name {
        Option::Some(n) => string_eq(n, &host.os_name),
        Option::None => true,
    };
    let version_ok = match &os.version {
        Option::Some(v) => string_eq(v, &host.os_version),
        Option::None => true,
    };
    let arch_ok = match &os.arch {
        Option::Some(a) => *a == host.arch,
        Option::None => true,
    };
    name_ok && version_ok && arch_ok
}

fn features_rule_matches_exec(reqs: &Vec<(String, bool)>, features: &Vec<String>) -> (b: bool)
    ensures
        b == features_rule_matches(reqs@, features@),
{
    let n = reqs.len();
    for j in 0..n
        invariant
            n == reqs@.len(),
            forall|i: int|
                0 <= i < j ==> (#[trigger] reqs@[i]).1 == feature_enabled(
                    features@,
                    reqs@[i].0@,
                ),
    {
        let enabled = feature_enabled_exec(features, &reqs[j].0);
        if reqs[j].1 != enabled {
            return false;
        }
    }
    true
}

fn rule_matches_exec(r: &Rule, host: &HostInfo, features: &Vec<String>) -> (b: bool)
    ensures
        b == rule_matches(*r, *host, features@),
{
    let os_ok = match &r.os {
        Option::Some(os) => os_rule_matches_exec(os, host),
        Option::None => true,
    };
    let features_ok = match &r.features {
        Option::Some(reqs) => features_rule_matches_exec(reqs, features),
        Option::None => true,
    };
    os_ok && features_ok
}

/// Evaluate an ordered rule list against a host and an enabled-feature set.
/// The verdict is the action of the last rule whose predicates all match;
/// when no rule matches, the entry is allowed only if the list is empty.
pub fn evaluate(rules: &Vec<Rule>, host: &HostInfo, features: &Vec<String>) -> (verdict: bool)
    ensures
        verdict == eval_rules(rules@, *host, features@),
{
    let n = rules.len();
    let mut result = n == 0;
    proof {
        assert(rules@.skip(0) =~= rules@);
    }
    for idx in 0..n
        invariant
            n == rules@.len(),
            eval_rules_from(rules@.skip(idx as int), *host, features@, result) == eval_rules(
                rules@,
                *host,
                features@,
            ),
    {
        proof {
            assert(rules@.skip(idx as int).skip(1) =~= rules@.skip(idx as int + 1));
            assert(rules@.skip(idx as int)[0] == rules@[idx as int]);
        }
        if rule_matches_exec(&rules[idx], host, features) {
            result = match rules[idx].action {
                RuleAction::Allow => true,
                RuleAction::Disallow => false,
            };
        }
    }
    proof {
        assert(rules@.skip(n as int) =~= Seq::<Rule>::empty());
    }
    result
}

/// With no matching rule in sight, the scan keeps its accumulated verdict.
proof fn lemma_eval_from_no_match(rules: Seq<Rule>, host: HostInfo, features: Seq<String>, acc: bool)
    requires
        forall|j: int| 0 <= j < rules.len() ==> !rule_matches(#[trigger] rules[j], host, features),
    ensures
        eval_rules_from(rules, host, features, acc) == acc,
    decreases rules.len(),
{
    if rules.len() > 0 {
        assert(forall|j: int|
            0 <= j < rules.skip(1).len() ==> !rule_matches(
                #[trigger] rules.skip(1)[j],
                host,
                features,
            ));
        lemma_eval_from_no_match(rules.skip(1), host, features, acc);
    }
}

/// The scan's verdict is the action of the last matching rule, whatever was
/// accumulated before it.
proof fn lemma_eval_from_last_match(
    rules: Seq<Rule>,
    host: HostInfo,
    features: Seq<String>,
    acc: bool,
    i: int,
)
    requires
        0 <= i < rules.len(),
        rule_matches(rules[i], host, features),
        forall|j: int| i < j < rules.len() ==> !rule_matches(#[trigger] rules[j], host, features),
    ensures
        eval_rules_from(rules, host, features, acc) == (rules[i].action is Allow),
    decreases rules.len(),
{
    let acc2 = if rule_matches(rules[0], host, features) {
        rules[0].action is Allow
    } else {
        acc
    };
    if i == 0 {
        assert(forall|j: int|
            0 <= j < rules.skip(1).len() ==> !rule_matches(
                #[trigger] rules.skip(1)[j],
                host,
                features,
            ));
        lemma_eval_from_no_match(rules.skip(1), host, features, acc2);
    } else {
        assert(forall|j: int|
            i - 1 < j < rules.skip(1).len() ==> !rule_matches(
                #[trigger] rules.skip(1)[j],
                host,
                features,
            ));
        assert(rules.skip(1)[i - 1] == rules[i]);
        lemma_eval_from_last_match(rules.skip(1), host, features, acc2, i - 1);
    }
}

/// Last-matching-rule wins: when some rule at index `i` matches and none
/// after it does, the verdict of the whole list is that rule's action.
pub proof fn lemma_eval_rules_last_match(
    rules: Seq<Rule>,
    host: HostInfo,
    features: Seq<String>,
    i: int,
)
    requires
        0 <= i < rules.len(),
        rule_matches(rules[i], host, features),
        forall|j: int| i < j < rules.len() ==> !rule_matches(#[trigger] rules[j], host, features),
    ensures
        eval_rules(rules, host, features) == (rules[i].action is Allow),
{
    lemma_eval_from_last_match(rules, host, features, rules.len() == 0, i);
}

/// With no matching rule at all, the verdict is exactly "the list is empty".
pub proof fn lemma_eval_rules_no_match(rules: Seq<Rule>, host: HostInfo, features: Seq<String>)
    requires
        forall|j: int| 0 <= j < rules.len() ==> !rule_matches(#[trigger] rules[j], host, features),
    ensures
        eval_rules(rules, host, features) == (rules.len() == 0),
{
    lemma_eval_from_no_match(rules, host, features, rules.len() == 0);
}

} // verus!
