//! Conditional rules that include or exclude a library or an argument
//! depending on the running platform.

use vstd::prelude::*;
use crate::text::str_eq;

verus! {

/// The operating system the launch runs on.
#[derive(Clone, Copy, Debug, PartialEq, Eq, Structural)]
pub enum Platform {
    Windows,
    MacOs,
    Linux,
    Other,
}

/// Operating-system condition of a rule.
#[derive(Clone, Debug)]
pub struct OsRule {
    pub name: Option<String>,
    pub version: Option<String>,
    pub arch: Option<String>,
}

/// One feature flag named by a rule, with the value it asks for.
#[derive(Clone, Debug)]
pub struct FeatureFlag {
    pub name: String,
    pub enabled: bool,
}

/// An (action, condition) pair: `action` is `"allow"` or `"disallow"`.
#[derive(Clone, Debug)]
pub struct Rule {
    pub action: String,
    pub os: Option<OsRule>,
    pub features: Option<Vec<FeatureFlag>>,
}

/// Whether an OS name written in a rule denotes platform `p`; `osx` and
/// `macos` are two spellings of one system.
pub open spec fn os_name_denotes(name: Seq<char>, p: Platform) -> bool {
    if name == "osx"@ || name == "macos"@ {
        p == Platform::MacOs
    } else if name == "linux"@ {
        p == Platform::Linux
    } else if name == "windows"@ {
        p == Platform::Windows
    } else {
        false
    }
}

/// Feature-gated rules never apply: feature-gated options are unsupported.
pub open spec fn feature_gate_applies(features: Option<Vec<FeatureFlag>>) -> bool {
    features.is_none()
}

/// Whether the condition of `r` holds on platform `p`.
pub open spec fn rule_applies(r: Rule, p: Platform) -> bool {
    feature_gate_applies(r.features) && match r.os {
        None => true,
        Some(os) => match os.name {
            None => true,
            Some(n) => os_name_denotes(n@, p),
        },
    }
}

/// Left-to-right fold over the rules, starting from `false`: each rule that
/// applies sets the result to whether its action is `allow`.
pub open spec fn fold_rules(rules: Seq<Rule>, p: Platform) -> bool
    decreases rules.len(),
{
    if rules.len() == 0 {
        false
    } else {
        let r = rules.last();
        if rule_applies(r, p) {
            r.action@ == "allow"@
        } else {
            fold_rules(rules.drop_last(), p)
        }
    }
}

/// Outcome of a possibly absent rule list: no rules means allowed.
pub open spec fn spec_is_allowed(rules: Option<Seq<Rule>>, p: Platform) -> bool {
    match rules {
        None => true,
        Some(rs) => rs.len() == 0 || fold_rules(rs, p),
    }
}

/// View of an optional rule list as an optional sequence.
pub open spec fn rules_view(rules: Option<Vec<Rule>>) -> Option<Seq<Rule>> {
    match rules {
        None => None,
        Some(v) => Some(v@),
    }
}

fn os_name_matches(name: &str, p: Platform) -> (r: bool)
    ensures
        r == os_name_denotes(name@, p),
{
    if str_eq(name, "osx") || str_eq(name, "macos") {
        p == Platform::MacOs
    } else if str_eq(name, "linux") {
        p == Platform::Linux
    } else if str_eq(name, "windows") {
        p == Platform::Windows
    } else {
        false
    }
}

/// Whether the condition of one rule holds on platform `p`.
pub fn rule_matches(rule: &Rule, p: Platform) -> (r: bool)
    ensures
        r == rule_applies(*rule, p),
{
    if rule.features.is_some() {
        return false;
    }
    match &rule.os {
        None => true,
        Some(os_rule) => match &os_rule.name {
            None => true,
            Some(name) => os_name_matches(name.as_str(), p),
        },
    }
}

/// Decides whether a library or argument guarded by `rules` is included on
/// platform `p`.
pub fn is_library_allowed(rules: &Option<Vec<Rule>>, p: Platform) -> (r: bool)
    ensures
        r == spec_is_allowed(rules_view(*rules), p),
{
    let rs = match rules {
        None => {
            return true;
        },
        Some(rs) => rs,
    };
    if rs.len() == 0 {
        return true;
    }
    let mut allowed = false;
    let mut i: usize = 0;
    while i < rs.len()
        invariant
            i <= rs@.len(),
            *rules == Some(*rs),
            allowed == fold_rules(rs@.subrange(0, i as int), p),
        decreases rs@.len() - i,
    {
        let rule = &rs[i];
        assert(rs@.subrange(0, i + 1).drop_last() == rs@.subrange(0, i as int));
        if rule_matches(rule, p) {
            allowed = str_eq(rule.action.as_str(), "allow");
        }
        i = i + 1;
    }
    assert(rs@.subrange(0, rs@.len() as int) == rs@);
    allowed
}

/// With no rule list, or an empty one, every platform is allowed.
pub proof fn lemma_no_rules_allowed(p: Platform)
    ensures
        spec_is_allowed(None, p),
        spec_is_allowed(Some(Seq::<Rule>::empty()), p),
{
}

/// For an unconditional `allow` followed by a `disallow` restricted to one
/// OS name, the outcome is `false` exactly on the platform that name denotes:
/// the later matching rule overrides the earlier one.
pub proof fn lemma_allow_then_disallow_os(rules: Seq<Rule>, name: String, p: Platform)
    requires
        rules.len() == 2,
        rules[0].action@ == "allow"@,
        rules[0].os.is_none(),
        rules[0].features.is_none(),
        rules[1].action@ == "disallow"@,
        rules[1].features.is_none(),
        rules[1].os.is_some(),
        rules[1].os.unwrap().name == Some(name),
    ensures
        spec_is_allowed(Some(rules), p) == !os_name_denotes(name@, p),
{
    reveal_strlit("allow");
    reveal_strlit("disallow");
    reveal_with_fuel(fold_rules, 3);
    assert(rules.drop_last().drop_last().len() == 0);
    assert(rules.drop_last().last() == rules[0]);
    assert(rules.last() == rules[1]);
    assert("disallow"@ != "allow"@) by {
        assert("disallow"@.len() != "allow"@.len());
    }
}

} // verus!
