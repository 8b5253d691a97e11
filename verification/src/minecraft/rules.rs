//! Mojang rule evaluation: ordered, last match wins.

use vstd::prelude::*;

use super::metadata::{OsRule, Rule, RuleAction};
use crate::text::{chars_of, contains_chars, seq_contains_seq, str_equal};

verus! {

#[derive(Debug, Clone, Copy, PartialEq, Eq, Structural)]
pub enum RuleDecision {
    Allow,
    Disallow,
}

/// The host a rule list is evaluated for. `features` maps feature names to
/// flags, each name listed once (see `names_unique`).
#[derive(Debug)]
pub struct RuleContext<'a> {
    pub os_name: &'a str,
    pub architecture: &'a str,
    pub os_version: &'a str,
    pub features: &'a Vec<(String, bool)>,
}

/// The value of feature `name` in `features`: that of its first entry, or
/// `false` when it is absent.
pub open spec fn feature_value(features: Seq<(String, bool)>, name: Seq<char>) -> bool
    decreases features.len(),
{
    if features.len() == 0 {
        false
    } else if features[0].0@ == name {
        features[0].1
    } else {
        feature_value(features.drop_first(), name)
    }
}

/// Whether no feature name occurs twice, as in a map from names to flags.
pub open spec fn names_unique(features: Seq<(String, bool)>) -> bool {
    forall|i: int, j: int|
        0 <= i < j < features.len() ==> (#[trigger] features[i]).0@ != (#[trigger] features[j]).0@
}

/// Looking a feature up reads the list as a map from names to flags: where
/// each name occurs once, a listed name gives its own flag, and an unlisted
/// name gives `false`.
pub proof fn law_feature_lookup_is_map_lookup(features: Seq<(String, bool)>, name: Seq<char>, k: int)
    requires
        names_unique(features),
    ensures
        0 <= k < features.len() && features[k].0@ == name ==> feature_value(features, name)
            == features[k].1,
        (forall|i: int| 0 <= i < features.len() ==> (#[trigger] features[i]).0@ != name)
            ==> !feature_value(features, name),
    decreases features.len(),
{
    if features.len() > 0 {
        let rest = features.drop_first();
        assert(names_unique(rest)) by {
            assert forall|i: int, j: int| 0 <= i < j < rest.len() implies (#[trigger] rest[i]).0@
                != (#[trigger] rest[j]).0@ by {
                assert(rest[i] == features[i + 1] && rest[j] == features[j + 1]);
            }
        }
        law_feature_lookup_is_map_lookup(rest, name, k - 1);
        if 0 < k < features.len() && features[k].0@ == name {
            assert(features[0].0@ != features[k].0@);
            assert(rest[k - 1] == features[k]);
        }
        if forall|i: int| 0 <= i < features.len() ==> (#[trigger] features[i]).0@ != name {
            assert forall|i: int| 0 <= i < rest.len() implies (#[trigger] rest[i]).0@ != name by {
                assert(rest[i] == features[i + 1]);
            }
            assert(features[0].0@ != name);
        }
    }
}

/// Whether a rule's architecture matches the host's: equal, or `x86` for any
/// 32-bit x86 name (`x86`, `i386`, `i686`).
pub open spec fn arch_matches(rule: Seq<char>, actual: Seq<char>) -> bool {
    rule == actual || (rule == "x86"@ && (actual == "x86"@ || actual == "i386"@ || actual
        == "i686"@))
}

/// Whether the OS conditions of a rule hold: each present condition must match,
/// the version condition being a substring of the host's OS version.
pub open spec fn os_matches(os: Option<OsRule>, os_name: Seq<char>, arch: Seq<char>, version: Seq<char>) -> bool {
    match os {
        None => true,
        Some(o) => {
            &&& (o.name matches Some(n) ==> n@ == os_name)
            &&& (o.arch matches Some(a) ==> arch_matches(a@, arch))
            &&& (o.version matches Some(p) ==> seq_contains_seq(version, p@))
        },
    }
}

/// Whether every feature a rule lists has the value the rule expects.
pub open spec fn features_match(required: Seq<(String, bool)>, features: Seq<(String, bool)>) -> bool {
    forall|i: int| 0 <= i < required.len() ==> feature_value(features, (#[trigger] required[i]).0@) == required[i].1
}

impl<'a> RuleContext<'a> {
    /// Whether `rule` applies to this host.
    pub open spec fn applies(self, rule: Rule) -> bool {
        os_matches(rule.os, self.os_name@, self.architecture@, self.os_version@)
            && features_match(rule.features@, self.features@)
    }
}

pub open spec fn decision_of(action: RuleAction) -> RuleDecision {
    match action {
        RuleAction::Allow => RuleDecision::Allow,
        RuleAction::Disallow => RuleDecision::Disallow,
    }
}

/// The decision of the first `n` rules: that of the last applying rule among
/// them, `Disallow` when none applies.
pub open spec fn last_match(rules: Seq<Rule>, ctx: RuleContext, n: int) -> RuleDecision
    decreases n,
{
    if n <= 0 {
        RuleDecision::Disallow
    } else if ctx.applies(rules[n - 1]) {
        decision_of(rules[n - 1].action)
    } else {
        last_match(rules, ctx, n - 1)
    }
}

/// The decision of a rule list: `Allow` when there are no rules, otherwise that
/// of the last applying rule, `Disallow` when none applies.
pub open spec fn rules_decision(rules: Seq<Rule>, ctx: RuleContext) -> RuleDecision {
    if rules.len() == 0 {
        RuleDecision::Allow
    } else {
        last_match(rules, ctx, rules.len() as int)
    }
}

fn feature_lookup(features: &Vec<(String, bool)>, name: &String) -> (r: bool)
    ensures
        r == feature_value(features@, name@),
{
    let mut i: usize = 0;
    assert(features@.skip(0) =~= features@);
    while i < features.len()
        invariant
            i <= features.len(),
            feature_value(features@, name@) == feature_value(features@.skip(i as int), name@),
        decreases features.len() - i,
    {
        assert(features@.skip(i as int)[0] == features@[i as int]);
        if features[i].0 == *name {
            return features[i].1;
        }
        assert(features@.skip(i as int).drop_first() =~= features@.skip(i + 1));
        i += 1;
    }
    assert(features@.skip(i as int).len() == 0);
    false
}

/// Whether a rule's architecture matches the host's.
pub fn architecture_matches(rule: &str, actual: &str) -> (r: bool)
    ensures
        r == arch_matches(rule@, actual@),
{
    str_equal(rule, actual) || (str_equal(rule, "x86") && (str_equal(actual, "x86")
        || str_equal(actual, "i386") || str_equal(actual, "i686")))
}

fn os_rule_matches(os: &Option<OsRule>, context: &RuleContext) -> (r: bool)
    ensures
        r == os_matches(*os, context.os_name@, context.architecture@, context.os_version@),
{
    match os {
        None => true,
        Some(o) => {
            let name_ok = match &o.name {
                Some(n) => str_equal(n.as_str(), context.os_name),
                None => true,
            };
            let arch_ok = match &o.arch {
                Some(a) => architecture_matches(a.as_str(), context.architecture),
                None => true,
            };
            let version_ok = match &o.version {
                Some(p) => contains_chars(&chars_of(context.os_version), &chars_of(p.as_str())),
                None => true,
            };
            name_ok && arch_ok && version_ok
        },
    }
}

/// Whether `rule` applies to the host described by `context`.
pub fn rule_matches(rule: &Rule, context: &RuleContext) -> (r: bool)
    ensures
        r == context.applies(*rule),
{
    if !os_rule_matches(&rule.os, context) {
        return false;
    }
    let mut i: usize = 0;
    while i < rule.features.len()
        invariant
            i <= rule.features.len(),
            forall|k: int|
                0 <= k < i ==> feature_value(context.features@, (#[trigger] rule.features@[k]).0@)
                    == rule.features@[k].1,
        decreases rule.features.len() - i,
    {
        let expected = rule.features[i].1;
        if feature_lookup(context.features, &rule.features[i].0) != expected {
            return false;
        }
        i += 1;
    }
    true
}

/// Evaluates Mojang rules in order. The last matching rule wins; with no rules
/// the answer is `Allow`, and with rules of which none matches it is `Disallow`.
pub fn evaluate_rules(rules: &[Rule], context: &RuleContext) -> (r: RuleDecision)
    ensures
        r == rules_decision(rules@, *context),
{
    if rules.len() == 0 {
        return RuleDecision::Allow;
    }
    let mut decision = RuleDecision::Disallow;
    let mut i: usize = 0;
    while i < rules.len()
        invariant
            i <= rules.len(),
            decision == last_match(rules@, *context, i as int),
        decreases rules.len() - i,
    {
        if rule_matches(&rules[i], context) {
            decision = match rules[i].action {
                RuleAction::Allow => RuleDecision::Allow,
                RuleAction::Disallow => RuleDecision::Disallow,
            };
        }
        i += 1;
    }
    decision
}

/// With no rules, everything is allowed.
pub proof fn law_no_rules_allow(ctx: RuleContext)
    ensures
        rules_decision(Seq::<Rule>::empty(), ctx) == RuleDecision::Allow,
{
}

/// When rules exist but none applies, the answer is `Disallow`.
pub proof fn law_no_match_disallows(rules: Seq<Rule>, ctx: RuleContext)
    requires
        rules.len() > 0,
        forall|i: int| 0 <= i < rules.len() ==> !ctx.applies(#[trigger] rules[i]),
    ensures
        rules_decision(rules, ctx) == RuleDecision::Disallow,
{
    lemma_no_match_prefix(rules, ctx, rules.len() as int);
}

proof fn lemma_no_match_prefix(rules: Seq<Rule>, ctx: RuleContext, n: int)
    requires
        0 <= n <= rules.len(),
        forall|i: int| 0 <= i < rules.len() ==> !ctx.applies(#[trigger] rules[i]),
    ensures
        last_match(rules, ctx, n) == RuleDecision::Disallow,
    decreases n,
{
    if n > 0 {
        lemma_no_match_prefix(rules, ctx, n - 1);
    }
}

/// The last matching rule wins: if rule `k` applies and no later rule does,
/// the list decides as rule `k`'s action says.
pub proof fn law_last_matching_rule_wins(rules: Seq<Rule>, ctx: RuleContext, k: int)
    requires
        0 <= k < rules.len(),
        ctx.applies(rules[k]),
        forall|j: int| k < j < rules.len() ==> !ctx.applies(#[trigger] rules[j]),
    ensures
        rules_decision(rules, ctx) == decision_of(rules[k].action),
{
    lemma_last_match_from(rules, ctx, k, rules.len() as int);
}

proof fn lemma_last_match_from(rules: Seq<Rule>, ctx: RuleContext, k: int, n: int)
    requires
        0 <= k < n <= rules.len(),
        ctx.applies(rules[k]),
        forall|j: int| k < j < rules.len() ==> !ctx.applies(#[trigger] rules[j]),
    ensures
        last_match(rules, ctx, n) == decision_of(rules[k].action),
    decreases n,
{
    if n - 1 > k {
        lemma_last_match_from(rules, ctx, k, n - 1);
    }
}

/// Appending a rule that applies makes its action the decision, whatever came before.
pub proof fn law_appended_match_decides(rules: Seq<Rule>, rule: Rule, ctx: RuleContext)
    requires
        ctx.applies(rule),
    ensures
        rules_decision(rules.push(rule), ctx) == decision_of(rule.action),
{
    assert(rules.push(rule)[rules.len() as int] == rule);
}

/// Appending a rule that does not apply leaves the decision of a non-empty list unchanged.
pub proof fn law_appended_non_match_irrelevant(rules: Seq<Rule>, rule: Rule, ctx: RuleContext)
    requires
        rules.len() > 0,
        !ctx.applies(rule),
    ensures
        rules_decision(rules.push(rule), ctx) == rules_decision(rules, ctx),
{
    let p = rules.push(rule);
    assert(p[rules.len() as int] == rule);
    lemma_last_match_prefix_eq(rules, rule, ctx, rules.len() as int);
}

proof fn lemma_last_match_prefix_eq(rules: Seq<Rule>, rule: Rule, ctx: RuleContext, n: int)
    requires
        0 <= n <= rules.len(),
    ensures
        last_match(rules.push(rule), ctx, n) == last_match(rules, ctx, n),
    decreases n,
{
    if n > 0 {
        assert(rules.push(rule)[n - 1] == rules[n - 1]);
        lemma_last_match_prefix_eq(rules, rule, ctx, n - 1);
    }
}

} // verus!
