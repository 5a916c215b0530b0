//! A service as the request filter sees it, with its mapping rules.

use vstd::prelude::*;
use vstd::string::*;

verus! {

/// A rule that meters the requests with one method and one path.
#[derive(Debug, PartialEq, Eq)]
pub struct MappingRule {
    pattern: String,
    http_method: String,
    metric_system_name: String,
    delta: u32,
}

pub struct MappingRuleView {
    pub pattern: Seq<char>,
    pub http_method: Seq<char>,
    pub metric_system_name: Seq<char>,
    pub delta: u32,
}

impl View for MappingRule {
    type V = MappingRuleView;

    closed spec fn view(&self) -> MappingRuleView {
        MappingRuleView {
            pattern: self.pattern@,
            http_method: self.http_method@,
            metric_system_name: self.metric_system_name@,
            delta: self.delta,
        }
    }
}

/// A rule applies to the requests with its method and exactly its path.
pub open spec fn rule_matches(rule: MappingRuleView, method: Seq<char>, path: Seq<char>) -> bool {
    rule.http_method == method && rule.pattern == path
}

impl MappingRule {
    pub fn new(pattern: String, http_method: String, metric_system_name: String, delta: u32) -> (r:
        MappingRule)
        ensures
            r@ == (MappingRuleView {
                pattern: pattern@,
                http_method: http_method@,
                metric_system_name: metric_system_name@,
                delta,
            }),
    {
        MappingRule { pattern, http_method, metric_system_name, delta }
    }

    /// Whether this rule applies to a request.
    pub fn matches(&self, method: String, path: String) -> (r: bool)
        ensures
            r == rule_matches(self@, method@, path@),
    {
        if self.http_method != method {
            return false;
        }
        if self.pattern != path {
            return false;
        }
        true
    }
}

/// A policy of a service: its name and its settings as JSON text.
#[derive(Debug, PartialEq, Eq)]
pub struct PoliciyConfig {
    pub name: String,
    pub configuration: String,
}

/// A service with the rules that meter its requests.
#[derive(Debug, PartialEq, Eq)]
pub struct Service {
    pub id: u32,
    pub hosts: Vec<String>,
    pub policies: Vec<PoliciyConfig>,
    pub target_domain: String,
    pub proxy_rules: Vec<MappingRule>,
}

/// The views of a list of rules, one for one.
pub open spec fn rule_views(v: Seq<MappingRule>) -> Seq<MappingRuleView> {
    v.map_values(|r: MappingRule| r@)
}

/// The usage that a request adds up: for each rule that applies, in the
/// order of the rules, the rule's metric and its increment.
pub open spec fn usage(rules: Seq<MappingRuleView>, method: Seq<char>, path: Seq<char>) -> Seq<
    (Seq<char>, u32),
>
    decreases rules.len(),
{
    if rules.len() == 0 {
        Seq::empty()
    } else if rule_matches(rules.last(), method, path) {
        usage(rules.drop_last(), method, path).push(
            (rules.last().metric_system_name, rules.last().delta),
        )
    } else {
        usage(rules.drop_last(), method, path)
    }
}

/// The views of a list of metrics with their increments, one for one.
pub open spec fn usage_views(v: Seq<(String, u32)>) -> Seq<(Seq<char>, u32)> {
    v.map_values(|m: (String, u32)| (m.0@, m.1))
}

/// Whether a policy with this name is among the policies.
pub open spec fn names_policy(policies: Seq<PoliciyConfig>, name: Seq<char>) -> bool {
    exists|i: int| 0 <= i < policies.len() && policies[i].name@ == name
}

impl Service {
    /// Whether the service has a policy with this name.
    pub fn has_policy(&self, name: &str) -> (r: bool)
        ensures
            r == names_policy(self.policies@, name@),
    {
        let wanted = String::from_str(name);
        let mut i: usize = 0;
        while i < self.policies.len()
            invariant
                i <= self.policies.len(),
                wanted@ == name@,
                forall|j: int| 0 <= j < i ==> self.policies@[j].name@ != name@,
            decreases self.policies.len() - i,
        {
            if self.policies[i].name == wanted {
                return true;
            }
            i += 1;
        }
        false
    }

    /// Whether any mapping rule applies to a request, and the usage that
    /// the request adds up. Where several rules name one metric, the
    /// increment of the last of them is the one to report.
    pub fn match_mapping_rule(&self, method: String, path: String) -> (r: (bool, Vec<(String, u32)>))
        ensures
            usage_views(r.1@) == usage(rule_views(self.proxy_rules@), method@, path@),
            r.0 == (r.1@.len() > 0),
    {
        let ghost all = rule_views(self.proxy_rules@);
        let mut metrics: Vec<(String, u32)> = Vec::new();
        let mut i: usize = 0;
        assert(all.take(0) =~= Seq::<MappingRuleView>::empty());
        assert(usage_views(metrics@) =~= Seq::<(Seq<char>, u32)>::empty());
        while i < self.proxy_rules.len()
            invariant
                i <= self.proxy_rules.len(),
                all == rule_views(self.proxy_rules@),
                usage_views(metrics@) == usage(all.take(i as int), method@, path@),
            decreases self.proxy_rules.len() - i,
        {
            proof {
                assert(all.take(i + 1).drop_last() =~= all.take(i as int));
                assert(all.take(i + 1).last() == self.proxy_rules@[i as int]@);
            }
            let rule = &self.proxy_rules[i];
            if rule.matches(method.clone(), path.clone()) {
                let ghost before = metrics@;
                metrics.push((rule.metric_system_name.clone(), rule.delta));
                assert(usage_views(metrics@) =~= usage_views(before).push(
                    (rule@.metric_system_name, rule@.delta),
                ));
            }
            i += 1;
        }
        assert(all.take(i as int) =~= all);
        (metrics.len() > 0, metrics)
    }
}

} // verus!
