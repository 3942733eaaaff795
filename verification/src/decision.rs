//! Policy decisions and deny/allow policy configuration.
use vstd::prelude::*;

use crate::compiler::{all_compile, any_match_holds};
use crate::config::AgentOpMatch;
use crate::context::AgentOpView;

verus! {

/// The abstract content of a [`PolicyDecision`].
pub enum DecisionView {
    Allow,
    Deny(Seq<char>),
}

/// The result of evaluating an agent operation against policy: allowed, or
/// denied with a reason.
#[derive(Debug, Clone, PartialEq, Eq)]
#[non_exhaustive]
pub enum PolicyDecision {
    /// The operation is permitted.
    Allow,
    /// The operation is denied.
    Deny {
        /// Human-readable reason for the denial.
        reason: String,
    },
}

impl View for PolicyDecision {
    type V = DecisionView;

    open spec fn view(&self) -> DecisionView {
        match self {
            PolicyDecision::Allow => DecisionView::Allow,
            PolicyDecision::Deny { reason } => DecisionView::Deny(reason@),
        }
    }
}

impl PolicyDecision {
    /// Returns `true` if the decision is `Allow`.
    pub fn is_allowed(&self) -> (r: bool)
        ensures
            r == (self is Allow),
    {
        match self {
            PolicyDecision::Allow => true,
            PolicyDecision::Deny { .. } => false,
        }
    }

    /// Returns `true` if the decision is `Deny`.
    pub fn is_denied(&self) -> (r: bool)
        ensures
            r == (self is Deny),
    {
        match self {
            PolicyDecision::Allow => false,
            PolicyDecision::Deny { .. } => true,
        }
    }
}

/// A deny rule with a human-readable reason. Its matches are ORed: any match
/// triggers denial, and a rule without matches never fires.
#[derive(Debug, Clone)]
pub struct DenyRule {
    /// Why this operation is denied.
    pub reason: String,
    /// Match conditions (ORed).
    pub matches: Vec<AgentOpMatch>,
}

/// An allow rule. Its matches are ORed: any match grants access, and a rule
/// without matches never fires.
#[derive(Debug, Clone)]
pub struct AllowRule {
    /// Match conditions (ORed).
    pub matches: Vec<AgentOpMatch>,
}

/// A deny/allow policy.
///
/// Evaluation order is fixed: deny rules first (absolute), then allow rules,
/// and when nothing matches the operation is denied.
#[derive(Debug, Clone)]
pub struct DenyAllowPolicy {
    /// Deny rules, evaluated first.
    pub deny: Vec<DenyRule>,
    /// Allow rules, evaluated second.
    pub allow: Vec<AllowRule>,
}

impl Default for DenyAllowPolicy {
    /// The empty policy, which denies everything.
    fn default() -> (r: Self)
        ensures
            r.deny@.len() == 0,
            r.allow@.len() == 0,
    {
        DenyAllowPolicy { deny: Vec::new(), allow: Vec::new() }
    }
}

/// The reason given when no rule matches.
pub open spec fn default_deny_reason() -> Seq<char> {
    "no matching allow rule"@
}

/// The reason of the first deny rule that fires, if any does.
pub open spec fn first_deny_reason(rules: Seq<DenyRule>, op: AgentOpView) -> Option<Seq<char>>
    decreases rules.len(),
{
    if rules.len() == 0 {
        None
    } else if any_match_holds(rules[0].matches@, op) {
        Some(rules[0].reason@)
    } else {
        first_deny_reason(rules.drop_first(), op)
    }
}

/// Whether some allow rule fires.
pub open spec fn some_allow_fires(rules: Seq<AllowRule>, op: AgentOpView) -> bool {
    exists|j: int| 0 <= j < rules.len() && any_match_holds((#[trigger] rules[j]).matches@, op)
}

/// Deny-first decision: the first firing deny rule's reason, else `Allow`
/// when an allow rule fires, else the default denial.
pub open spec fn deny_first(deny: Option<Seq<char>>, allowed: bool) -> DecisionView {
    match deny {
        Some(reason) => DecisionView::Deny(reason),
        None => if allowed {
            DecisionView::Allow
        } else {
            DecisionView::Deny(default_deny_reason())
        },
    }
}

impl DenyAllowPolicy {
    /// The decision this policy gives an operation.
    pub open spec fn decide(self, op: AgentOpView) -> DecisionView {
        deny_first(first_deny_reason(self.deny@, op), some_allow_fires(self.allow@, op))
    }

    /// Whether every pattern of every rule compiles.
    pub open spec fn compiles(self) -> bool {
        &&& forall|i: int| 0 <= i < self.deny@.len() ==> all_compile((#[trigger] self.deny@[i]).matches@)
        &&& forall|i: int| 0 <= i < self.allow@.len() ==> all_compile((#[trigger] self.allow@[i]).matches@)
    }
}

/// A deny rule that fires makes the decision a denial.
pub proof fn lemma_firing_deny_denies(rules: Seq<DenyRule>, op: AgentOpView, i: int)
    requires
        0 <= i < rules.len(),
        any_match_holds(rules[i].matches@, op),
    ensures
        first_deny_reason(rules, op) is Some,
    decreases rules.len(),
{
    if i > 0 && !any_match_holds(rules[0].matches@, op) {
        lemma_firing_deny_denies(rules.drop_first(), op, i - 1);
    }
}

/// When no deny rule fires there is no deny reason.
pub proof fn lemma_no_firing_deny(rules: Seq<DenyRule>, op: AgentOpView)
    requires
        forall|i: int| 0 <= i < rules.len() ==> !any_match_holds((#[trigger] rules[i]).matches@, op),
    ensures
        first_deny_reason(rules, op) is None,
    decreases rules.len(),
{
    if rules.len() > 0 {
        assert(!any_match_holds(rules[0].matches@, op));
        assert forall|i: int| 0 <= i < rules.drop_first().len() implies !any_match_holds(
            (#[trigger] rules.drop_first()[i]).matches@,
            op,
        ) by {
            assert(rules.drop_first()[i] == rules[i + 1]);
        }
        lemma_no_firing_deny(rules.drop_first(), op);
    }
}

/// A deny reason comes from some deny rule that fires.
pub proof fn lemma_deny_reason_fires(rules: Seq<DenyRule>, op: AgentOpView)
    requires
        first_deny_reason(rules, op) is Some,
    ensures
        exists|i: int| 0 <= i < rules.len() && any_match_holds((#[trigger] rules[i]).matches@, op)
            && rules[i].reason@ == first_deny_reason(rules, op)->0,
    decreases rules.len(),
{
    if !any_match_holds(rules[0].matches@, op) {
        lemma_deny_reason_fires(rules.drop_first(), op);
        let i = choose|i: int| 0 <= i < rules.drop_first().len() && any_match_holds(
            (#[trigger] rules.drop_first()[i]).matches@,
            op,
        ) && rules.drop_first()[i].reason@ == first_deny_reason(rules.drop_first(), op)->0;
        assert(rules[i + 1] == rules.drop_first()[i]);
    } else {
        assert(any_match_holds(rules[0].matches@, op));
    }
}

/// Deny rules are absolute: when any deny rule fires, the decision is a
/// denial, whatever the allow rules say.
pub proof fn law_deny_overrides_allow(policy: DenyAllowPolicy, op: AgentOpView, i: int)
    requires
        0 <= i < policy.deny@.len(),
        any_match_holds(policy.deny@[i].matches@, op),
    ensures
        policy.decide(op) is Deny,
{
    lemma_firing_deny_denies(policy.deny@, op, i);
}

/// An operation is allowed only when no deny rule fires and some allow rule
/// fires.
pub proof fn law_allow_needs_allow_rule(policy: DenyAllowPolicy, op: AgentOpView)
    requires
        policy.decide(op) is Allow,
    ensures
        forall|i: int| 0 <= i < policy.deny@.len() ==> !any_match_holds((#[trigger] policy.deny@[i]).matches@, op),
        some_allow_fires(policy.allow@, op),
{
    assert forall|i: int| 0 <= i < policy.deny@.len() implies !any_match_holds(
        (#[trigger] policy.deny@[i]).matches@,
        op,
    ) by {
        if any_match_holds(policy.deny@[i].matches@, op) {
            lemma_firing_deny_denies(policy.deny@, op, i);
        }
    }
}

/// Default deny: when no rule fires at all, the operation is denied with
/// "no matching allow rule".
pub proof fn law_default_deny(policy: DenyAllowPolicy, op: AgentOpView)
    requires
        forall|i: int| 0 <= i < policy.deny@.len() ==> !any_match_holds((#[trigger] policy.deny@[i]).matches@, op),
        !some_allow_fires(policy.allow@, op),
    ensures
        policy.decide(op) == DecisionView::Deny(default_deny_reason()),
{
    lemma_no_firing_deny(policy.deny@, op);
}

/// A policy with no rules denies every operation.
pub proof fn law_empty_policy_denies(policy: DenyAllowPolicy, op: AgentOpView)
    requires
        policy.deny@.len() == 0,
        policy.allow@.len() == 0,
    ensures
        policy.decide(op) == DecisionView::Deny(default_deny_reason()),
{
}

/// Adding a deny rule never turns a denial into an allow: if the extended
/// policy allows an operation, the original one does too.
pub proof fn law_more_deny_rules_never_allow_more(policy: DenyAllowPolicy, extended: DenyAllowPolicy, rule: DenyRule, op: AgentOpView)
    requires
        extended.deny@ == policy.deny@.push(rule),
        extended.allow@ == policy.allow@,
        extended.decide(op) is Allow,
    ensures
        policy.decide(op) is Allow,
{
    law_allow_needs_allow_rule(extended, op);
    assert forall|i: int| 0 <= i < policy.deny@.len() implies !any_match_holds((#[trigger] policy.deny@[i]).matches@, op) by {
        assert(extended.deny@[i] == policy.deny@[i]);
    }
    lemma_no_firing_deny(policy.deny@, op);
}

/// The first firing deny rule of a concatenation: that of the first part,
/// else that of the second.
proof fn lemma_first_deny_concat(a: Seq<DenyRule>, b: Seq<DenyRule>, op: AgentOpView)
    ensures
        first_deny_reason(a + b, op) == match first_deny_reason(a, op) {
            Some(reason) => Some(reason),
            None => first_deny_reason(b, op),
        },
    decreases a.len(),
{
    if a.len() == 0 {
        assert(a + b =~= b);
    } else {
        assert((a + b)[0] == a[0]);
        assert((a + b).drop_first() =~= a.drop_first() + b);
        lemma_first_deny_concat(a.drop_first(), b, op);
    }
}

/// Some allow rule of a concatenation fires exactly when one of either part does.
proof fn lemma_allow_concat(a: Seq<AllowRule>, b: Seq<AllowRule>, op: AgentOpView)
    ensures
        some_allow_fires(a + b, op) == (some_allow_fires(a, op) || some_allow_fires(b, op)),
{
    if some_allow_fires(a + b, op) {
        let j = choose|j: int| 0 <= j < (a + b).len() && any_match_holds((#[trigger] (a + b)[j]).matches@, op);
        if j < a.len() {
            assert((a + b)[j] == a[j]);
        } else {
            assert((a + b)[j] == b[j - a.len()]);
        }
    }
    if some_allow_fires(a, op) {
        let j = choose|j: int| 0 <= j < a.len() && any_match_holds((#[trigger] a[j]).matches@, op);
        assert((a + b)[j] == a[j]);
    }
    if some_allow_fires(b, op) {
        let j = choose|j: int| 0 <= j < b.len() && any_match_holds((#[trigger] b[j]).matches@, op);
        assert((a + b)[a.len() + j] == b[j]);
    }
}

/// Policies grow safely. Extending a policy with deny rules `d` and allow
/// rules `a`:
/// - with no new allow rules, never turns a denial into an allow;
/// - with no new deny rules, never turns an allow into a denial;
/// - never changes the decision where a deny rule of the original fires.
pub proof fn law_policy_monotonic(
    policy: DenyAllowPolicy,
    extended: DenyAllowPolicy,
    d: Seq<DenyRule>,
    a: Seq<AllowRule>,
    op: AgentOpView,
)
    requires
        extended.deny@ == policy.deny@ + d,
        extended.allow@ == policy.allow@ + a,
    ensures
        a.len() == 0 ==> (policy.decide(op) is Deny ==> extended.decide(op) is Deny),
        d.len() == 0 ==> (policy.decide(op) is Allow ==> extended.decide(op) is Allow),
        first_deny_reason(policy.deny@, op) is Some ==> extended.decide(op) == policy.decide(op),
{
    lemma_first_deny_concat(policy.deny@, d, op);
    lemma_allow_concat(policy.allow@, a, op);
    if a.len() == 0 {
        assert(policy.allow@ + a =~= policy.allow@);
    }
    if d.len() == 0 {
        assert(first_deny_reason(d, op) is None);
    }
}

/// A deny or allow rule without matches never fires: its matches are
/// alternatives, and there are none.
pub proof fn law_rule_without_matches_never_fires(matches: Seq<AgentOpMatch>, op: AgentOpView)
    requires
        matches.len() == 0,
    ensures
        !any_match_holds(matches, op),
{
}

/// The reason of the first deny rule to fire: rule `i` fires and none before it.
proof fn lemma_first_firing_deny(rules: Seq<DenyRule>, op: AgentOpView, i: int)
    requires
        0 <= i < rules.len(),
        any_match_holds(rules[i].matches@, op),
        forall|j: int| 0 <= j < i ==> !any_match_holds((#[trigger] rules[j]).matches@, op),
    ensures
        first_deny_reason(rules, op) == Some(rules[i].reason@),
    decreases i,
{
    if i > 0 {
        assert(!any_match_holds(rules[0].matches@, op));
        assert forall|j: int| 0 <= j < i - 1 implies !any_match_holds((#[trigger] rules.drop_first()[j]).matches@, op) by {
            assert(rules.drop_first()[j] == rules[j + 1]);
        }
        assert(rules.drop_first()[i - 1] == rules[i]);
        lemma_first_firing_deny(rules.drop_first(), op, i - 1);
    }
}

/// Deny rules are checked in order: when rule `i` is the first deny rule
/// that fires, the operation is denied with rule `i`'s reason.
pub proof fn law_first_firing_deny_rule_decides(policy: DenyAllowPolicy, op: AgentOpView, i: int)
    requires
        0 <= i < policy.deny@.len(),
        any_match_holds(policy.deny@[i].matches@, op),
        forall|j: int| 0 <= j < i ==> !any_match_holds((#[trigger] policy.deny@[j]).matches@, op),
    ensures
        policy.decide(op) == DecisionView::Deny(policy.deny@[i].reason@),
{
    lemma_first_firing_deny(policy.deny@, op, i);
}

/// With no deny rule firing, the operation is allowed exactly when some
/// allow rule fires.
pub proof fn law_allow_when_no_deny_fires(policy: DenyAllowPolicy, op: AgentOpView)
    requires
        forall|i: int| 0 <= i < policy.deny@.len() ==> !any_match_holds((#[trigger] policy.deny@[i]).matches@, op),
    ensures
        policy.decide(op) is Allow <==> exists|j: int|
            0 <= j < policy.allow@.len() && any_match_holds((#[trigger] policy.allow@[j]).matches@, op),
        !(policy.decide(op) is Allow) ==> policy.decide(op) == DecisionView::Deny("no matching allow rule"@),
{
    lemma_no_firing_deny(policy.deny@, op);
}

} // verus!
