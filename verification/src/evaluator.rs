//! Deny-first policy evaluation over compiled matchers.
use vstd::prelude::*;

use crate::compiler::{all_compile, any_match_holds, compile_agent_op_matches, is_first_error, Matcher};
use crate::context::{AgentOp, AgentOpView};
use crate::decision::{
    default_deny_reason, deny_first, first_deny_reason, some_allow_fires, AllowRule, DecisionView,
    DenyAllowPolicy, DenyRule, PolicyDecision,
};
use crate::error::PolicyError;

verus! {

/// A compiled deny rule: matcher + reason.
struct CompiledDenyRule {
    matcher: Matcher<()>,
    reason: String,
}

/// A compiled allow rule.
struct CompiledAllowRule {
    matcher: Matcher<()>,
}

/// The reason of the first compiled deny rule that fires.
spec fn first_compiled_deny(rules: Seq<CompiledDenyRule>, op: AgentOpView) -> Option<Seq<char>>
    decreases rules.len(),
{
    if rules.len() == 0 {
        None
    } else if rules[0].matcher.predicate().holds(op) {
        Some(rules[0].reason@)
    } else {
        first_compiled_deny(rules.drop_first(), op)
    }
}

/// Whether some compiled allow rule fires.
spec fn some_compiled_allow(rules: Seq<CompiledAllowRule>, op: AgentOpView) -> bool {
    exists|j: int| 0 <= j < rules.len() && (#[trigger] rules[j]).matcher.predicate().holds(op)
}

/// Compiled deny rules decide exactly as the configured ones.
spec fn deny_rules_agree(compiled: Seq<CompiledDenyRule>, rules: Seq<DenyRule>) -> bool {
    &&& compiled.len() == rules.len()
    &&& forall|i: int| 0 <= i < rules.len() ==> (#[trigger] compiled[i]).reason@ == rules[i].reason@
    &&& forall|i: int| 0 <= i < rules.len() ==> (#[trigger] compiled[i]).matcher.on_no_match() is None
    &&& forall|i: int, op: AgentOpView| 0 <= i < rules.len() ==> (#[trigger] compiled[i].matcher.predicate().holds(op))
        == any_match_holds(rules[i].matches@, op)
}

/// Compiled allow rules decide exactly as the configured ones.
spec fn allow_rules_agree(compiled: Seq<CompiledAllowRule>, rules: Seq<AllowRule>) -> bool {
    &&& compiled.len() == rules.len()
    &&& forall|i: int| 0 <= i < rules.len() ==> (#[trigger] compiled[i]).matcher.on_no_match() is None
    &&& forall|i: int, op: AgentOpView| 0 <= i < rules.len() ==> (#[trigger] compiled[i].matcher.predicate().holds(op))
        == any_match_holds(rules[i].matches@, op)
}

proof fn lemma_deny_agree(compiled: Seq<CompiledDenyRule>, rules: Seq<DenyRule>, op: AgentOpView)
    requires
        deny_rules_agree(compiled, rules),
    ensures
        first_compiled_deny(compiled, op) == first_deny_reason(rules, op),
    decreases rules.len(),
{
    if rules.len() > 0 {
        assert(compiled[0].matcher.predicate().holds(op) == any_match_holds(rules[0].matches@, op));
        assert(compiled[0].reason@ == rules[0].reason@);
        let (c, r) = (compiled.drop_first(), rules.drop_first());
        assert forall|i: int, o: AgentOpView| 0 <= i < r.len() implies (#[trigger] c[i].matcher.predicate().holds(o))
            == any_match_holds(r[i].matches@, o) by {
            assert(c[i] == compiled[i + 1]);
            assert(compiled[i + 1].matcher.predicate().holds(o) == any_match_holds(rules[i + 1].matches@, o));
        }
        assert forall|i: int| 0 <= i < r.len() implies (#[trigger] c[i]).reason@ == r[i].reason@ by {
            assert(c[i] == compiled[i + 1]);
            assert(compiled[i + 1].reason@ == rules[i + 1].reason@);
        }
        lemma_deny_agree(c, r, op);
    }
}

proof fn lemma_allow_agree(compiled: Seq<CompiledAllowRule>, rules: Seq<AllowRule>, op: AgentOpView)
    requires
        allow_rules_agree(compiled, rules),
    ensures
        some_compiled_allow(compiled, op) == some_allow_fires(rules, op),
{
    if some_compiled_allow(compiled, op) {
        let j = choose|j: int| 0 <= j < compiled.len() && (#[trigger] compiled[j]).matcher.predicate().holds(op);
        assert(any_match_holds(rules[j].matches@, op));
    }
    if some_allow_fires(rules, op) {
        let j = choose|j: int| 0 <= j < rules.len() && any_match_holds((#[trigger] rules[j]).matches@, op);
        assert(compiled[j].matcher.predicate().holds(op));
    }
}

/// `i` is the first deny rule with a pattern that does not compile.
pub open spec fn first_invalid_deny(policy: DenyAllowPolicy, i: int) -> bool {
    &&& 0 <= i < policy.deny@.len()
    &&& !all_compile(policy.deny@[i].matches@)
    &&& forall|j: int| 0 <= j < i ==> all_compile((#[trigger] policy.deny@[j]).matches@)
}

/// Every deny rule compiles and `i` is the first allow rule that does not.
pub open spec fn first_invalid_allow(policy: DenyAllowPolicy, i: int) -> bool {
    &&& forall|j: int| 0 <= j < policy.deny@.len() ==> all_compile((#[trigger] policy.deny@[j]).matches@)
    &&& 0 <= i < policy.allow@.len()
    &&& !all_compile(policy.allow@[i].matches@)
    &&& forall|j: int| 0 <= j < i ==> all_compile((#[trigger] policy.allow@[j]).matches@)
}

/// The error compiling `policy` reports: the first failing deny rule, or,
/// when every deny rule compiles, the first failing allow rule, with the
/// first invalid pattern inside it.
pub open spec fn is_compile_error(policy: DenyAllowPolicy, e: PolicyError) -> bool {
    match e {
        PolicyError::InvalidRule { rule_type, rule_index, field, source } => {
            &&& field is None
            &&& ((rule_type@ == "deny"@ && first_invalid_deny(policy, rule_index as int)
                && is_first_error(policy.deny@[rule_index as int].matches@, source))
                || (rule_type@ == "allow"@ && first_invalid_allow(policy, rule_index as int)
                && is_first_error(policy.allow@[rule_index as int].matches@, source)))
        },
        PolicyError::InvalidPolicy { .. } => false,
    }
}

/// Evaluates agent operations against a compiled deny/allow policy.
///
/// Evaluation order: deny rules first (if any fires, `Deny` with its reason),
/// then allow rules (if any fires, `Allow`), else `Deny` with "no matching
/// allow rule".
pub struct PolicyEvaluator {
    deny_rules: Vec<CompiledDenyRule>,
    allow_rules: Vec<CompiledAllowRule>,
}

impl PolicyEvaluator {
    /// The decision this evaluator gives an operation.
    /// Every compiled rule yields nothing when it does not fire.
    #[verifier::type_invariant]
    closed spec fn wf(self) -> bool {
        &&& forall|i: int| 0 <= i < self.deny_rules@.len() ==> (#[trigger] self.deny_rules@[i]).matcher.on_no_match() is None
        &&& forall|i: int| 0 <= i < self.allow_rules@.len() ==> (#[trigger] self.allow_rules@[i]).matcher.on_no_match() is None
    }

    pub closed spec fn decide(self, op: AgentOpView) -> DecisionView {
        deny_first(first_compiled_deny(self.deny_rules@, op), some_compiled_allow(self.allow_rules@, op))
    }

    /// Compile a deny/allow policy into an evaluator that decides exactly as
    /// the policy does. Fails when a regex pattern does not compile, naming
    /// the first failing rule.
    pub fn compile(policy: DenyAllowPolicy) -> (r: Result<Self, PolicyError>)
        ensures
            r is Ok <==> policy.compiles(),
            r matches Ok(ev) ==> forall|op: AgentOpView| #[trigger] ev.decide(op) == policy.decide(op),
            r matches Err(e) ==> is_compile_error(policy, e),
    {
        let mut deny_rules: Vec<CompiledDenyRule> = Vec::new();
        let mut i: usize = 0;
        while i < policy.deny.len()
            invariant
                0 <= i <= policy.deny@.len(),
                deny_rules_agree(deny_rules@, policy.deny@.take(i as int)),
                forall|j: int| 0 <= j < i ==> all_compile((#[trigger] policy.deny@[j]).matches@),
            decreases policy.deny@.len() - i,
        {
            let rule = &policy.deny[i];
            match compile_agent_op_matches(rule.matches.as_slice(), (), None) {
                Ok(matcher) => {
                    let ghost before = deny_rules@;
                    deny_rules.push(CompiledDenyRule { matcher, reason: rule.reason.clone() });
                    proof {
                        let t = policy.deny@.take(i + 1);
                        assert forall|k: int, op: AgentOpView| 0 <= k < t.len() implies (#[trigger] deny_rules@[k].matcher.predicate().holds(op))
                            == any_match_holds(t[k].matches@, op) by {
                            if k < i {
                                assert(deny_rules@[k] == before[k]);
                                assert(t[k] == policy.deny@.take(i as int)[k]);
                            }
                        }
                        assert forall|k: int| 0 <= k < t.len() implies (#[trigger] deny_rules@[k]).matcher.on_no_match() is None by {
                            if k < i {
                                assert(deny_rules@[k] == before[k]);
                            }
                        }
                        assert forall|k: int| 0 <= k < t.len() implies (#[trigger] deny_rules@[k]).reason@ == t[k].reason@ by {
                            if k < i {
                                assert(deny_rules@[k] == before[k]);
                                assert(t[k] == policy.deny@.take(i as int)[k]);
                            }
                        }
                    }
                },
                Err(e) => {
                    let err = PolicyError::InvalidRule { rule_type: "deny", rule_index: i, field: None, source: e };
                    proof {
                        reveal_strlit("deny");
                    }
                    assert(!policy.compiles());
                    return Err(err);
                },
            }
            i = i + 1;
        }
        assert(policy.deny@.take(policy.deny@.len() as int) =~= policy.deny@);

        let mut allow_rules: Vec<CompiledAllowRule> = Vec::new();
        let mut i: usize = 0;
        while i < policy.allow.len()
            invariant
                0 <= i <= policy.allow@.len(),
                allow_rules_agree(allow_rules@, policy.allow@.take(i as int)),
                forall|j: int| 0 <= j < policy.deny@.len() ==> all_compile((#[trigger] policy.deny@[j]).matches@),
                forall|j: int| 0 <= j < i ==> all_compile((#[trigger] policy.allow@[j]).matches@),
            decreases policy.allow@.len() - i,
        {
            let rule = &policy.allow[i];
            match compile_agent_op_matches(rule.matches.as_slice(), (), None) {
                Ok(matcher) => {
                    let ghost before = allow_rules@;
                    allow_rules.push(CompiledAllowRule { matcher });
                    proof {
                        let t = policy.allow@.take(i + 1);
                        assert forall|k: int| 0 <= k < t.len() implies (#[trigger] allow_rules@[k]).matcher.on_no_match() is None by {
                            if k < i {
                                assert(allow_rules@[k] == before[k]);
                            }
                        }
                        assert forall|k: int, op: AgentOpView| 0 <= k < t.len() implies (#[trigger] allow_rules@[k].matcher.predicate().holds(op))
                            == any_match_holds(t[k].matches@, op) by {
                            if k < i {
                                assert(allow_rules@[k] == before[k]);
                                assert(t[k] == policy.allow@.take(i as int)[k]);
                            }
                        }
                    }
                },
                Err(e) => {
                    let err = PolicyError::InvalidRule { rule_type: "allow", rule_index: i, field: None, source: e };
                    proof {
                        reveal_strlit("allow");
                    }
                    assert(!policy.compiles());
                    return Err(err);
                },
            }
            i = i + 1;
        }
        assert(policy.allow@.take(policy.allow@.len() as int) =~= policy.allow@);
        let ev = PolicyEvaluator { deny_rules, allow_rules };
        assert forall|op: AgentOpView| #[trigger] ev.decide(op) == policy.decide(op) by {
            lemma_deny_agree(ev.deny_rules@, policy.deny@, op);
            lemma_allow_agree(ev.allow_rules@, policy.allow@, op);
        }
        Ok(ev)
    }

    /// Evaluate an agent operation: the first firing deny rule's reason, else
    /// `Allow` when an allow rule fires, else "no matching allow rule".
    pub fn evaluate(&self, op: &AgentOp) -> (r: PolicyDecision)
        ensures
            r@ == self.decide(op@),
    {
        proof {
            use_type_invariant(self);
            assert(self.deny_rules@.skip(0) =~= self.deny_rules@);
        }
        let mut i: usize = 0;
        while i < self.deny_rules.len()
            invariant
                0 <= i <= self.deny_rules@.len(),
                self.wf(),
                first_compiled_deny(self.deny_rules@, op@) == first_compiled_deny(self.deny_rules@.skip(i as int), op@),
            decreases self.deny_rules@.len() - i,
        {
            let rule = &self.deny_rules[i];
            assert(self.deny_rules@.skip(i as int).drop_first() =~= self.deny_rules@.skip(i + 1));
            if rule.matcher.evaluate(op).is_some() {
                return PolicyDecision::Deny { reason: rule.reason.clone() };
            }
            i = i + 1;
        }
        assert(self.deny_rules@.skip(i as int).len() == 0);
        let mut j: usize = 0;
        while j < self.allow_rules.len()
            invariant
                0 <= j <= self.allow_rules@.len(),
                self.wf(),
                first_compiled_deny(self.deny_rules@, op@) is None,
                forall|k: int| 0 <= k < j ==> !(#[trigger] self.allow_rules@[k]).matcher.predicate().holds(op@),
            decreases self.allow_rules@.len() - j,
        {
            if self.allow_rules[j].matcher.evaluate(op).is_some() {
                assert(some_compiled_allow(self.allow_rules@, op@)) by {
                    assert(self.allow_rules@[j as int].matcher.predicate().holds(op@));
                }
                return PolicyDecision::Allow;
            }
            j = j + 1;
        }
        proof {
            reveal_strlit("no matching allow rule");
        }
        PolicyDecision::Deny { reason: String::from_str("no matching allow rule") }
    }
}

} // verus!
