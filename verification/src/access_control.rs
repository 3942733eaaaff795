//! Access control: deny-first policies over the five agent-operation fields,
//! compiled to per-field string matchers.
use vstd::prelude::*;

use crate::string_match::{InputMatcher, MatcherError, StringMatch};

verus! {

/// Match condition for an agent operation.
///
/// All present fields are ANDed; absent fields match anything.
#[derive(Debug, Clone)]
pub struct AgentOpMatch {
    pub agent_id: Option<StringMatch>,
    pub tool_name: Option<StringMatch>,
    pub resource: Option<StringMatch>,
    pub operation: Option<StringMatch>,
    pub session_id: Option<StringMatch>,
}

impl Default for AgentOpMatch {
    /// The empty match, which holds of every operation.
    fn default() -> (r: Self)
        ensures
            r.agent_id is None,
            r.tool_name is None,
            r.resource is None,
            r.operation is None,
            r.session_id is None,
    {
        AgentOpMatch { agent_id: None, tool_name: None, resource: None, operation: None, session_id: None }
    }
}

/// A deny rule: if any of its matches holds, the request is denied with the
/// given reason. A rule with no matches never fires.
#[derive(Debug, Clone)]
pub struct DenyRule {
    /// Human-readable denial reason (included in the response body).
    pub reason: String,
    /// Match conditions (ORed).
    pub matches: Vec<AgentOpMatch>,
}

/// An allow rule: if any of its matches holds, the request is allowed. A
/// rule with no matches never fires.
#[derive(Debug, Clone)]
pub struct AllowRule {
    /// Match conditions (ORed).
    pub matches: Vec<AgentOpMatch>,
}

/// Access control policy: deny rules + allow rules.
///
/// Evaluation order (deny-first): if any deny rule fires → Deny; if any allow
/// rule fires → Allow; otherwise Deny (fail-closed).
#[derive(Debug, Clone)]
pub struct AccessControlPolicy {
    /// Deny rules, checked first.
    pub deny: Vec<DenyRule>,
    /// Allow rules, checked second.
    pub allow: Vec<AllowRule>,
}

impl Default for AccessControlPolicy {
    /// The empty policy, which denies everything.
    fn default() -> (r: Self)
        ensures
            r.deny@.len() == 0,
            r.allow@.len() == 0,
    {
        AccessControlPolicy { deny: Vec::new(), allow: Vec::new() }
    }
}

/// Agent operation context extracted from request headers.
pub struct AgentOp<'a> {
    pub agent_id: &'a str,
    pub tool_name: &'a str,
    pub resource: &'a str,
    pub operation: &'a str,
    pub session_id: &'a str,
}

/// The field values of an [`AgentOp`].
pub struct OpView {
    pub agent_id: Seq<char>,
    pub tool_name: Seq<char>,
    pub resource: Seq<char>,
    pub operation: Seq<char>,
    pub session_id: Seq<char>,
}

impl<'a> View for AgentOp<'a> {
    type V = OpView;

    open spec fn view(&self) -> OpView {
        OpView {
            agent_id: self.agent_id@,
            tool_name: self.tool_name@,
            resource: self.resource@,
            operation: self.operation@,
            session_id: self.session_id@,
        }
    }
}

/// Result of policy evaluation.
#[derive(Debug, Clone, PartialEq, Eq)]
pub enum PolicyDecision {
    Allow,
    Deny { reason: String },
}

impl PolicyDecision {
    /// Returns `true` if the decision is `Allow`.
    pub fn is_allowed(&self) -> (r: bool)
        ensures
            r == (self is Allow),
    {
        match self {
            PolicyDecision::Allow => true,
            PolicyDecision::Deny { .. } => false,
        }
    }

    /// The reason of a denial; empty for `Allow`.
    pub open spec fn reason(self) -> Seq<char> {
        match self {
            PolicyDecision::Allow => Seq::empty(),
            PolicyDecision::Deny { reason } => reason@,
        }
    }
}

/// An optional field condition: absent holds of anything.
pub open spec fn field_holds(m: Option<StringMatch>, v: Seq<char>) -> bool {
    match m {
        None => true,
        Some(s) => s.holds(v),
    }
}

/// An optional field condition compiles.
pub open spec fn field_compiles(m: Option<StringMatch>) -> bool {
    match m {
        None => true,
        Some(s) => s.compiles(),
    }
}

impl AgentOpMatch {
    /// Whether every present field condition holds of the operation.
    pub open spec fn holds(self, op: OpView) -> bool {
        &&& field_holds(self.agent_id, op.agent_id)
        &&& field_holds(self.tool_name, op.tool_name)
        &&& field_holds(self.resource, op.resource)
        &&& field_holds(self.operation, op.operation)
        &&& field_holds(self.session_id, op.session_id)
    }

    /// Whether every present pattern compiles.
    pub open spec fn compiles(self) -> bool {
        &&& field_compiles(self.agent_id)
        &&& field_compiles(self.tool_name)
        &&& field_compiles(self.resource)
        &&& field_compiles(self.operation)
        &&& field_compiles(self.session_id)
    }
}

/// Whether some match of the list holds (never, for an empty list).
pub open spec fn any_holds(matches: Seq<AgentOpMatch>, op: OpView) -> bool {
    exists|i: int| 0 <= i < matches.len() && (#[trigger] matches[i]).holds(op)
}

/// Whether every match of the list compiles.
pub open spec fn all_compile(matches: Seq<AgentOpMatch>) -> bool {
    forall|i: int| 0 <= i < matches.len() ==> (#[trigger] matches[i]).compiles()
}

/// The reason of the first deny rule that fires.
pub open spec fn first_deny_reason(rules: Seq<DenyRule>, op: OpView) -> Option<Seq<char>>
    decreases rules.len(),
{
    if rules.len() == 0 {
        None
    } else if any_holds(rules[0].matches@, op) {
        Some(rules[0].reason@)
    } else {
        first_deny_reason(rules.drop_first(), op)
    }
}

/// The reason given when no rule fires.
pub open spec fn default_deny_reason() -> Seq<char> {
    "no matching allow rule"@
}

impl AccessControlPolicy {
    /// Whether the policy allows the operation, and the denial reason if not.
    pub open spec fn decide(self, op: OpView) -> (bool, Seq<char>) {
        match first_deny_reason(self.deny@, op) {
            Some(reason) => (false, reason),
            None => if exists|j: int| 0 <= j < self.allow@.len() && any_holds((#[trigger] self.allow@[j]).matches@, op) {
                (true, Seq::empty())
            } else {
                (false, default_deny_reason())
            },
        }
    }

    /// Whether every pattern of every rule compiles.
    pub open spec fn compiles(self) -> bool {
        &&& forall|i: int| 0 <= i < self.deny@.len() ==> all_compile((#[trigger] self.deny@[i]).matches@)
        &&& forall|i: int| 0 <= i < self.allow@.len() ==> all_compile((#[trigger] self.allow@[i]).matches@)
    }
}

/// A compiled match: each present field becomes a matcher.
struct CompiledMatch {
    agent_id: Option<InputMatcher>,
    tool_name: Option<InputMatcher>,
    resource: Option<InputMatcher>,
    operation: Option<InputMatcher>,
    session_id: Option<InputMatcher>,
}

/// An optional compiled matcher decides as the optional specification.
spec fn field_agrees(c: Option<InputMatcher>, m: Option<StringMatch>) -> bool {
    match (c, m) {
        (None, None) => true,
        (Some(c), Some(m)) => forall|v: Seq<char>| #[trigger] c.holds(v) == m.holds(v),
        _ => false,
    }
}

impl CompiledMatch {
    spec fn agrees(self, m: AgentOpMatch) -> bool {
        &&& field_agrees(self.agent_id, m.agent_id)
        &&& field_agrees(self.tool_name, m.tool_name)
        &&& field_agrees(self.resource, m.resource)
        &&& field_agrees(self.operation, m.operation)
        &&& field_agrees(self.session_id, m.session_id)
    }
}

spec fn matches_agree(c: Seq<CompiledMatch>, m: Seq<AgentOpMatch>) -> bool {
    &&& c.len() == m.len()
    &&& forall|i: int| 0 <= i < c.len() ==> (#[trigger] c[i]).agrees(m[i])
}

struct CompiledDenyRule {
    reason: String,
    matchers: Vec<CompiledMatch>,
}

struct CompiledAllowRule {
    matchers: Vec<CompiledMatch>,
}

/// Every pattern of the list compiles.
pub open spec fn all_ok(s: Seq<StringMatch>) -> bool {
    forall|j: int| 0 <= j < s.len() ==> (#[trigger] s[j]).compiles()
}

/// `k` is the first pattern of the list that does not compile.
pub open spec fn first_bad(s: Seq<StringMatch>, k: int) -> bool {
    &&& 0 <= k < s.len()
    &&& !s[k].compiles()
    &&& forall|j: int| 0 <= j < k ==> (#[trigger] s[j]).compiles()
}

/// `e` reports the first pattern of `s` that does not compile.
pub open spec fn reports_first_bad(s: Seq<StringMatch>, e: MatcherError) -> bool {
    exists|k: int| first_bad(s, k) && e.pattern@ == s[k].pattern()
}

/// An optional pattern as a sequence of zero or one.
pub open spec fn opt_seq(m: Option<StringMatch>) -> Seq<StringMatch> {
    match m {
        None => Seq::empty(),
        Some(s) => seq![s],
    }
}

/// The present patterns of a match, in field order.
pub open spec fn match_patterns(m: AgentOpMatch) -> Seq<StringMatch> {
    opt_seq(m.agent_id) + opt_seq(m.tool_name) + opt_seq(m.resource) + opt_seq(m.operation) + opt_seq(m.session_id)
}

/// The patterns of a list of matches, in order.
pub open spec fn matches_patterns(ms: Seq<AgentOpMatch>) -> Seq<StringMatch>
    decreases ms.len(),
{
    if ms.len() == 0 {
        Seq::empty()
    } else {
        matches_patterns(ms.drop_last()) + match_patterns(ms.last())
    }
}

/// The patterns of a list of deny rules, in order.
pub open spec fn deny_patterns(rules: Seq<DenyRule>) -> Seq<StringMatch>
    decreases rules.len(),
{
    if rules.len() == 0 {
        Seq::empty()
    } else {
        deny_patterns(rules.drop_last()) + matches_patterns(rules.last().matches@)
    }
}

/// The patterns of a list of allow rules, in order.
pub open spec fn allow_patterns(rules: Seq<AllowRule>) -> Seq<StringMatch>
    decreases rules.len(),
{
    if rules.len() == 0 {
        Seq::empty()
    } else {
        allow_patterns(rules.drop_last()) + matches_patterns(rules.last().matches@)
    }
}

/// Every pattern of a policy, in compilation order: deny rules, then allow
/// rules; within a rule its matches in order; within a match the fields
/// agent ID, tool name, resource, operation, session ID.
pub open spec fn all_patterns(policy: AccessControlPolicy) -> Seq<StringMatch> {
    deny_patterns(policy.deny@) + allow_patterns(policy.allow@)
}

proof fn lemma_ok_concat(a: Seq<StringMatch>, b: Seq<StringMatch>)
    ensures
        all_ok(a + b) == (all_ok(a) && all_ok(b)),
{
    if all_ok(a + b) {
        assert forall|j: int| 0 <= j < b.len() implies (#[trigger] b[j]).compiles() by {
            assert((a + b)[a.len() + j] == b[j]);
        }
        assert forall|j: int| 0 <= j < a.len() implies (#[trigger] a[j]).compiles() by {
            assert((a + b)[j] == a[j]);
        }
    }
    if all_ok(a) && all_ok(b) {
        assert forall|j: int| 0 <= j < (a + b).len() implies (#[trigger] (a + b)[j]).compiles() by {
            if j < a.len() {
                assert((a + b)[j] == a[j]);
            } else {
                assert((a + b)[j] == b[j - a.len()]);
            }
        }
    }
}

proof fn lemma_bad_left(a: Seq<StringMatch>, b: Seq<StringMatch>, e: MatcherError)
    requires
        reports_first_bad(a, e),
    ensures
        reports_first_bad(a + b, e),
{
    let k = choose|k: int| first_bad(a, k) && e.pattern@ == a[k].pattern();
    assert((a + b)[k] == a[k]);
    assert forall|j: int| 0 <= j < k implies (#[trigger] (a + b)[j]).compiles() by {
        assert((a + b)[j] == a[j]);
    }
    assert(first_bad(a + b, k));
}

proof fn lemma_bad_right(a: Seq<StringMatch>, b: Seq<StringMatch>, e: MatcherError)
    requires
        all_ok(a),
        reports_first_bad(b, e),
    ensures
        reports_first_bad(a + b, e),
{
    let k = choose|k: int| first_bad(b, k) && e.pattern@ == b[k].pattern();
    assert((a + b)[a.len() + k] == b[k]);
    assert forall|j: int| 0 <= j < a.len() + k implies (#[trigger] (a + b)[j]).compiles() by {
        if j < a.len() {
            assert((a + b)[j] == a[j]);
        } else {
            assert((a + b)[j] == b[j - a.len()]);
        }
    }
    assert(first_bad(a + b, a.len() + k));
}

proof fn lemma_opt_ok(m: Option<StringMatch>)
    ensures
        all_ok(opt_seq(m)) == field_compiles(m),
{
    if let Some(s) = m {
        assert(opt_seq(m)[0] == s);
    }
}

proof fn lemma_match_ok(m: AgentOpMatch)
    ensures
        all_ok(match_patterns(m)) == m.compiles(),
{
    lemma_opt_ok(m.agent_id);
    lemma_opt_ok(m.tool_name);
    lemma_opt_ok(m.resource);
    lemma_opt_ok(m.operation);
    lemma_opt_ok(m.session_id);
    lemma_ok_concat(opt_seq(m.agent_id), opt_seq(m.tool_name));
    lemma_ok_concat(opt_seq(m.agent_id) + opt_seq(m.tool_name), opt_seq(m.resource));
    lemma_ok_concat(opt_seq(m.agent_id) + opt_seq(m.tool_name) + opt_seq(m.resource), opt_seq(m.operation));
    lemma_ok_concat(
        opt_seq(m.agent_id) + opt_seq(m.tool_name) + opt_seq(m.resource) + opt_seq(m.operation),
        opt_seq(m.session_id),
    );
}

proof fn lemma_matches_ok(ms: Seq<AgentOpMatch>)
    ensures
        all_ok(matches_patterns(ms)) == all_compile(ms),
    decreases ms.len(),
{
    if ms.len() > 0 {
        lemma_matches_ok(ms.drop_last());
        lemma_match_ok(ms.last());
        lemma_ok_concat(matches_patterns(ms.drop_last()), match_patterns(ms.last()));
        if all_compile(ms.drop_last()) && ms.last().compiles() {
            assert forall|i: int| 0 <= i < ms.len() implies (#[trigger] ms[i]).compiles() by {
                if i < ms.len() - 1 {
                    assert(ms[i] == ms.drop_last()[i]);
                }
            }
        }
        if all_compile(ms) {
            assert forall|i: int| 0 <= i < ms.drop_last().len() implies (#[trigger] ms.drop_last()[i]).compiles() by {
                assert(ms[i] == ms.drop_last()[i]);
            }
            assert(ms[ms.len() - 1].compiles());
        }
    } else {
        assert(matches_patterns(ms) =~= Seq::<StringMatch>::empty());
    }
}

/// `a` is a prefix of `b`.
pub open spec fn is_prefix_of<T>(a: Seq<T>, b: Seq<T>) -> bool {
    a.len() <= b.len() && b.take(a.len() as int) == a
}

proof fn lemma_bad_prefix(a: Seq<StringMatch>, b: Seq<StringMatch>, e: MatcherError)
    requires
        reports_first_bad(a, e),
        is_prefix_of(a, b),
    ensures
        reports_first_bad(b, e),
{
    let k = choose|k: int| first_bad(a, k) && e.pattern@ == a[k].pattern();
    assert(b[k] == a[k]);
    assert forall|j: int| 0 <= j < k implies (#[trigger] b[j]).compiles() by {
        assert(b[j] == a[j]);
    }
    assert(first_bad(b, k));
}

proof fn lemma_prefix_trans<T>(a: Seq<T>, b: Seq<T>, c: Seq<T>)
    requires
        is_prefix_of(a, b),
        is_prefix_of(b, c),
    ensures
        is_prefix_of(a, c),
{
    assert(c.take(a.len() as int) =~= a) by {
        assert forall|i: int| 0 <= i < a.len() implies c.take(a.len() as int)[i] == a[i] by {
            assert(c[i] == b[i]);
        }
    }
}

proof fn lemma_prefix_concat<T>(a: Seq<T>, b: Seq<T>)
    ensures
        is_prefix_of(a, a + b),
{
    assert((a + b).take(a.len() as int) =~= a);
}

proof fn lemma_matches_prefix(ms: Seq<AgentOpMatch>, n: int)
    requires
        0 <= n <= ms.len(),
    ensures
        is_prefix_of(matches_patterns(ms.take(n)), matches_patterns(ms)),
    decreases ms.len() - n,
{
    if n == ms.len() {
        assert(ms.take(n) =~= ms);
        assert(matches_patterns(ms).take(matches_patterns(ms).len() as int) =~= matches_patterns(ms));
    } else {
        lemma_matches_prefix(ms, n + 1);
        assert(ms.take(n + 1).drop_last() =~= ms.take(n));
        lemma_prefix_concat(matches_patterns(ms.take(n)), match_patterns(ms.take(n + 1).last()));
        lemma_prefix_trans(matches_patterns(ms.take(n)), matches_patterns(ms.take(n + 1)), matches_patterns(ms));
    }
}

proof fn lemma_deny_prefix(rs: Seq<DenyRule>, n: int)
    requires
        0 <= n <= rs.len(),
    ensures
        is_prefix_of(deny_patterns(rs.take(n)), deny_patterns(rs)),
    decreases rs.len() - n,
{
    if n == rs.len() {
        assert(rs.take(n) =~= rs);
        assert(deny_patterns(rs).take(deny_patterns(rs).len() as int) =~= deny_patterns(rs));
    } else {
        lemma_deny_prefix(rs, n + 1);
        assert(rs.take(n + 1).drop_last() =~= rs.take(n));
        lemma_prefix_concat(deny_patterns(rs.take(n)), matches_patterns(rs.take(n + 1).last().matches@));
        lemma_prefix_trans(deny_patterns(rs.take(n)), deny_patterns(rs.take(n + 1)), deny_patterns(rs));
    }
}

proof fn lemma_allow_prefix(rs: Seq<AllowRule>, n: int)
    requires
        0 <= n <= rs.len(),
    ensures
        is_prefix_of(allow_patterns(rs.take(n)), allow_patterns(rs)),
    decreases rs.len() - n,
{
    if n == rs.len() {
        assert(rs.take(n) =~= rs);
        assert(allow_patterns(rs).take(allow_patterns(rs).len() as int) =~= allow_patterns(rs));
    } else {
        lemma_allow_prefix(rs, n + 1);
        assert(rs.take(n + 1).drop_last() =~= rs.take(n));
        lemma_prefix_concat(allow_patterns(rs.take(n)), matches_patterns(rs.take(n + 1).last().matches@));
        lemma_prefix_trans(allow_patterns(rs.take(n)), allow_patterns(rs.take(n + 1)), allow_patterns(rs));
    }
}

proof fn lemma_deny_ok(rs: Seq<DenyRule>)
    ensures
        all_ok(deny_patterns(rs)) == (forall|i: int| 0 <= i < rs.len() ==> all_compile((#[trigger] rs[i]).matches@)),
    decreases rs.len(),
{
    if rs.len() > 0 {
        lemma_deny_ok(rs.drop_last());
        lemma_matches_ok(rs.last().matches@);
        lemma_ok_concat(deny_patterns(rs.drop_last()), matches_patterns(rs.last().matches@));
        if all_ok(deny_patterns(rs)) {
            assert forall|i: int| 0 <= i < rs.len() implies all_compile((#[trigger] rs[i]).matches@) by {
                if i < rs.len() - 1 {
                    assert(rs[i] == rs.drop_last()[i]);
                }
            }
        }
        if forall|i: int| 0 <= i < rs.len() ==> all_compile((#[trigger] rs[i]).matches@) {
            assert forall|i: int| 0 <= i < rs.drop_last().len() implies all_compile((#[trigger] rs.drop_last()[i]).matches@) by {
                assert(rs[i] == rs.drop_last()[i]);
            }
            assert(all_compile(rs[rs.len() - 1].matches@));
        }
    } else {
        assert(deny_patterns(rs) =~= Seq::<StringMatch>::empty());
    }
}

proof fn lemma_allow_ok(rs: Seq<AllowRule>)
    ensures
        all_ok(allow_patterns(rs)) == (forall|i: int| 0 <= i < rs.len() ==> all_compile((#[trigger] rs[i]).matches@)),
    decreases rs.len(),
{
    if rs.len() > 0 {
        lemma_allow_ok(rs.drop_last());
        lemma_matches_ok(rs.last().matches@);
        lemma_ok_concat(allow_patterns(rs.drop_last()), matches_patterns(rs.last().matches@));
        if all_ok(allow_patterns(rs)) {
            assert forall|i: int| 0 <= i < rs.len() implies all_compile((#[trigger] rs[i]).matches@) by {
                if i < rs.len() - 1 {
                    assert(rs[i] == rs.drop_last()[i]);
                }
            }
        }
        if forall|i: int| 0 <= i < rs.len() ==> all_compile((#[trigger] rs[i]).matches@) {
            assert forall|i: int| 0 <= i < rs.drop_last().len() implies all_compile((#[trigger] rs.drop_last()[i]).matches@) by {
                assert(rs[i] == rs.drop_last()[i]);
            }
            assert(all_compile(rs[rs.len() - 1].matches@));
        }
    } else {
        assert(allow_patterns(rs) =~= Seq::<StringMatch>::empty());
    }
}

/// Compile an optional field.
fn compile_field(f: &Option<StringMatch>) -> (r: Result<Option<InputMatcher>, MatcherError>)
    ensures
        r is Ok <==> field_compiles(*f),
        r matches Ok(c) ==> field_agrees(c, *f),
        r matches Err(e) ==> reports_first_bad(opt_seq(*f), e),
{
    match f {
        None => Ok(None),
        Some(sm) => {
            let m = sm.to_input_matcher();
            match m {
                Ok(m) => Ok(Some(m)),
                Err(e) => {
                    assert(first_bad(opt_seq(*f), 0));
                    Err(e)
                },
            }
        },
    }
}

/// Compile one match, failing on its first invalid pattern.
fn compile_match(m: &AgentOpMatch) -> (r: Result<CompiledMatch, MatcherError>)
    ensures
        r is Ok <==> m.compiles(),
        r matches Ok(c) ==> c.agrees(*m),
        r matches Err(e) ==> reports_first_bad(match_patterns(*m), e),
{
    let ghost (f1, f2, f3, f4, f5) = (
        opt_seq(m.agent_id),
        opt_seq(m.tool_name),
        opt_seq(m.resource),
        opt_seq(m.operation),
        opt_seq(m.session_id),
    );
    proof {
        lemma_opt_ok(m.agent_id);
        lemma_opt_ok(m.tool_name);
        lemma_opt_ok(m.resource);
        lemma_opt_ok(m.operation);
        lemma_opt_ok(m.session_id);
        lemma_ok_concat(f1, f2);
        lemma_ok_concat(f1 + f2, f3);
        lemma_ok_concat(f1 + f2 + f3, f4);
    }
    let agent_id = match compile_field(&m.agent_id) {
        Ok(c) => c,
        Err(e) => {
            proof {
                lemma_bad_left(f1, f2, e);
                lemma_bad_left(f1 + f2, f3, e);
                lemma_bad_left(f1 + f2 + f3, f4, e);
                lemma_bad_left(f1 + f2 + f3 + f4, f5, e);
            }
            return Err(e);
        },
    };
    let tool_name = match compile_field(&m.tool_name) {
        Ok(c) => c,
        Err(e) => {
            proof {
                lemma_bad_right(f1, f2, e);
                lemma_bad_left(f1 + f2, f3, e);
                lemma_bad_left(f1 + f2 + f3, f4, e);
                lemma_bad_left(f1 + f2 + f3 + f4, f5, e);
            }
            return Err(e);
        },
    };
    let resource = match compile_field(&m.resource) {
        Ok(c) => c,
        Err(e) => {
            proof {
                lemma_bad_right(f1 + f2, f3, e);
                lemma_bad_left(f1 + f2 + f3, f4, e);
                lemma_bad_left(f1 + f2 + f3 + f4, f5, e);
            }
            return Err(e);
        },
    };
    let operation = match compile_field(&m.operation) {
        Ok(c) => c,
        Err(e) => {
            proof {
                lemma_bad_right(f1 + f2 + f3, f4, e);
                lemma_bad_left(f1 + f2 + f3 + f4, f5, e);
            }
            return Err(e);
        },
    };
    let session_id = match compile_field(&m.session_id) {
        Ok(c) => c,
        Err(e) => {
            proof {
                lemma_bad_right(f1 + f2 + f3 + f4, f5, e);
            }
            return Err(e);
        },
    };
    Ok(CompiledMatch { agent_id, tool_name, resource, operation, session_id })
}

/// Compile a list of matches, failing on the first invalid pattern.
fn compile_matches(ms: &Vec<AgentOpMatch>) -> (r: Result<Vec<CompiledMatch>, MatcherError>)
    ensures
        r is Ok <==> all_compile(ms@),
        r matches Ok(v) ==> matches_agree(v@, ms@),
        r matches Err(e) ==> reports_first_bad(matches_patterns(ms@), e),
{
    let mut v: Vec<CompiledMatch> = Vec::new();
    let mut i: usize = 0;
    while i < ms.len()
        invariant
            0 <= i <= ms@.len(),
            all_compile(ms@.take(i as int)),
            matches_agree(v@, ms@.take(i as int)),
        decreases ms@.len() - i,
    {
        match compile_match(&ms[i]) {
            Ok(c) => {
                let ghost before = v@;
                v.push(c);
                proof {
                    let t = ms@.take(i + 1);
                    assert forall|j: int| 0 <= j < v@.len() implies (#[trigger] v@[j]).agrees(t[j]) by {
                        if j < i {
                            assert(v@[j] == before[j]);
                            assert(t[j] == ms@.take(i as int)[j]);
                        }
                    }
                    assert forall|j: int| 0 <= j < t.len() implies (#[trigger] t[j]).compiles() by {
                        if j < i {
                            assert(t[j] == ms@.take(i as int)[j]);
                        }
                    }
                }
            },
            Err(e) => {
                proof {
                    lemma_matches_ok(ms@.take(i as int));
                    assert(ms@.take(i + 1).drop_last() =~= ms@.take(i as int));
                    lemma_bad_right(matches_patterns(ms@.take(i as int)), match_patterns(ms@[i as int]), e);
                    lemma_matches_prefix(ms@, i + 1);
                    lemma_bad_prefix(matches_patterns(ms@.take(i + 1)), matches_patterns(ms@), e);
                    assert(!all_compile(ms@));
                }
                return Err(e);
            },
        }
        i = i + 1;
    }
    assert(ms@.take(ms@.len() as int) =~= ms@);
    Ok(v)
}

spec fn opt_matcher_holds(c: Option<InputMatcher>, v: Seq<char>) -> bool {
    match c {
        None => true,
        Some(m) => m.holds(v),
    }
}

impl CompiledMatch {
    spec fn holds(self, op: OpView) -> bool {
        &&& opt_matcher_holds(self.agent_id, op.agent_id)
        &&& opt_matcher_holds(self.tool_name, op.tool_name)
        &&& opt_matcher_holds(self.resource, op.resource)
        &&& opt_matcher_holds(self.operation, op.operation)
        &&& opt_matcher_holds(self.session_id, op.session_id)
    }

    proof fn lemma_agrees(self, m: AgentOpMatch, op: OpView)
        requires
            self.agrees(m),
        ensures
            self.holds(op) == m.holds(op),
    {
        if let Some(c) = self.agent_id { assert(c.holds(op.agent_id) == m.agent_id->0.holds(op.agent_id)); }
        if let Some(c) = self.tool_name { assert(c.holds(op.tool_name) == m.tool_name->0.holds(op.tool_name)); }
        if let Some(c) = self.resource { assert(c.holds(op.resource) == m.resource->0.holds(op.resource)); }
        if let Some(c) = self.operation { assert(c.holds(op.operation) == m.operation->0.holds(op.operation)); }
        if let Some(c) = self.session_id { assert(c.holds(op.session_id) == m.session_id->0.holds(op.session_id)); }
    }
}

spec fn any_compiled_holds(cs: Seq<CompiledMatch>, op: OpView) -> bool {
    exists|i: int| 0 <= i < cs.len() && (#[trigger] cs[i]).holds(op)
}

proof fn lemma_any_agrees(cs: Seq<CompiledMatch>, ms: Seq<AgentOpMatch>, op: OpView)
    requires
        matches_agree(cs, ms),
    ensures
        any_compiled_holds(cs, op) == any_holds(ms, op),
{
    if any_compiled_holds(cs, op) {
        let i = choose|i: int| 0 <= i < cs.len() && (#[trigger] cs[i]).holds(op);
        cs[i].lemma_agrees(ms[i], op);
    }
    if any_holds(ms, op) {
        let i = choose|i: int| 0 <= i < ms.len() && (#[trigger] ms[i]).holds(op);
        cs[i].lemma_agrees(ms[i], op);
    }
}

spec fn first_compiled_deny(rules: Seq<CompiledDenyRule>, op: OpView) -> Option<Seq<char>>
    decreases rules.len(),
{
    if rules.len() == 0 {
        None
    } else if any_compiled_holds(rules[0].matchers@, op) {
        Some(rules[0].reason@)
    } else {
        first_compiled_deny(rules.drop_first(), op)
    }
}

spec fn deny_agree(c: Seq<CompiledDenyRule>, r: Seq<DenyRule>) -> bool {
    &&& c.len() == r.len()
    &&& forall|i: int| 0 <= i < c.len() ==> (#[trigger] c[i]).reason@ == r[i].reason@ && matches_agree(c[i].matchers@, r[i].matches@)
}

spec fn allow_agree(c: Seq<CompiledAllowRule>, r: Seq<AllowRule>) -> bool {
    &&& c.len() == r.len()
    &&& forall|i: int| 0 <= i < c.len() ==> matches_agree((#[trigger] c[i]).matchers@, r[i].matches@)
}

proof fn lemma_deny_agree(c: Seq<CompiledDenyRule>, r: Seq<DenyRule>, op: OpView)
    requires
        deny_agree(c, r),
    ensures
        first_compiled_deny(c, op) == first_deny_reason(r, op),
    decreases r.len(),
{
    if r.len() > 0 {
        lemma_any_agrees(c[0].matchers@, r[0].matches@, op);
        assert forall|i: int| 0 <= i < c.drop_first().len() implies (#[trigger] c.drop_first()[i]).reason@
            == r.drop_first()[i].reason@ && matches_agree(c.drop_first()[i].matchers@, r.drop_first()[i].matches@) by {
            assert(c.drop_first()[i] == c[i + 1]);
            assert(r.drop_first()[i] == r[i + 1]);
        }
        lemma_deny_agree(c.drop_first(), r.drop_first(), op);
    }
}

/// Compiled policy evaluator. Immutable after construction.
pub struct PolicyEvaluator {
    deny_rules: Vec<CompiledDenyRule>,
    allow_rules: Vec<CompiledAllowRule>,
}

impl PolicyEvaluator {
    /// Whether the evaluator allows the operation, and the denial reason if not.
    pub closed spec fn decide(self, op: OpView) -> (bool, Seq<char>) {
        match first_compiled_deny(self.deny_rules@, op) {
            Some(reason) => (false, reason),
            None => if exists|j: int| 0 <= j < self.allow_rules@.len() && any_compiled_holds((#[trigger] self.allow_rules@[j]).matchers@, op) {
                (true, Seq::empty())
            } else {
                (false, default_deny_reason())
            },
        }
    }

    /// Compile an access control policy into matchers. The evaluator decides
    /// exactly as the policy does; compilation fails on the first pattern
    /// (in the order of `all_patterns`) that is not a valid regex.
    pub fn compile(policy: AccessControlPolicy) -> (r: Result<Self, MatcherError>)
        ensures
            r is Ok <==> policy.compiles(),
            r matches Ok(ev) ==> forall|op: OpView| #[trigger] ev.decide(op) == policy.decide(op),
            r matches Err(e) ==> reports_first_bad(all_patterns(policy), e),
    {
        let mut deny_rules: Vec<CompiledDenyRule> = Vec::new();
        let mut i: usize = 0;
        while i < policy.deny.len()
            invariant
                0 <= i <= policy.deny@.len(),
                deny_agree(deny_rules@, policy.deny@.take(i as int)),
                forall|j: int| 0 <= j < i ==> all_compile((#[trigger] policy.deny@[j]).matches@),
            decreases policy.deny@.len() - i,
        {
            let rule = &policy.deny[i];
            match compile_matches(&rule.matches) {
                Ok(matchers) => {
                    let ghost before = deny_rules@;
                    deny_rules.push(CompiledDenyRule { reason: rule.reason.clone(), matchers });
                    proof {
                        let t = policy.deny@.take(i + 1);
                        assert forall|k: int| 0 <= k < deny_rules@.len() implies (#[trigger] deny_rules@[k]).reason@ == t[k].reason@
                            && matches_agree(deny_rules@[k].matchers@, t[k].matches@) by {
                            if k < i {
                                assert(deny_rules@[k] == before[k]);
                                assert(t[k] == policy.deny@.take(i as int)[k]);
                            }
                        }
                    }
                },
                Err(e) => {
                    proof {
                        let rs = policy.deny@;
                        assert forall|j: int| 0 <= j < rs.take(i as int).len() implies all_compile((#[trigger] rs.take(i as int)[j]).matches@) by {
                            assert(rs.take(i as int)[j] == rs[j]);
                        }
                        lemma_deny_ok(rs.take(i as int));
                        assert(rs.take(i + 1).drop_last() =~= rs.take(i as int));
                        lemma_bad_right(deny_patterns(rs.take(i as int)), matches_patterns(rs[i as int].matches@), e);
                        lemma_deny_prefix(rs, i + 1);
                        lemma_bad_prefix(deny_patterns(rs.take(i + 1)), deny_patterns(rs), e);
                        lemma_bad_left(deny_patterns(rs), allow_patterns(policy.allow@), e);
                    }
                    return Err(e);
                },
            }
            i = i + 1;
        }
        assert(policy.deny@.take(policy.deny@.len() as int) =~= policy.deny@);
        let mut allow_rules: Vec<CompiledAllowRule> = Vec::new();
        let mut i: usize = 0;
        while i < policy.allow.len()
            invariant
                0 <= i <= policy.allow@.len(),
                allow_agree(allow_rules@, policy.allow@.take(i as int)),
                forall|j: int| 0 <= j < policy.deny@.len() ==> all_compile((#[trigger] policy.deny@[j]).matches@),
                forall|j: int| 0 <= j < i ==> all_compile((#[trigger] policy.allow@[j]).matches@),
            decreases policy.allow@.len() - i,
        {
            let rule = &policy.allow[i];
            match compile_matches(&rule.matches) {
                Ok(matchers) => {
                    let ghost before = allow_rules@;
                    allow_rules.push(CompiledAllowRule { matchers });
                    proof {
                        let t = policy.allow@.take(i + 1);
                        assert forall|k: int| 0 <= k < allow_rules@.len() implies matches_agree(
                            (#[trigger] allow_rules@[k]).matchers@,
                            t[k].matches@,
                        ) by {
                            if k < i {
                                assert(allow_rules@[k] == before[k]);
                                assert(t[k] == policy.allow@.take(i as int)[k]);
                            }
                        }
                    }
                },
                Err(e) => {
                    proof {
                        let rs = policy.allow@;
                        assert forall|j: int| 0 <= j < rs.take(i as int).len() implies all_compile((#[trigger] rs.take(i as int)[j]).matches@) by {
                            assert(rs.take(i as int)[j] == rs[j]);
                        }
                        lemma_allow_ok(rs.take(i as int));
                        assert(rs.take(i + 1).drop_last() =~= rs.take(i as int));
                        lemma_bad_right(allow_patterns(rs.take(i as int)), matches_patterns(rs[i as int].matches@), e);
                        lemma_allow_prefix(rs, i + 1);
                        lemma_bad_prefix(allow_patterns(rs.take(i + 1)), allow_patterns(rs), e);
                        lemma_deny_ok(policy.deny@);
                        lemma_bad_right(deny_patterns(policy.deny@), allow_patterns(rs), e);
                    }
                    return Err(e);
                },
            }
            i = i + 1;
        }
        assert(policy.allow@.take(policy.allow@.len() as int) =~= policy.allow@);
        let ev = PolicyEvaluator { deny_rules, allow_rules };
        assert forall|op: OpView| #[trigger] ev.decide(op) == policy.decide(op) by {
            lemma_deny_agree(ev.deny_rules@, policy.deny@, op);
            let ca = ev.allow_rules@;
            let ra = policy.allow@;
            if exists|j: int| 0 <= j < ca.len() && any_compiled_holds((#[trigger] ca[j]).matchers@, op) {
                let j = choose|j: int| 0 <= j < ca.len() && any_compiled_holds((#[trigger] ca[j]).matchers@, op);
                lemma_any_agrees(ca[j].matchers@, ra[j].matches@, op);
                assert(any_holds(ra[j].matches@, op));
            }
            if exists|j: int| 0 <= j < ra.len() && any_holds((#[trigger] ra[j]).matches@, op) {
                let j = choose|j: int| 0 <= j < ra.len() && any_holds((#[trigger] ra[j]).matches@, op);
                lemma_any_agrees(ca[j].matchers@, ra[j].matches@, op);
                assert(any_compiled_holds(ca[j].matchers@, op));
            }
        }
        Ok(ev)
    }

    /// Evaluate a policy decision for an agent operation: deny rules, then
    /// allow rules, then default deny.
    pub fn evaluate(&self, op: &AgentOp) -> (r: PolicyDecision)
        ensures
            (r is Allow, r.reason()) == self.decide(op@),
    {
        let mut i: usize = 0;
        assert(self.deny_rules@.skip(0) =~= self.deny_rules@);
        while i < self.deny_rules.len()
            invariant
                0 <= i <= self.deny_rules@.len(),
                first_compiled_deny(self.deny_rules@, op@) == first_compiled_deny(self.deny_rules@.skip(i as int), op@),
            decreases self.deny_rules@.len() - i,
        {
            let rule = &self.deny_rules[i];
            assert(self.deny_rules@.skip(i as int).drop_first() =~= self.deny_rules@.skip(i + 1));
            if any_matches(&rule.matchers, op) {
                return PolicyDecision::Deny { reason: rule.reason.clone() };
            }
            i = i + 1;
        }
        assert(self.deny_rules@.skip(i as int).len() == 0);
        let mut j: usize = 0;
        while j < self.allow_rules.len()
            invariant
                0 <= j <= self.allow_rules@.len(),
                first_compiled_deny(self.deny_rules@, op@) is None,
                forall|k: int| 0 <= k < j ==> !any_compiled_holds((#[trigger] self.allow_rules@[k]).matchers@, op@),
            decreases self.allow_rules@.len() - j,
        {
            if any_matches(&self.allow_rules[j].matchers, op) {
                assert(any_compiled_holds(self.allow_rules@[j as int].matchers@, op@));
                return PolicyDecision::Allow;
            }
            j = j + 1;
        }
        proof {
            reveal_strlit("no matching allow rule");
        }
        PolicyDecision::Deny { reason: String::from_str("no matching allow rule") }
    }
}

fn opt_matches(m: &Option<InputMatcher>, value: &str) -> (r: bool)
    ensures
        r == opt_matcher_holds(*m, value@),
{
    match m {
        None => true,
        Some(m) => m.matches_str(value),
    }
}

fn matches_op(m: &CompiledMatch, op: &AgentOp) -> (r: bool)
    ensures
        r == m.holds(op@),
{
    opt_matches(&m.agent_id, op.agent_id) && opt_matches(&m.tool_name, op.tool_name) && opt_matches(
        &m.resource,
        op.resource,
    ) && opt_matches(&m.operation, op.operation) && opt_matches(&m.session_id, op.session_id)
}

fn any_matches(ms: &Vec<CompiledMatch>, op: &AgentOp) -> (r: bool)
    ensures
        r == any_compiled_holds(ms@, op@),
{
    let mut i: usize = 0;
    while i < ms.len()
        invariant
            0 <= i <= ms@.len(),
            forall|k: int| 0 <= k < i ==> !(#[trigger] ms@[k]).holds(op@),
        decreases ms@.len() - i,
    {
        if matches_op(&ms[i], op) {
            return true;
        }
        i = i + 1;
    }
    false
}

/// A deny rule that fires yields a deny reason.
proof fn lemma_firing_deny(rules: Seq<DenyRule>, op: OpView, i: int)
    requires
        0 <= i < rules.len(),
        any_holds(rules[i].matches@, op),
    ensures
        first_deny_reason(rules, op) is Some,
    decreases rules.len(),
{
    if i > 0 && !any_holds(rules[0].matches@, op) {
        assert(rules.drop_first()[i - 1] == rules[i]);
        lemma_firing_deny(rules.drop_first(), op, i - 1);
    }
}

/// When no deny rule fires there is no deny reason.
proof fn lemma_no_firing_deny(rules: Seq<DenyRule>, op: OpView)
    requires
        forall|i: int| 0 <= i < rules.len() ==> !any_holds((#[trigger] rules[i]).matches@, op),
    ensures
        first_deny_reason(rules, op) is None,
    decreases rules.len(),
{
    if rules.len() > 0 {
        assert(!any_holds(rules[0].matches@, op));
        assert forall|i: int| 0 <= i < rules.drop_first().len() implies !any_holds(
            (#[trigger] rules.drop_first()[i]).matches@,
            op,
        ) by {
            assert(rules.drop_first()[i] == rules[i + 1]);
        }
        lemma_no_firing_deny(rules.drop_first(), op);
    }
}

/// Deny-first: when any deny rule fires the operation is denied, whatever
/// the allow rules say.
pub proof fn law_deny_overrides_allow(policy: AccessControlPolicy, op: OpView, i: int)
    requires
        0 <= i < policy.deny@.len(),
        any_holds(policy.deny@[i].matches@, op),
    ensures
        !policy.decide(op).0,
{
    lemma_firing_deny(policy.deny@, op, i);
}

/// An operation is allowed only when no deny rule fires and some allow rule does.
pub proof fn law_allow_needs_allow_rule(policy: AccessControlPolicy, op: OpView)
    requires
        policy.decide(op).0,
    ensures
        forall|i: int| 0 <= i < policy.deny@.len() ==> !any_holds((#[trigger] policy.deny@[i]).matches@, op),
        exists|j: int| 0 <= j < policy.allow@.len() && any_holds((#[trigger] policy.allow@[j]).matches@, op),
{
    assert forall|i: int| 0 <= i < policy.deny@.len() implies !any_holds((#[trigger] policy.deny@[i]).matches@, op) by {
        if any_holds(policy.deny@[i].matches@, op) {
            lemma_firing_deny(policy.deny@, op, i);
        }
    }
}

/// Fail-closed: when no rule fires, the operation is denied with "no
/// matching allow rule".
pub proof fn law_default_deny(policy: AccessControlPolicy, op: OpView)
    requires
        forall|i: int| 0 <= i < policy.deny@.len() ==> !any_holds((#[trigger] policy.deny@[i]).matches@, op),
        forall|j: int| 0 <= j < policy.allow@.len() ==> !any_holds((#[trigger] policy.allow@[j]).matches@, op),
    ensures
        policy.decide(op) == (false, default_deny_reason()),
{
    lemma_no_firing_deny(policy.deny@, op);
}

/// A policy without rules denies every operation.
pub proof fn law_empty_policy_denies(policy: AccessControlPolicy, op: OpView)
    requires
        policy.deny@.len() == 0,
        policy.allow@.len() == 0,
    ensures
        policy.decide(op) == (false, default_deny_reason()),
{
}

/// A match with no field conditions holds of every operation: absent fields
/// match anything.
pub proof fn law_empty_match_matches_everything(m: AgentOpMatch, op: OpView)
    requires
        m.agent_id is None,
        m.tool_name is None,
        m.resource is None,
        m.operation is None,
        m.session_id is None,
    ensures
        m.holds(op),
{
}

/// A rule with no matches never fires: its matches are alternatives, and
/// there are none.
pub proof fn law_rule_without_matches_never_fires(matches: Seq<AgentOpMatch>, op: OpView)
    requires
        matches.len() == 0,
    ensures
        !any_holds(matches, op),
{
}

/// Within a match every present field must hold: when one of them fails,
/// the match does not hold.
pub proof fn law_match_fields_are_conjoined(m: AgentOpMatch, op: OpView)
    requires
        !field_holds(m.agent_id, op.agent_id) || !field_holds(m.tool_name, op.tool_name)
            || !field_holds(m.resource, op.resource) || !field_holds(m.operation, op.operation)
            || !field_holds(m.session_id, op.session_id),
    ensures
        !m.holds(op),
{
}

/// The reason of the first deny rule to fire: rule `i` fires and none before it.
proof fn lemma_first_firing_deny(rules: Seq<DenyRule>, op: OpView, i: int)
    requires
        0 <= i < rules.len(),
        any_holds(rules[i].matches@, op),
        forall|j: int| 0 <= j < i ==> !any_holds((#[trigger] rules[j]).matches@, op),
    ensures
        first_deny_reason(rules, op) == Some(rules[i].reason@),
    decreases i,
{
    if i > 0 {
        assert(!any_holds(rules[0].matches@, op));
        assert forall|j: int| 0 <= j < i - 1 implies !any_holds((#[trigger] rules.drop_first()[j]).matches@, op) by {
            assert(rules.drop_first()[j] == rules[j + 1]);
        }
        assert(rules.drop_first()[i - 1] == rules[i]);
        lemma_first_firing_deny(rules.drop_first(), op, i - 1);
    }
}

/// Deny rules are checked in order: when rule `i` is the first deny rule
/// that fires, the operation is denied with rule `i`'s reason.
pub proof fn law_first_firing_deny_rule_decides(policy: AccessControlPolicy, op: OpView, i: int)
    requires
        0 <= i < policy.deny@.len(),
        any_holds(policy.deny@[i].matches@, op),
        forall|j: int| 0 <= j < i ==> !any_holds((#[trigger] policy.deny@[j]).matches@, op),
    ensures
        policy.decide(op) == (false, policy.deny@[i].reason@),
{
    lemma_first_firing_deny(policy.deny@, op, i);
}

/// A match holds exactly when each present field condition holds of its own
/// field of the operation: agent ID, tool name, resource, operation verb and
/// session ID; an absent condition holds of anything.
pub proof fn law_match_reads_each_field(m: AgentOpMatch, op: OpView)
    ensures
        m.holds(op) <==> (
            (m.agent_id matches Some(s) ==> s.holds(op.agent_id))
            && (m.tool_name matches Some(s) ==> s.holds(op.tool_name))
            && (m.resource matches Some(s) ==> s.holds(op.resource))
            && (m.operation matches Some(s) ==> s.holds(op.operation))
            && (m.session_id matches Some(s) ==> s.holds(op.session_id))),
{
}

} // verus!
