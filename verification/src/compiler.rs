//! Compiler: [`AgentOpMatch`] → [`Predicate`] / [`Matcher`].
//!
//! Translates declarative match configuration into a predicate tree over
//! [`AgentOp`], and wraps predicates with an action into a [`Matcher`].
use vstd::prelude::*;
use vstd::pervasive::cloned;

use crate::config::{condition_holds, field_condition, metadata_conditions, AgentOpMatch, MetadataMatch};
use crate::context::{AgentOp, AgentOpView};
use crate::inputs::{data_view, AgentOpInput};
use crate::string_match::{InputMatcher, MatcherError, StringMatch};

verus! {

/// A leaf predicate: an input extractor and a string matcher.
pub struct SinglePredicate {
    input: AgentOpInput,
    matcher: InputMatcher,
}

impl SinglePredicate {
    /// Whether the extracted value exists and the matcher accepts it.
    pub closed spec fn holds(self, op: AgentOpView) -> bool {
        match self.input.extract(op) {
            None => false,
            Some(v) => self.matcher.holds(v),
        }
    }

    /// Whether this predicate decides the condition `c` exactly.
    pub closed spec fn implements(self, c: (AgentOpInput, StringMatch)) -> bool {
        &&& self.input == c.0
        &&& forall|v: Seq<char>| #[trigger] self.matcher.holds(v) == c.1.holds(v)
    }

    /// Create a leaf predicate.
    pub fn new(input: AgentOpInput, matcher: InputMatcher) -> (r: Self)
        ensures
            forall|op: AgentOpView| #[trigger] r.holds(op) == match input.extract(op) {
                None => false,
                Some(v) => matcher.holds(v),
            },
    {
        SinglePredicate { input, matcher }
    }

    /// Evaluate against an operation.
    pub fn evaluate(&self, op: &AgentOp) -> (r: bool)
        ensures
            r == self.holds(op@),
    {
        let d = self.input.get(op);
        self.matcher.matches(&d)
    }

    proof fn lemma_implements(self, c: (AgentOpInput, StringMatch), op: AgentOpView)
        requires
            self.implements(c),
        ensures
            self.holds(op) == condition_holds(c, op),
    {
        match self.input.extract(op) {
            None => {},
            Some(v) => {
                assert(self.matcher.holds(v) == c.1.holds(v));
            },
        }
    }
}

/// A predicate tree over agent operations.
pub enum Predicate {
    /// A single input/matcher test.
    Single(SinglePredicate),
    /// All sub-predicates hold.
    And(Vec<Predicate>),
    /// At least one sub-predicate holds.
    Or(Vec<Predicate>),
}

impl Predicate {
    /// Whether the predicate holds of an operation.
    pub open spec fn holds(self, op: AgentOpView) -> bool
        decreases self,
    {
        match self {
            Predicate::Single(s) => s.holds(op),
            Predicate::And(ps) => forall|i: int| 0 <= i < ps@.len() ==> (#[trigger] ps@[i]).holds(op),
            Predicate::Or(ps) => exists|i: int| 0 <= i < ps@.len() && (#[trigger] ps@[i]).holds(op),
        }
    }

    /// Evaluate against an operation; `And` and `Or` stop at the first
    /// deciding sub-predicate.
    pub fn evaluate(&self, op: &AgentOp) -> (r: bool)
        ensures
            r == self.holds(op@),
        decreases self,
    {
        match self {
            Predicate::Single(s) => s.evaluate(op),
            Predicate::And(ps) => {
                let mut i: usize = 0;
                while i < ps.len()
                    invariant
                        0 <= i <= ps@.len(),
                        *self == Predicate::And(*ps),
                        forall|j: int| 0 <= j < i ==> (#[trigger] ps@[j]).holds(op@),
                    decreases ps@.len() - i,
                {
                    proof {
                        assert(decreases_to!(*self => self->And_0));
                        assert(decreases_to!(self->And_0 => self->And_0@));
                        assert(decreases_to!(self->And_0@ => ps@[i as int]));
                    }
                    if !ps[i].evaluate(op) {
                        return false;
                    }
                    i = i + 1;
                }
                true
            },
            Predicate::Or(ps) => {
                let mut i: usize = 0;
                while i < ps.len()
                    invariant
                        0 <= i <= ps@.len(),
                        *self == Predicate::Or(*ps),
                        forall|j: int| 0 <= j < i ==> !(#[trigger] ps@[j]).holds(op@),
                    decreases ps@.len() - i,
                {
                    proof {
                        assert(decreases_to!(*self => self->Or_0));
                        assert(decreases_to!(self->Or_0 => self->Or_0@));
                        assert(decreases_to!(self->Or_0@ => ps@[i as int]));
                    }
                    if ps[i].evaluate(op) {
                        assert(ps@[i as int].holds(op@));
                        return true;
                    }
                    i = i + 1;
                }
                false
            },
        }
    }
}

/// A predicate that holds of every operation (an empty prefix of the agent ID).
fn catch_all() -> (r: Predicate)
    ensures
        r is Single,
        forall|op: AgentOpView| #[trigger] r.holds(op),
{
    let r = Predicate::Single(SinglePredicate::new(AgentOpInput::AgentId, InputMatcher::Prefix(String::new())));
    assert forall|op: AgentOpView| #[trigger] r.holds(op) by {
        assert(op.agent_id.take(0) =~= Seq::<char>::empty());
    }
    r
}

/// `preds` are leaf predicates that decide the conditions `conds`, one to
/// one, and every condition so far compiled.
pub open spec fn compiled_prefix(preds: Seq<Predicate>, conds: Seq<(AgentOpInput, StringMatch)>) -> bool {
    &&& preds.len() == conds.len()
    &&& forall|i: int| 0 <= i < preds.len() ==> (#[trigger] preds[i]) is Single
    &&& forall|i: int| 0 <= i < preds.len() ==> (#[trigger] preds[i])->Single_0.implements(conds[i])
    &&& forall|i: int| 0 <= i < conds.len() ==> (#[trigger] conds[i]).1.compiles()
}

/// Compile one condition into a leaf predicate.
fn compile_condition(input: AgentOpInput, sm: &StringMatch) -> (r: Result<Predicate, MatcherError>)
    ensures
        r is Ok <==> sm.compiles(),
        r matches Ok(p) ==> p is Single && p->Single_0.implements((input, *sm)),
        r matches Err(e) ==> e.pattern@ == sm.pattern(),
{
    let m = sm.to_input_matcher()?;
    Ok(Predicate::Single(SinglePredicate { input, matcher: m }))
}

/// Compile an optional field condition, appending it to `preds`.
fn push_field(
    preds: &mut Vec<Predicate>,
    input: AgentOpInput,
    field: &Option<StringMatch>,
    Ghost(conds): Ghost<Seq<(AgentOpInput, StringMatch)>>,
) -> (r: Result<(), MatcherError>)
    requires
        compiled_prefix(old(preds)@, conds),
    ensures
        r is Ok <==> (field matches Some(sm) ==> sm.compiles()),
        r is Ok ==> compiled_prefix(final(preds)@, conds + field_condition(input, *field)),
        r matches Err(e) ==> field matches Some(sm) && e.pattern@ == sm.pattern(),
{
    match field {
        None => {
            assert(conds + field_condition(input, *field) =~= conds);
            Ok(())
        },
        Some(sm) => {
            let p = compile_condition(input, sm)?;
            let ghost c = (input, *sm);
            preds.push(p);
            assert(conds + field_condition(input, *field) =~= conds.push(c));
            assert forall|i: int| 0 <= i < preds@.len() implies (#[trigger] preds@[i]) is Single
                && preds@[i]->Single_0.implements(conds.push(c)[i]) by {
                if i < conds.len() {
                    assert(preds@[i] == old(preds)@[i]);
                }
            }
            Ok(())
        },
    }
}

/// Whether some condition before position `k` failed to compile: `k` is then
/// the index of the first one.
pub open spec fn first_invalid_in(conds: Seq<(AgentOpInput, StringMatch)>, k: int) -> bool {
    &&& 0 <= k < conds.len()
    &&& !conds[k].1.compiles()
    &&& forall|j: int| 0 <= j < k ==> (#[trigger] conds[j]).1.compiles()
}

/// Build a conjunction: the catch-all when empty, the sole predicate when
/// there is one, `And` otherwise.
fn from_all(preds: Vec<Predicate>) -> (r: Predicate)
    ensures
        forall|op: AgentOpView| #[trigger] r.holds(op) == (forall|i: int|
            0 <= i < preds@.len() ==> (#[trigger] preds@[i]).holds(op)),
        preds@.len() == 0 ==> r is Single,
        preds@.len() == 1 ==> r == preds@[0],
        preds@.len() >= 2 ==> r is And,
{
    if preds.len() == 0 {
        catch_all()
    } else if preds.len() == 1 {
        let ghost orig = preds@;
        let mut preds = preds;
        let p = preds.pop().unwrap();
        assert(p == orig[0]);
        assert forall|op: AgentOpView| #[trigger] p.holds(op) == (forall|i: int|
            0 <= i < orig.len() ==> (#[trigger] orig[i]).holds(op)) by {
            if p.holds(op) {
                assert forall|i: int| 0 <= i < orig.len() implies (#[trigger] orig[i]).holds(op) by {
                    assert(i == 0);
                }
            }
        }
        p
    } else {
        let ghost orig = preds@;
        let r = Predicate::And(preds);
        assert(r->And_0@ == orig);
        r
    }
}

/// Build a disjunction: the sole predicate when there is one, `Or`
/// otherwise; an empty disjunction holds of nothing.
fn from_any(preds: Vec<Predicate>) -> (r: Predicate)
    ensures
        forall|op: AgentOpView| #[trigger] r.holds(op) == (exists|i: int|
            0 <= i < preds@.len() && (#[trigger] preds@[i]).holds(op)),
{
    if preds.len() == 1 {
        let ghost orig = preds@;
        let mut preds = preds;
        let p = preds.pop().unwrap();
        assert(p == orig[0]);
        assert forall|op: AgentOpView| #[trigger] p.holds(op) == (exists|i: int|
            0 <= i < orig.len() && (#[trigger] orig[i]).holds(op)) by {
            if p.holds(op) {
                assert(orig[0].holds(op));
            }
        }
        p
    } else {
        let ghost orig = preds@;
        let r = Predicate::Or(preds);
        assert(r->Or_0@ == orig);
        r
    }
}

proof fn lemma_conjunction(preds: Seq<Predicate>, conds: Seq<(AgentOpInput, StringMatch)>, op: AgentOpView)
    requires
        compiled_prefix(preds, conds),
    ensures
        (forall|i: int| 0 <= i < preds.len() ==> (#[trigger] preds[i]).holds(op)) == (forall|i: int|
            0 <= i < conds.len() ==> condition_holds(#[trigger] conds[i], op)),
{
    assert forall|i: int| 0 <= i < preds.len() implies (#[trigger] preds[i]).holds(op) == condition_holds(conds[i], op) by {
        preds[i]->Single_0.lemma_implements(conds[i], op);
    }
    if forall|i: int| 0 <= i < preds.len() ==> (#[trigger] preds[i]).holds(op) {
        assert forall|i: int| 0 <= i < conds.len() implies condition_holds(#[trigger] conds[i], op) by {
            assert(preds[i].holds(op));
        }
    }
    if forall|i: int| 0 <= i < conds.len() ==> condition_holds(#[trigger] conds[i], op) {
        assert forall|i: int| 0 <= i < preds.len() implies (#[trigger] preds[i]).holds(op) by {
            assert(condition_holds(conds[i], op));
        }
    }
}

impl AgentOpMatch {
    /// Compile this match into a predicate.
    ///
    /// The predicate holds exactly when the match does. An empty match
    /// compiles to a single catch-all test, a match with one condition to
    /// that single test, and a match with several conditions to their `And`.
    /// Fails on the first condition (in the order of `conditions`) whose
    /// regex does not compile.
    pub fn to_predicate(&self) -> (r: Result<Predicate, MatcherError>)
        ensures
            r is Ok <==> self.compiles(),
            r matches Ok(p) ==> forall|op: AgentOpView| #[trigger] p.holds(op) == self.holds(op),
            r matches Ok(p) ==> ((p is Single) <==> self.conditions().len() <= 1),
            r matches Ok(p) ==> ((p is And) <==> self.conditions().len() >= 2),
            r matches Err(e) ==> exists|k: int| first_invalid_in(self.conditions(), k)
                && e.pattern@ == self.conditions()[k].1.pattern(),
    {
        let ghost c0 = Seq::<(AgentOpInput, StringMatch)>::empty();
        let ghost c1 = c0 + field_condition(AgentOpInput::AgentId, self.agent_id);
        let ghost c2 = c1 + field_condition(AgentOpInput::ToolName, self.tool_name);
        let ghost c3 = c2 + field_condition(AgentOpInput::Resource, self.resource);
        let ghost c4 = c3 + field_condition(AgentOpInput::Operation, self.operation);
        let ghost c5 = c4 + field_condition(AgentOpInput::SessionId, self.session_id);
        let ghost all = self.conditions();
        assert(all =~= c5 + match self.metadata {
            None => Seq::empty(),
            Some(v) => metadata_conditions(v@),
        });
        let mut preds: Vec<Predicate> = Vec::new();
        let r = push_field(&mut preds, AgentOpInput::AgentId, &self.agent_id, Ghost(c0));
        if let Err(e) = r {
            assert(first_invalid_in(all, 0));
            return Err(e);
        }
        let r = push_field(&mut preds, AgentOpInput::ToolName, &self.tool_name, Ghost(c1));
        if let Err(e) = r {
            assert(first_invalid_in(all, c1.len() as int));
            return Err(e);
        }
        let r = push_field(&mut preds, AgentOpInput::Resource, &self.resource, Ghost(c2));
        if let Err(e) = r {
            assert(first_invalid_in(all, c2.len() as int));
            return Err(e);
        }
        let r = push_field(&mut preds, AgentOpInput::Operation, &self.operation, Ghost(c3));
        if let Err(e) = r {
            assert(first_invalid_in(all, c3.len() as int));
            return Err(e);
        }
        let r = push_field(&mut preds, AgentOpInput::SessionId, &self.session_id, Ghost(c4));
        if let Err(e) = r {
            assert(first_invalid_in(all, c4.len() as int));
            return Err(e);
        }
        match &self.metadata {
            None => {
                assert(all =~= c5);
            },
            Some(ms) => {
                let ghost mc = metadata_conditions(ms@);
                let mut i: usize = 0;
                while i < ms.len()
                    invariant
                        0 <= i <= ms@.len(),
                        mc == metadata_conditions(ms@),
                        all == c5 + mc,
                        all == self.conditions(),
                        compiled_prefix(preds@, c5 + mc.take(i as int)),
                    decreases ms@.len() - i,
                {
                    let m: &MetadataMatch = &ms[i];
                    let r = compile_condition(AgentOpInput::Metadata(m.key.clone()), &m.value);
                    match r {
                        Err(e) => {
                            assert(mc[i as int] == (AgentOpInput::Metadata(m.key), m.value));
                            let ghost k = c5.len() + i;
                            assert(all[k] == mc[i as int]);
                            assert(!all[k].1.compiles());
                            assert(first_invalid_in(all, c5.len() + i)) by {
                                assert(all[c5.len() + i] == mc[i as int]);
                                assert forall|j: int| 0 <= j < c5.len() + i implies (#[trigger] all[j]).1.compiles() by {
                                    if j < c5.len() {
                                        assert(all[j] == (c5 + mc.take(i as int))[j]);
                                    } else {
                                        assert(all[j] == (c5 + mc.take(i as int))[j]);
                                    }
                                }
                            }
                            assert(e.pattern@ == m.value.pattern());
                            assert(all[k].1 == m.value);
                            assert(first_invalid_in(self.conditions(), k));
                            assert(e.pattern@ == self.conditions()[k].1.pattern());
                            return Err(e);
                        },
                        Ok(p) => {
                            let ghost c = (AgentOpInput::Metadata(m.key), m.value);
                            assert(mc[i as int] == c);
                            let ghost before = preds@;
                            preds.push(p);
                            assert(c5 + mc.take(i + 1) =~= (c5 + mc.take(i as int)).push(c));
                            assert forall|j: int| 0 <= j < preds@.len() implies (#[trigger] preds@[j]) is Single
                                && preds@[j]->Single_0.implements((c5 + mc.take(i + 1))[j]) by {
                                if j < before.len() {
                                    assert(preds@[j] == before[j]);
                                }
                            }
                        },
                    }
                    i = i + 1;
                }
                assert(mc.take(ms@.len() as int) =~= mc);
            },
        }
        assert(compiled_prefix(preds@, all));
        let ghost ps = preds@;
        let p = from_all(preds);
        assert forall|op: AgentOpView| #[trigger] p.holds(op) == self.holds(op) by {
            lemma_conjunction(ps, all, op);
        }
        proof {
            assert(ps.len() == all.len());
            if ps.len() == 1 {
                assert(ps[0] is Single);
            }
        }
        Ok(p)
    }
}

/// Whether a list of matches fires: some match holds (an empty list never
/// fires).
pub open spec fn any_match_holds(matches: Seq<AgentOpMatch>, op: AgentOpView) -> bool {
    exists|i: int| 0 <= i < matches.len() && (#[trigger] matches[i]).holds(op)
}

/// Whether every match of a list compiles.
pub open spec fn all_compile(matches: Seq<AgentOpMatch>) -> bool {
    forall|i: int| 0 <= i < matches.len() ==> (#[trigger] matches[i]).compiles()
}

/// `i` is the first match of the list that does not compile.
pub open spec fn first_invalid_match(matches: Seq<AgentOpMatch>, i: int) -> bool {
    &&& 0 <= i < matches.len()
    &&& !matches[i].compiles()
    &&& forall|j: int| 0 <= j < i ==> (#[trigger] matches[j]).compiles()
}

/// The error a list of matches fails to compile with: the first invalid
/// condition of its first invalid match.
pub open spec fn is_first_error(matches: Seq<AgentOpMatch>, e: MatcherError) -> bool {
    exists|i: int, k: int| first_invalid_match(matches, i) && first_invalid_in(matches[i].conditions(), k)
        && e.pattern@ == (#[trigger] matches[i].conditions()[k]).1.pattern()
}

/// A predicate paired with the action it yields.
pub struct Matcher<A> {
    predicate: Predicate,
    action: A,
    on_no_match: Option<A>,
}

impl<A> Matcher<A> {
    /// The predicate deciding whether the action applies.
    pub closed spec fn predicate(self) -> Predicate {
        self.predicate
    }

    /// The action yielded when the predicate holds.
    pub closed spec fn action(self) -> A {
        self.action
    }

    /// The fallback yielded when the predicate does not hold.
    pub closed spec fn on_no_match(self) -> Option<A> {
        self.on_no_match
    }

    /// Pair a predicate with an action and an optional fallback.
    pub fn from_predicate(predicate: Predicate, action: A, on_no_match: Option<A>) -> (r: Self)
        ensures
            r.predicate() == predicate,
            r.action() == action,
            r.on_no_match() == on_no_match,
    {
        Matcher { predicate, action, on_no_match }
    }

    /// A clone of the action when the predicate holds, else a clone of the
    /// fallback (or `None`).
    pub fn evaluate(&self, op: &AgentOp) -> (r: Option<A>)
        where A: Clone
        ensures
            self.predicate().holds(op@) ==> (r matches Some(a) && cloned(self.action(), a)),
            !self.predicate().holds(op@) ==> (r is Some <==> self.on_no_match() is Some),
            !self.predicate().holds(op@) ==> (r matches Some(a) ==> cloned(
                self.on_no_match()->0,
                a,
            )),
    {
        if self.predicate.evaluate(op) {
            Some(self.action.clone())
        } else {
            match &self.on_no_match {
                Some(a) => Some(a.clone()),
                None => None,
            }
        }
    }
}

impl AgentOpMatch {
    /// Compile this match into a matcher yielding `action` when the match
    /// holds and nothing otherwise.
    pub fn compile<A>(&self, action: A) -> (r: Result<Matcher<A>, MatcherError>)
        ensures
            r is Ok <==> self.compiles(),
            r matches Ok(m) ==> forall|op: AgentOpView| #[trigger] m.predicate().holds(op) == self.holds(op),
            r matches Ok(m) ==> m.action() == action && m.on_no_match() is None,
            r matches Err(e) ==> exists|k: int| first_invalid_in(self.conditions(), k)
                && e.pattern@ == self.conditions()[k].1.pattern(),
    {
        let p = self.to_predicate()?;
        Ok(Matcher::from_predicate(p, action, None))
    }
}

/// Compile several matches into one matcher: they are ORed, so an empty list
/// matches no operation and the matcher yields `on_no_match`.
///
/// Fails with the first invalid condition of the first match that does not
/// compile.
pub fn compile_agent_op_matches<A>(matches: &[AgentOpMatch], action: A, on_no_match: Option<A>) -> (r: Result<Matcher<A>, MatcherError>)
    ensures
        r is Ok <==> all_compile(matches@),
        r matches Ok(m) ==> forall|op: AgentOpView| #[trigger] m.predicate().holds(op) == any_match_holds(matches@, op),
        r matches Ok(m) ==> m.action() == action && m.on_no_match() == on_no_match,
        r matches Err(e) ==> is_first_error(matches@, e),
{
    let mut preds: Vec<Predicate> = Vec::new();
    let mut i: usize = 0;
    while i < matches.len()
        invariant
            0 <= i <= matches@.len(),
            preds@.len() == i,
            forall|j: int| 0 <= j < i ==> (#[trigger] matches@[j]).compiles(),
            forall|j: int, op: AgentOpView| 0 <= j < i ==> (#[trigger] preds@[j].holds(op)) == matches@[j].holds(op),
        decreases matches@.len() - i,
    {
        match matches[i].to_predicate() {
            Ok(p) => {
                preds.push(p);
            },
            Err(e) => {
                assert(first_invalid_match(matches@, i as int));
                let ghost k = choose|k: int| first_invalid_in(matches@[i as int].conditions(), k)
                    && e.pattern@ == matches@[i as int].conditions()[k].1.pattern();
                assert(first_invalid_match(matches@, i as int) && first_invalid_in(matches@[i as int].conditions(), k)
                    && e.pattern@ == matches@[i as int].conditions()[k].1.pattern());
                return Err(e);
            },
        }
        i = i + 1;
    }
    let ghost ps = preds@;
    let p = from_any(preds);
    assert forall|op: AgentOpView| #[trigger] p.holds(op) == any_match_holds(matches@, op) by {
        if p.holds(op) {
            let j = choose|j: int| 0 <= j < ps.len() && (#[trigger] ps[j]).holds(op);
            assert(matches@[j].holds(op));
        }
        if any_match_holds(matches@, op) {
            let j = choose|j: int| 0 <= j < matches@.len() && (#[trigger] matches@[j]).holds(op);
            assert(ps[j].holds(op));
        }
    }
    Ok(Matcher::from_predicate(p, action, on_no_match))
}

} // verus!
