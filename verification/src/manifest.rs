//! Component manifests at authoring time: the kind of a component and what
//! it consumes and produces.
//!
//! A manifest's `type_url` is the key the runtime registry looks up.
use vstd::prelude::*;

verus! {

/// The four core component kinds; each implies a different runtime contract.
#[derive(Debug, Clone, Copy, PartialEq, Eq, Structural, Hash)]
pub enum ComponentKind {
    /// Autonomous reasoning with session state.
    Agent,
    /// Stateless, single invocation: input to output, no session.
    Capability,
    /// Knowledge and context, loaded into working memory, not executed.
    Skill,
    /// Orchestrated multi-step process with consumes/produces contracts.
    Flow,
}

impl ComponentKind {
    /// The lowercase name of a kind.
    pub open spec fn name(self) -> Seq<char> {
        match self {
            ComponentKind::Agent => "agent"@,
            ComponentKind::Capability => "capability"@,
            ComponentKind::Skill => "skill"@,
            ComponentKind::Flow => "flow"@,
        }
    }

    /// The lowercase name of the kind: `agent`, `capability`, `skill` or `flow`.
    pub fn to_string(&self) -> (r: String)
        ensures
            r@ == self.name(),
    {
        match self {
            ComponentKind::Agent => String::from_str("agent"),
            ComponentKind::Capability => String::from_str("capability"),
            ComponentKind::Skill => String::from_str("skill"),
            ComponentKind::Flow => String::from_str("flow"),
        }
    }
}

/// What a component consumes and produces, what it asserts and what it
/// explicitly does not do.
#[derive(Debug, Clone)]
pub struct ComponentContract {
    /// Input type URLs this component requires.
    pub consumes: Vec<String>,
    /// Output type URL this component produces; `None` for skills.
    pub produces: Option<String>,
    /// Testable statements the component must satisfy.
    pub assertions: Vec<String>,
    /// What this component explicitly does not do.
    pub boundaries: Vec<String>,
}

impl Default for ComponentContract {
    /// The contract that consumes, produces, asserts and excludes nothing.
    fn default() -> (r: Self)
        ensures
            r.consumes@.len() == 0,
            r.produces is None,
            r.assertions@.len() == 0,
            r.boundaries@.len() == 0,
    {
        ComponentContract { consumes: Vec::new(), produces: None, assertions: Vec::new(), boundaries: Vec::new() }
    }
}

} // verus!
