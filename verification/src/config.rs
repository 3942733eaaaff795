//! User-facing configuration for matching agent operations.
use vstd::prelude::*;

use crate::context::AgentOpView;
use crate::inputs::AgentOpInput;
use crate::string_match::StringMatch;

verus! {

/// Match a specific metadata key/value pair.
#[derive(Debug, Clone)]
pub struct MetadataMatch {
    /// The metadata key to extract.
    pub key: String,
    /// How to match the metadata value.
    pub value: StringMatch,
}

/// User-friendly configuration for matching agent operations.
///
/// All fields are optional. Omitted fields match anything. All present
/// fields are ANDed (every condition must match); a metadata condition on a
/// key the operation lacks fails.
#[derive(Debug, Clone)]
pub struct AgentOpMatch {
    /// Match on agent identity.
    pub agent_id: Option<StringMatch>,
    /// Match on tool/command name.
    pub tool_name: Option<StringMatch>,
    /// Match on target resource path.
    pub resource: Option<StringMatch>,
    /// Match on operation verb.
    pub operation: Option<StringMatch>,
    /// Match on session ID.
    pub session_id: Option<StringMatch>,
    /// Match on metadata key-value pairs (all ANDed).
    pub metadata: Option<Vec<MetadataMatch>>,
}

/// The condition a present field contributes.
pub open spec fn field_condition(input: AgentOpInput, m: Option<StringMatch>) -> Seq<(AgentOpInput, StringMatch)> {
    match m {
        None => Seq::empty(),
        Some(s) => seq![(input, s)],
    }
}

/// The conditions that metadata matches contribute, in order.
pub open spec fn metadata_conditions(ms: Seq<MetadataMatch>) -> Seq<(AgentOpInput, StringMatch)> {
    ms.map_values(|m: MetadataMatch| (AgentOpInput::Metadata(m.key), m.value))
}

/// A condition holds of an operation when its input yields a value the
/// string specification accepts.
pub open spec fn condition_holds(c: (AgentOpInput, StringMatch), op: AgentOpView) -> bool {
    match c.0.extract(op) {
        None => false,
        Some(v) => c.1.holds(v),
    }
}

impl AgentOpMatch {
    /// The conditions this match imposes, in compilation order: agent ID,
    /// tool name, resource, operation, session ID, then each metadata match.
    pub open spec fn conditions(self) -> Seq<(AgentOpInput, StringMatch)> {
        field_condition(AgentOpInput::AgentId, self.agent_id)
            + field_condition(AgentOpInput::ToolName, self.tool_name)
            + field_condition(AgentOpInput::Resource, self.resource)
            + field_condition(AgentOpInput::Operation, self.operation)
            + field_condition(AgentOpInput::SessionId, self.session_id)
            + match self.metadata {
                None => Seq::empty(),
                Some(v) => metadata_conditions(v@),
            }
    }

    /// Whether an operation satisfies every condition of this match.
    pub open spec fn holds(self, op: AgentOpView) -> bool {
        forall|i: int| 0 <= i < self.conditions().len() ==> condition_holds(#[trigger] self.conditions()[i], op)
    }

    /// Whether every pattern of this match compiles.
    pub open spec fn compiles(self) -> bool {
        forall|i: int| 0 <= i < self.conditions().len() ==> (#[trigger] self.conditions()[i]).1.compiles()
    }
}

impl Default for AgentOpMatch {
    /// The empty match: no conditions, matches every operation.
    fn default() -> (r: Self)
        ensures
            r.agent_id is None,
            r.tool_name is None,
            r.resource is None,
            r.operation is None,
            r.session_id is None,
            r.metadata is None,
    {
        AgentOpMatch {
            agent_id: None,
            tool_name: None,
            resource: None,
            operation: None,
            session_id: None,
            metadata: None,
        }
    }
}

/// A match without conditions holds of every operation: omitted fields
/// match anything.
pub proof fn law_empty_match_matches_everything(m: AgentOpMatch, op: AgentOpView)
    requires
        m.agent_id is None,
        m.tool_name is None,
        m.resource is None,
        m.operation is None,
        m.session_id is None,
        m.metadata is None,
    ensures
        m.holds(op),
{
    assert(m.conditions() =~= Seq::<(AgentOpInput, StringMatch)>::empty());
}

/// A metadata condition on a key the operation lacks fails, and with it the
/// whole match.
pub proof fn law_missing_metadata_never_matches(m: AgentOpMatch, op: AgentOpView, j: int)
    requires
        m.metadata matches Some(ms) && 0 <= j < ms@.len() && !op.metadata.contains_key(ms@[j].key@),
    ensures
        !m.holds(op),
{
    let ms = m.metadata->0@;
    let head = field_condition(AgentOpInput::AgentId, m.agent_id) + field_condition(AgentOpInput::ToolName, m.tool_name)
        + field_condition(AgentOpInput::Resource, m.resource) + field_condition(AgentOpInput::Operation, m.operation)
        + field_condition(AgentOpInput::SessionId, m.session_id);
    let k = head.len() + j;
    assert(m.conditions() == head + metadata_conditions(ms));
    assert(m.conditions()[k] == metadata_conditions(ms)[j]);
    assert(!condition_holds(m.conditions()[k], op));
}

/// Every present field must hold: one failing condition fails the match.
pub proof fn law_conditions_are_conjoined(m: AgentOpMatch, op: AgentOpView, k: int)
    requires
        0 <= k < m.conditions().len(),
        !condition_holds(m.conditions()[k], op),
    ensures
        !m.holds(op),
{
}

/// Every condition of a list holds.
pub open spec fn all_hold(cs: Seq<(AgentOpInput, StringMatch)>, op: AgentOpView) -> bool {
    forall|i: int| 0 <= i < cs.len() ==> condition_holds(#[trigger] cs[i], op)
}

proof fn lemma_all_hold_concat(a: Seq<(AgentOpInput, StringMatch)>, b: Seq<(AgentOpInput, StringMatch)>, op: AgentOpView)
    ensures
        all_hold(a + b, op) == (all_hold(a, op) && all_hold(b, op)),
{
    if all_hold(a + b, op) {
        assert forall|i: int| 0 <= i < a.len() implies condition_holds(#[trigger] a[i], op) by {
            assert((a + b)[i] == a[i]);
        }
        assert forall|i: int| 0 <= i < b.len() implies condition_holds(#[trigger] b[i], op) by {
            assert((a + b)[a.len() + i] == b[i]);
        }
    }
    if all_hold(a, op) && all_hold(b, op) {
        assert forall|i: int| 0 <= i < (a + b).len() implies condition_holds(#[trigger] (a + b)[i], op) by {
            if i < a.len() {
                assert((a + b)[i] == a[i]);
            } else {
                assert((a + b)[i] == b[i - a.len()]);
            }
        }
    }
}

/// A pattern on one field holds of it.
pub open spec fn present_holds(m: Option<StringMatch>, v: Seq<char>) -> bool {
    m matches Some(s) ==> s.holds(v)
}

/// A match holds exactly when each present field condition holds of its own
/// field of the operation (agent ID, tool name, resource, operation verb,
/// session ID) and, for each metadata condition, the operation has the key
/// and its value satisfies the condition.
pub proof fn law_match_reads_each_field(m: AgentOpMatch, op: AgentOpView)
    ensures
        m.holds(op) <==> (present_holds(m.agent_id, op.agent_id) && present_holds(m.tool_name, op.tool_name)
            && present_holds(m.resource, op.resource) && present_holds(m.operation, op.operation)
            && present_holds(m.session_id, op.session_id) && (m.metadata matches Some(ms) ==> forall|j: int|
            0 <= j < ms@.len() ==> op.metadata.contains_key((#[trigger] ms@[j]).key@) && ms@[j].value.holds(
            op.metadata[ms@[j].key@],
        ))),
{
    let c1 = field_condition(AgentOpInput::AgentId, m.agent_id);
    let c2 = field_condition(AgentOpInput::ToolName, m.tool_name);
    let c3 = field_condition(AgentOpInput::Resource, m.resource);
    let c4 = field_condition(AgentOpInput::Operation, m.operation);
    let c5 = field_condition(AgentOpInput::SessionId, m.session_id);
    let cm = match m.metadata {
        None => Seq::empty(),
        Some(v) => metadata_conditions(v@),
    };
    assert(m.holds(op) == all_hold(m.conditions(), op));
    lemma_all_hold_concat(c1 + c2 + c3 + c4 + c5, cm, op);
    lemma_all_hold_concat(c1 + c2 + c3 + c4, c5, op);
    lemma_all_hold_concat(c1 + c2 + c3, c4, op);
    lemma_all_hold_concat(c1 + c2, c3, op);
    lemma_all_hold_concat(c1, c2, op);
    assert(all_hold(c1, op) == present_holds(m.agent_id, op.agent_id)) by {
        if m.agent_id is Some { assert(c1[0] == (AgentOpInput::AgentId, m.agent_id->0)); }
    }
    assert(all_hold(c2, op) == present_holds(m.tool_name, op.tool_name)) by {
        if m.tool_name is Some { assert(c2[0] == (AgentOpInput::ToolName, m.tool_name->0)); }
    }
    assert(all_hold(c3, op) == present_holds(m.resource, op.resource)) by {
        if m.resource is Some { assert(c3[0] == (AgentOpInput::Resource, m.resource->0)); }
    }
    assert(all_hold(c4, op) == present_holds(m.operation, op.operation)) by {
        if m.operation is Some { assert(c4[0] == (AgentOpInput::Operation, m.operation->0)); }
    }
    assert(all_hold(c5, op) == present_holds(m.session_id, op.session_id)) by {
        if m.session_id is Some { assert(c5[0] == (AgentOpInput::SessionId, m.session_id->0)); }
    }
    match m.metadata {
        None => {},
        Some(ms) => {
            let v = ms@;
            assert forall|j: int| 0 <= j < v.len() implies #[trigger] cm[j] == (AgentOpInput::Metadata(v[j].key), v[j].value) by {}
            if all_hold(cm, op) {
                assert forall|j: int| 0 <= j < v.len() implies op.metadata.contains_key((#[trigger] v[j]).key@) && v[j].value.holds(
                    op.metadata[v[j].key@],
                ) by {
                    assert(condition_holds(cm[j], op));
                }
            }
        },
    }
}

} // verus!
