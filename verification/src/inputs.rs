//! Extractors that pull matching data out of an [`AgentOp`].
use vstd::prelude::*;

use crate::context::{AgentOp, AgentOpView};
use crate::string_match::MatchingData;
use crate::text::str_eq;

verus! {

/// The string an extraction yields, if any.
pub open spec fn data_view(d: MatchingData) -> Option<Seq<char>> {
    match d {
        MatchingData::Absent => None,
        MatchingData::String(s) => Some(s@),
    }
}

/// Extracts the agent ID.
#[derive(Debug, Clone)]
pub struct AgentIdInput;

impl AgentIdInput {
    /// The agent ID, as a string value.
    pub fn get(&self, ctx: &AgentOp) -> (r: MatchingData)
        ensures
            data_view(r) == Some(ctx@.agent_id),
    {
        MatchingData::String(String::from_str(ctx.agent_id()))
    }
}

/// Extracts the tool/command name.
#[derive(Debug, Clone)]
pub struct ToolNameInput;

impl ToolNameInput {
    /// The tool name, as a string value.
    pub fn get(&self, ctx: &AgentOp) -> (r: MatchingData)
        ensures
            data_view(r) == Some(ctx@.tool_name),
    {
        MatchingData::String(String::from_str(ctx.tool_name()))
    }
}

/// Extracts the target resource path.
#[derive(Debug, Clone)]
pub struct ResourceInput;

impl ResourceInput {
    /// The resource, as a string value.
    pub fn get(&self, ctx: &AgentOp) -> (r: MatchingData)
        ensures
            data_view(r) == Some(ctx@.resource),
    {
        MatchingData::String(String::from_str(ctx.resource()))
    }
}

/// Extracts the operation verb.
#[derive(Debug, Clone)]
pub struct OperationInput;

impl OperationInput {
    /// The operation verb, as a string value (empty when unset).
    pub fn get(&self, ctx: &AgentOp) -> (r: MatchingData)
        ensures
            data_view(r) == Some(ctx@.operation),
    {
        MatchingData::String(String::from_str(ctx.operation()))
    }
}

/// Extracts the session ID.
#[derive(Debug, Clone)]
pub struct SessionIdInput;

impl SessionIdInput {
    /// The session ID, as a string value (empty when unset).
    pub fn get(&self, ctx: &AgentOp) -> (r: MatchingData)
        ensures
            data_view(r) == Some(ctx@.session_id),
    {
        MatchingData::String(String::from_str(ctx.session_id()))
    }
}

/// Extracts a metadata value by key. Yields `MatchingData::Absent` when the
/// key is not present, which no matcher accepts.
#[derive(Debug, Clone)]
pub struct MetadataInput {
    key: String,
}

impl MetadataInput {
    /// The key this extractor reads.
    pub closed spec fn key(self) -> Seq<char> {
        self.key@
    }

    /// Create a new metadata extractor for the given key.
    pub fn new(key: &str) -> (r: Self)
        ensures
            r.key() == key@,
    {
        MetadataInput { key: String::from_str(key) }
    }

    /// The metadata value stored under the key, if any.
    pub fn get(&self, ctx: &AgentOp) -> (r: MatchingData)
        ensures
            data_view(r) == if ctx@.metadata.contains_key(self.key()) {
                Some(ctx@.metadata[self.key()])
            } else {
                None
            },
    {
        match ctx.meta(self.key.as_str()) {
            Some(v) => MatchingData::String(String::from_str(v)),
            None => MatchingData::Absent,
        }
    }
}

/// Configuration for a [`MetadataInput`]: the key to read.
#[derive(Debug, Clone)]
pub struct MetadataInputConfig {
    /// The metadata key to extract.
    pub key: String,
}

impl MetadataInput {
    /// Build the extractor a configuration describes.
    pub fn from_config(config: MetadataInputConfig) -> (r: Self)
        ensures
            r.key() == config.key@,
    {
        MetadataInput { key: config.key }
    }
}

/// Which part of an [`AgentOp`] a predicate reads.
#[derive(Debug, Clone)]
pub enum AgentOpInput {
    AgentId,
    ToolName,
    Resource,
    Operation,
    SessionId,
    Metadata(String),
}

impl AgentOpInput {
    /// What this input extracts from an operation.
    pub open spec fn extract(self, op: AgentOpView) -> Option<Seq<char>> {
        match self {
            AgentOpInput::AgentId => Some(op.agent_id),
            AgentOpInput::ToolName => Some(op.tool_name),
            AgentOpInput::Resource => Some(op.resource),
            AgentOpInput::Operation => Some(op.operation),
            AgentOpInput::SessionId => Some(op.session_id),
            AgentOpInput::Metadata(k) => if op.metadata.contains_key(k@) {
                Some(op.metadata[k@])
            } else {
                None
            },
        }
    }

    /// The input registered under a type URL: `act.v1.AgentIdInput`,
    /// `act.v1.ToolNameInput`, `act.v1.ResourceInput`, `act.v1.OperationInput`,
    /// `act.v1.SessionIdInput`, or `act.v1.MetadataInput` with the configured
    /// key; `None` for any other type URL.
    pub open spec fn registered(type_url: Seq<char>, config: MetadataInputConfig) -> Option<AgentOpInput> {
        if type_url == "act.v1.AgentIdInput"@ {
            Some(AgentOpInput::AgentId)
        } else if type_url == "act.v1.ToolNameInput"@ {
            Some(AgentOpInput::ToolName)
        } else if type_url == "act.v1.ResourceInput"@ {
            Some(AgentOpInput::Resource)
        } else if type_url == "act.v1.OperationInput"@ {
            Some(AgentOpInput::Operation)
        } else if type_url == "act.v1.SessionIdInput"@ {
            Some(AgentOpInput::SessionId)
        } else if type_url == "act.v1.MetadataInput"@ {
            Some(AgentOpInput::Metadata(config.key))
        } else {
            None
        }
    }

    /// The input registered under a type URL; the metadata input reads the
    /// configured key.
    pub fn from_type_url(type_url: &str, config: MetadataInputConfig) -> (r: Option<AgentOpInput>)
        ensures
            r == Self::registered(type_url@, config),
    {
        if str_eq(type_url, "act.v1.AgentIdInput") {
            Some(AgentOpInput::AgentId)
        } else if str_eq(type_url, "act.v1.ToolNameInput") {
            Some(AgentOpInput::ToolName)
        } else if str_eq(type_url, "act.v1.ResourceInput") {
            Some(AgentOpInput::Resource)
        } else if str_eq(type_url, "act.v1.OperationInput") {
            Some(AgentOpInput::Operation)
        } else if str_eq(type_url, "act.v1.SessionIdInput") {
            Some(AgentOpInput::SessionId)
        } else if str_eq(type_url, "act.v1.MetadataInput") {
            Some(AgentOpInput::Metadata(config.key))
        } else {
            None
        }
    }

    /// Extract the data this input reads.
    pub fn get(&self, ctx: &AgentOp) -> (r: MatchingData)
        ensures
            data_view(r) == self.extract(ctx@),
    {
        match self {
            AgentOpInput::AgentId => AgentIdInput.get(ctx),
            AgentOpInput::ToolName => ToolNameInput.get(ctx),
            AgentOpInput::Resource => ResourceInput.get(ctx),
            AgentOpInput::Operation => OperationInput.get(ctx),
            AgentOpInput::SessionId => SessionIdInput.get(ctx),
            AgentOpInput::Metadata(k) => MetadataInput::new(k.as_str()).get(ctx),
        }
    }
}

/// Each input reads its own part of an operation: the agent ID, tool name,
/// resource, operation verb and session ID are always there; a metadata input
/// reads the value under its key, and nothing where the key is missing.
pub proof fn law_input_reads_its_field(input: AgentOpInput, op: AgentOpView)
    ensures
        input is AgentId ==> input.extract(op) == Some(op.agent_id),
        input is ToolName ==> input.extract(op) == Some(op.tool_name),
        input is Resource ==> input.extract(op) == Some(op.resource),
        input is Operation ==> input.extract(op) == Some(op.operation),
        input is SessionId ==> input.extract(op) == Some(op.session_id),
        input matches AgentOpInput::Metadata(k) ==> input.extract(op) == (if op.metadata.contains_key(k@) {
            Some(op.metadata[k@])
        } else {
            None
        }),
{
}

} // verus!
