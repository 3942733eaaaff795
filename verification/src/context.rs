//! Agent operation context for policy matching.
use vstd::prelude::*;

use crate::text::str_eq;

verus! {

/// The first value stored under `key` in a list of key/value entries.
pub open spec fn lookup(entries: Seq<(String, String)>, key: Seq<char>) -> Option<Seq<char>>
    decreases entries.len(),
{
    if entries.len() == 0 {
        None
    } else if entries[0].0@ == key {
        Some(entries[0].1@)
    } else {
        lookup(entries.drop_first(), key)
    }
}

/// The map that a list of key/value entries stands for.
pub open spec fn entries_map(entries: Seq<(String, String)>) -> Map<Seq<char>, Seq<char>> {
    Map::new(|k: Seq<char>| lookup(entries, k) is Some, |k: Seq<char>| lookup(entries, k)->0)
}

/// Where `lookup` finds `key`: the first index holding it.
pub open spec fn first_index(entries: Seq<(String, String)>, key: Seq<char>, i: int) -> bool {
    &&& 0 <= i < entries.len()
    &&& entries[i].0@ == key
    &&& forall|j: int| 0 <= j < i ==> entries[j].0@ != key
}

proof fn lemma_lookup_absent(entries: Seq<(String, String)>, key: Seq<char>)
    requires
        forall|j: int| 0 <= j < entries.len() ==> entries[j].0@ != key,
    ensures
        lookup(entries, key) is None,
    decreases entries.len(),
{
    if entries.len() > 0 {
        lemma_lookup_absent(entries.drop_first(), key);
    }
}

proof fn lemma_lookup_first(entries: Seq<(String, String)>, key: Seq<char>, i: int)
    requires
        first_index(entries, key, i),
    ensures
        lookup(entries, key) == Some(entries[i].1@),
    decreases entries.len(),
{
    if i > 0 {
        assert(first_index(entries.drop_first(), key, i - 1));
        lemma_lookup_first(entries.drop_first(), key, i - 1);
    }
}

proof fn lemma_lookup_push(entries: Seq<(String, String)>, e: (String, String), key: Seq<char>)
    requires
        forall|j: int| 0 <= j < entries.len() ==> entries[j].0@ != e.0@,
    ensures
        lookup(entries.push(e), key) == if key == e.0@ {
            Some(e.1@)
        } else {
            lookup(entries, key)
        },
    decreases entries.len(),
{
    if entries.len() == 0 {
        assert(entries.push(e).drop_first() =~= Seq::<(String, String)>::empty());
    } else {
        assert(entries.push(e).drop_first() =~= entries.drop_first().push(e));
        lemma_lookup_push(entries.drop_first(), e, key);
    }
}

proof fn lemma_lookup_update(entries: Seq<(String, String)>, i: int, e: (String, String), key: Seq<char>)
    requires
        first_index(entries, e.0@, i),
    ensures
        lookup(entries.update(i, e), key) == if key == e.0@ {
            Some(e.1@)
        } else {
            lookup(entries, key)
        },
    decreases entries.len(),
{
    if i == 0 {
        assert(entries.update(i, e).drop_first() =~= entries.drop_first());
    } else {
        assert(entries.update(i, e).drop_first() =~= entries.drop_first().update(i - 1, e));
        assert(first_index(entries.drop_first(), e.0@, i - 1));
        if entries[0].0@ != key {
            lemma_lookup_update(entries.drop_first(), i - 1, e, key);
        }
    }
}

/// Stores `value` under `key`: overwrites the first entry holding `key`, or
/// appends a new entry when there is none.
fn insert_entry(entries: &mut Vec<(String, String)>, key: &str, value: &str)
    ensures
        entries_map(final(entries)@) == entries_map(old(entries)@).insert(key@, value@),
{
    let e = (String::from_str(key), String::from_str(value));
    let ghost old_entries = entries@;
    let mut i: usize = 0;
    let mut found = false;
    while i < entries.len()
        invariant_except_break
            0 <= i <= entries@.len(),
            !found,
        invariant
            entries@ == old_entries,
            e.0@ == key@,
            e.1@ == value@,
            forall|j: int| 0 <= j < i ==> entries@[j].0@ != key@,
        ensures
            found ==> i < entries@.len() && entries@[i as int].0@ == key@,
            !found ==> i == entries@.len(),
        decreases entries@.len() - i,
    {
        if str_eq(entries[i].0.as_str(), key) {
            found = true;
            break;
        }
        i = i + 1;
    }
    if found {
        proof {
            assert(first_index(old_entries, e.0@, i as int));
            assert forall|k: Seq<char>|
                #[trigger] lookup(old_entries.update(i as int, e), k) == if k == e.0@ {
                    Some(e.1@)
                } else {
                    lookup(old_entries, k)
                } by {
                lemma_lookup_update(old_entries, i as int, e, k);
            }
        }
        entries.set(i, e);
        assert(entries_map(entries@) =~= entries_map(old_entries).insert(key@, value@));
    } else {
        proof {
            assert forall|k: Seq<char>|
                #[trigger] lookup(old_entries.push(e), k) == if k == e.0@ {
                    Some(e.1@)
                } else {
                    lookup(old_entries, k)
                } by {
                lemma_lookup_push(old_entries, e, k);
            }
        }
        entries.push(e);
        assert(entries_map(entries@) =~= entries_map(old_entries).insert(key@, value@));
    }
}

/// The abstract content of an [`AgentOp`].
pub struct AgentOpView {
    pub agent_id: Seq<char>,
    pub tool_name: Seq<char>,
    pub resource: Seq<char>,
    pub operation: Seq<char>,
    pub session_id: Seq<char>,
    pub metadata: Map<Seq<char>, Seq<char>>,
}

/// An operation requested by an autonomous agent.
///
/// Carries all data available at the policy enforcement point: agent
/// identity, tool/command being invoked, target resource, operation verb,
/// session identifier and metadata key/value pairs.
#[derive(Debug, Clone)]
pub struct AgentOp {
    agent_id: String,
    tool_name: String,
    resource: String,
    operation: String,
    session_id: String,
    metadata: Vec<(String, String)>,
}

impl View for AgentOp {
    type V = AgentOpView;

    closed spec fn view(&self) -> AgentOpView {
        AgentOpView {
            agent_id: self.agent_id@,
            tool_name: self.tool_name@,
            resource: self.resource@,
            operation: self.operation@,
            session_id: self.session_id@,
            metadata: entries_map(self.metadata@),
        }
    }
}

impl AgentOp {
    /// Create a new agent operation with the three required fields; the
    /// operation verb and session ID are empty and there is no metadata.
    pub fn new(agent_id: &str, tool_name: &str, resource: &str) -> (r: Self)
        ensures
            r@.agent_id == agent_id@,
            r@.tool_name == tool_name@,
            r@.resource == resource@,
            r@.operation == Seq::<char>::empty(),
            r@.session_id == Seq::<char>::empty(),
            r@.metadata == Map::<Seq<char>, Seq<char>>::empty(),
    {
        let r = AgentOp {
            agent_id: String::from_str(agent_id),
            tool_name: String::from_str(tool_name),
            resource: String::from_str(resource),
            operation: String::new(),
            session_id: String::new(),
            metadata: Vec::new(),
        };
        assert(r@.metadata =~= Map::<Seq<char>, Seq<char>>::empty());
        r
    }

    /// Set the operation verb (builder pattern).
    pub fn with_operation(self, operation: &str) -> (r: Self)
        ensures
            r@ == (AgentOpView { operation: operation@, ..self@ }),
    {
        let mut s = self;
        s.operation = String::from_str(operation);
        s
    }

    /// Set the session ID (builder pattern).
    pub fn with_session_id(self, session_id: &str) -> (r: Self)
        ensures
            r@ == (AgentOpView { session_id: session_id@, ..self@ }),
    {
        let mut s = self;
        s.session_id = String::from_str(session_id);
        s
    }

    /// Add a metadata key/value pair, replacing any earlier value of the key
    /// (builder pattern).
    pub fn with_meta(self, key: &str, value: &str) -> (r: Self)
        ensures
            r@ == (AgentOpView { metadata: self@.metadata.insert(key@, value@), ..self@ }),
    {
        let mut s = self;
        insert_entry(&mut s.metadata, key, value);
        s
    }

    /// Get the agent ID.
    pub fn agent_id(&self) -> (r: &str)
        ensures
            r@ == self@.agent_id,
    {
        self.agent_id.as_str()
    }

    /// Get the tool/command name.
    pub fn tool_name(&self) -> (r: &str)
        ensures
            r@ == self@.tool_name,
    {
        self.tool_name.as_str()
    }

    /// Get the target resource path.
    pub fn resource(&self) -> (r: &str)
        ensures
            r@ == self@.resource,
    {
        self.resource.as_str()
    }

    /// Get the operation verb.
    pub fn operation(&self) -> (r: &str)
        ensures
            r@ == self@.operation,
    {
        self.operation.as_str()
    }

    /// Get the session ID.
    pub fn session_id(&self) -> (r: &str)
        ensures
            r@ == self@.session_id,
    {
        self.session_id.as_str()
    }

    /// Get a metadata value by key.
    pub fn meta(&self, key: &str) -> (r: Option<&str>)
        ensures
            r is Some <==> self@.metadata.contains_key(key@),
            r matches Some(v) ==> v@ == self@.metadata[key@],
    {
        let mut i: usize = 0;
        while i < self.metadata.len()
            invariant
                0 <= i <= self.metadata@.len(),
                forall|j: int| 0 <= j < i ==> self.metadata@[j].0@ != key@,
            decreases self.metadata@.len() - i,
        {
            if str_eq(self.metadata[i].0.as_str(), key) {
                proof {
                    lemma_lookup_first(self.metadata@, key@, i as int);
                }
                return Some(self.metadata[i].1.as_str());
            }
            i = i + 1;
        }
        proof {
            lemma_lookup_absent(self.metadata@, key@);
        }
        None
    }
}

} // verus!
