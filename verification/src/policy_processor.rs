//! The access control processor of the gateway binary, built on the
//! deny/allow policy evaluator.
//!
//! Agent context comes from the `x-geist-*` headers: agent ID, tool name and
//! resource (defaults `unknown`, `unknown`, `/`), and the operation verb and
//! session ID where present. A denial is answered with 403 and the body
//! `{"error":"access_denied","reason":"<reason>"}`, the reason written as it is.
use vstd::prelude::*;

use crate::context::{AgentOp, AgentOpView};
use crate::decision::{DecisionView, DenyAllowPolicy, PolicyDecision};
use crate::error::PolicyError;
use crate::evaluator::{is_compile_error, PolicyEvaluator};
use crate::phase::{
    bytes_from_vec, bytes_view, get_header, header, header_entries, header_opt, header_or,
    no_headers, status_code, status_number, ImmediateResponse, PhaseResult,
};
use crate::phase::ProcessingMode;
use crate::processor::{Processor, ProcessorError};
use crate::text::push_str;

verus! {

/// The body of a denial: `{"error":"access_denied","reason":"<reason>"}`.
pub open spec fn denial_body(reason: Seq<char>) -> Seq<char> {
    "{\"error\":\"access_denied\",\"reason\":\""@ + reason + "\"}"@
}

/// `r` answers with 403, no headers and `body` as its bytes.
pub open spec fn is_forbidden(r: PhaseResult, body: Seq<char>) -> bool {
    &&& r matches PhaseResult::Respond(resp)
    &&& status_number(resp.status) == 403
    &&& header_entries(resp.headers) == no_headers()
    &&& bytes_view(resp.body) == vstd::utf8::encode_utf8(body)
}

/// `r` is the answer to `decision`: `Continue` when allowed, else 403 with
/// the denial body.
pub open spec fn answers(r: PhaseResult, decision: DecisionView) -> bool {
    match decision {
        DecisionView::Allow => r is Continue,
        DecisionView::Deny(reason) => is_forbidden(r, denial_body(reason)),
    }
}

/// The value of an optional header, empty where it is absent.
pub open spec fn or_empty(v: Option<Seq<char>>) -> Seq<char> {
    match v {
        Some(t) => t,
        None => Seq::empty(),
    }
}

/// The operation a request describes: its `x-geist-*` headers, the agent
/// ID, tool name and resource defaulting to `unknown`, `unknown` and `/`;
/// no metadata.
pub open spec fn request_op(parts: http::request::Parts) -> AgentOpView {
    AgentOpView {
        agent_id: header_or(parts, "x-geist-agent-id"@, "unknown"@),
        tool_name: header_or(parts, "x-geist-tool-name"@, "unknown"@),
        resource: header_or(parts, "x-geist-resource"@, "/"@),
        operation: or_empty(header_opt(parts, "x-geist-operation"@)),
        session_id: or_empty(header_opt(parts, "x-geist-session-id"@)),
        metadata: Map::empty(),
    }
}

/// Enforces a deny/allow policy on inbound requests. The policy is compiled
/// at construction; evaluation only reads the processor.
pub struct AccessControlProcessor {
    evaluator: PolicyEvaluator,
}

impl AccessControlProcessor {
    /// The decision the processor gives an operation.
    pub closed spec fn decide(self, op: AgentOpView) -> DecisionView {
        self.evaluator.decide(op)
    }

    /// Create a processor from a policy, compiling its matchers. Fails with
    /// the compilation error when a regex pattern is invalid.
    pub fn new(policy: DenyAllowPolicy) -> (r: Result<Self, PolicyError>)
        ensures
            r is Ok <==> policy.compiles(),
            r matches Ok(p) ==> forall|op: AgentOpView| #[trigger] p.decide(op) == policy.decide(op),
            r matches Err(e) ==> is_compile_error(policy, e),
    {
        match PolicyEvaluator::compile(policy) {
            Ok(evaluator) => Ok(AccessControlProcessor { evaluator }),
            Err(e) => Err(e),
        }
    }

    /// The answer to an operation: `Continue` when allowed, else 403 with the
    /// denial body.
    pub fn respond(&self, op: &AgentOp) -> (r: PhaseResult)
        ensures
            answers(r, self.decide(op@)),
    {
        match self.evaluator.evaluate(op) {
            PolicyDecision::Allow => PhaseResult::Continue,
            PolicyDecision::Deny { reason } => {
                let mut body = String::from_str("{\"error\":\"access_denied\",\"reason\":\"");
                push_str(&mut body, reason.as_str());
                push_str(&mut body, "\"}");
                proof {
                    reveal_strlit("{\"error\":\"access_denied\",\"reason\":\"");
                }
                assert(body@ == denial_body(reason@));
                let bytes = body.as_str().as_bytes_vec();
                PhaseResult::Respond(ImmediateResponse::with_status(status_code(403)).body(bytes_from_vec(bytes)))
            },
        }
    }

    /// Process the request headers phase: evaluate the operation the
    /// `x-geist-*` headers describe.
    pub fn process_request_headers(&self, parts: &http::request::Parts) -> (r: Result<PhaseResult, ProcessorError>)
        ensures
            r matches Ok(res) && answers(res, self.decide(request_op(*parts))),
    {
        let agent_id = get_header(parts, "x-geist-agent-id", "unknown");
        let tool_name = get_header(parts, "x-geist-tool-name", "unknown");
        let resource = get_header(parts, "x-geist-resource", "/");
        let mut op = AgentOp::new(agent_id, tool_name, resource);
        if let Some(operation) = header(parts, "x-geist-operation") {
            op = op.with_operation(operation);
        }
        if let Some(session_id) = header(parts, "x-geist-session-id") {
            op = op.with_session_id(session_id);
        }
        assert(op@ == request_op(*parts));
        Ok(self.respond(&op))
    }
}

impl Processor for AccessControlProcessor {
    fn name(&self) -> (r: &str)
        ensures
            r@ == "access-control"@,
    {
        "access-control"
    }

    /// Headers only.
    open spec fn spec_mode(&self) -> ProcessingMode {
        ProcessingMode::spec_HEADERS_ONLY()
    }

    fn mode(&self) -> (r: ProcessingMode) {
        ProcessingMode::HEADERS_ONLY()
    }
}

/// Each field of the operation a request describes comes from its own
/// header: the agent ID from `x-geist-agent-id` (else `unknown`), the tool
/// name from `x-geist-tool-name` (else `unknown`), the resource from
/// `x-geist-resource` (else `/`), the operation verb from `x-geist-operation`
/// and the session ID from `x-geist-session-id` (else empty); there is no
/// metadata.
pub proof fn law_request_op_reads_its_headers(parts: http::request::Parts)
    ensures
        request_op(parts).agent_id == header_or(parts, "x-geist-agent-id"@, "unknown"@),
        request_op(parts).tool_name == header_or(parts, "x-geist-tool-name"@, "unknown"@),
        request_op(parts).resource == header_or(parts, "x-geist-resource"@, "/"@),
        header_opt(parts, "x-geist-operation"@) matches Some(t) ==> request_op(parts).operation == t,
        header_opt(parts, "x-geist-operation"@) is None ==> request_op(parts).operation == Seq::<char>::empty(),
        header_opt(parts, "x-geist-session-id"@) matches Some(t) ==> request_op(parts).session_id == t,
        header_opt(parts, "x-geist-session-id"@) is None ==> request_op(parts).session_id == Seq::<char>::empty(),
        request_op(parts).metadata == Map::<Seq<char>, Seq<char>>::empty(),
{
}

} // verus!
