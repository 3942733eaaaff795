//! The access control processor: deny-first policy enforcement on inbound
//! request headers.
//!
//! Agent context comes from the `x-geist-*` headers: agent ID, tool name,
//! resource, operation and session ID. A denial is answered with 403 and a
//! JSON body `{"error":"access_denied","reason":...}`.
use vstd::prelude::*;

use crate::access_control::{
    all_patterns, reports_first_bad, AccessControlPolicy, AgentOp, OpView, PolicyDecision,
    PolicyEvaluator,
};
use crate::phase::{
    bytes_from_vec, bytes_view, content_type_name, get_header, header_name_text, header_or,
    header_value_static, header_value_text, is_visible_ascii, no_headers, status_code,
    status_number, header_entries, ImmediateResponse, PhaseResult,
};
use crate::phase::ProcessingMode;
use crate::processor::{Processor, ProcessorError};
use crate::string_match::MatcherError;
use crate::text::push_str;

verus! {

/// Type URL of this processor extension.
pub const TYPE_URL: &'static str = "mox.geist.processors.v1.AccessControl";

/// A lowercase hexadecimal digit.
pub open spec fn hex_digit(d: nat) -> char {
    if d < 10 {
        (48 + d) as char
    } else {
        (87 + d) as char
    }
}

/// How a character is written inside a JSON string: `"` and `\` and the
/// control characters are escaped (backspace, tab, newline, form feed and
/// carriage return by letter, the others as `\u00xx`), every other character
/// stands for itself.
pub open spec fn json_escape_char(c: char) -> Seq<char> {
    if c == '"' {
        seq!['\\', '"']
    } else if c == '\\' {
        seq!['\\', '\\']
    } else if c == '\u{8}' {
        seq!['\\', 'b']
    } else if c == '\t' {
        seq!['\\', 't']
    } else if c == '\n' {
        seq!['\\', 'n']
    } else if c == '\u{c}' {
        seq!['\\', 'f']
    } else if c == '\r' {
        seq!['\\', 'r']
    } else if (c as u32) < 32 {
        seq!['\\', 'u', '0', '0', hex_digit((c as u32 / 16) as nat), hex_digit((c as u32 % 16) as nat)]
    } else {
        seq![c]
    }
}

/// The characters of a text, each written as inside a JSON string.
pub open spec fn json_escaped(s: Seq<char>) -> Seq<char>
    decreases s.len(),
{
    if s.len() == 0 {
        Seq::empty()
    } else {
        json_escaped(s.drop_last()) + json_escape_char(s.last())
    }
}

/// The JSON string literal of a text: its escaped characters in quotes (what
/// `serde_json::to_string` returns for a string slice).
pub open spec fn json_string_literal(s: Seq<char>) -> Seq<char> {
    seq!['"'] + json_escaped(s) + seq!['"']
}

/// Calls `serde_json::to_string` on a string slice: the escape table of its
/// serializer, stated by `json_string_literal`. Serialising a `str` cannot
/// fail; the error arm only converts the result type.
#[verifier::external_body]
fn json_string(s: &str) -> (r: String)
    ensures
        r@ == json_string_literal(s@),
{
    match serde_json::to_string(s) {
        Ok(t) => t,
        Err(_) => String::new(),
    }
}

/// The body of a denial: `{"error":"access_denied","reason":<reason>}`,
/// the reason as a JSON string.
pub open spec fn denial_body(reason: Seq<char>) -> Seq<char> {
    "{\"error\":\"access_denied\",\"reason\":"@ + json_string_literal(reason) + "}"@
}

/// `r` answers with 403, a JSON content type and `body` as its bytes.
pub open spec fn is_json_forbidden(r: PhaseResult, body: Seq<char>) -> bool {
    &&& r matches PhaseResult::Respond(resp)
    &&& status_number(resp.status) == 403
    &&& exists|n: http::HeaderName, v: http::HeaderValue|
        header_name_text(n) == "content-type"@ && header_value_text(v) == Some("application/json"@)
            && #[trigger] header_entries(resp.headers) == no_headers().insert(n, v)
    &&& bytes_view(resp.body) == vstd::utf8::encode_utf8(body)
}

/// The operation a request describes: its `x-geist-*` headers, with the
/// defaults `unknown`, `unknown`, `/`, empty and empty.
pub open spec fn request_op(parts: http::request::Parts) -> OpView {
    OpView {
        agent_id: header_or(parts, "x-geist-agent-id"@, "unknown"@),
        tool_name: header_or(parts, "x-geist-tool-name"@, "unknown"@),
        resource: header_or(parts, "x-geist-resource"@, "/"@),
        operation: header_or(parts, "x-geist-operation"@, ""@),
        session_id: header_or(parts, "x-geist-session-id"@, ""@),
    }
}

/// The message of a construction failure.
pub open spec fn compile_failure_message(e: MatcherError) -> Seq<char> {
    "policy compilation failed: "@ + e.text()
}

/// Access control processor. Enforces a deny-first access control policy on
/// inbound request headers; the policy is compiled at construction.
pub struct AccessControlProcessor {
    evaluator: PolicyEvaluator,
}

impl AccessControlProcessor {
    /// Whether the processor allows the operation, and the denial reason if not.
    pub closed spec fn decide(self, op: OpView) -> (bool, Seq<char>) {
        self.evaluator.decide(op)
    }

    /// Build the processor from a policy. Fails, naming this processor's type
    /// URL, when a pattern of the policy does not compile.
    pub fn new(policy: AccessControlPolicy) -> (r: Result<Self, ProcessorError>)
        ensures
            r is Ok <==> policy.compiles(),
            r matches Ok(p) ==> forall|op: OpView| #[trigger] p.decide(op) == policy.decide(op),
            r matches Err(e) ==> {
                &&& e.processor@ == TYPE_URL@
                &&& e.source is None
                &&& exists|m: MatcherError| reports_first_bad(all_patterns(policy), m)
                    && e.message@ == #[trigger] compile_failure_message(m)
            },
    {
        match PolicyEvaluator::compile(policy) {
            Ok(evaluator) => Ok(AccessControlProcessor { evaluator }),
            Err(m) => {
                let mut message = String::from_str("policy compilation failed: ");
                let text = m.to_string();
                push_str(&mut message, text.as_str());
                proof {
                    reveal_strlit("policy compilation failed: ");
                }
                let e = ProcessorError { processor: String::from_str(TYPE_URL), message, source: None };
                assert(e.message@ == compile_failure_message(m));
                Err(e)
            },
        }
    }

    /// The answer to an operation: `Continue` when allowed, else 403 with a
    /// JSON body naming the reason.
    pub fn respond(&self, op: &AgentOp) -> (r: PhaseResult)
        ensures
            self.decide(op@).0 ==> r is Continue,
            !self.decide(op@).0 ==> is_json_forbidden(r, denial_body(self.decide(op@).1)),
    {
        match self.evaluator.evaluate(op) {
            PolicyDecision::Allow => PhaseResult::Continue,
            PolicyDecision::Deny { reason } => {
                let mut body = String::from_str("{\"error\":\"access_denied\",\"reason\":");
                let quoted = json_string(reason.as_str());
                push_str(&mut body, quoted.as_str());
                push_str(&mut body, "}");
                proof {
                    reveal_strlit("{\"error\":\"access_denied\",\"reason\":");
                    reveal_strlit("application/json");
                }
                assert(body@ == denial_body(reason@));
                let bytes = body.as_str().as_bytes_vec();
                let name = content_type_name();
                let value = header_value_static("application/json");
                let resp = ImmediateResponse::with_status(status_code(403)).body(bytes_from_vec(bytes)).header(
                    name,
                    value,
                );
                PhaseResult::Respond(resp)
            },
        }
    }

    /// Process the request headers phase: evaluate the operation the
    /// `x-geist-*` headers describe.
    pub fn process_request_headers(&self, parts: &http::request::Parts) -> (r: Result<PhaseResult, ProcessorError>)
        ensures
            r matches Ok(res) && {
                let d = self.decide(request_op(*parts));
                &&& d.0 ==> res is Continue
                &&& !d.0 ==> is_json_forbidden(res, denial_body(d.1))
            },
    {
        let op = AgentOp {
            agent_id: get_header(parts, "x-geist-agent-id", "unknown"),
            tool_name: get_header(parts, "x-geist-tool-name", "unknown"),
            resource: get_header(parts, "x-geist-resource", "/"),
            operation: get_header(parts, "x-geist-operation", ""),
            session_id: get_header(parts, "x-geist-session-id", ""),
        };
        assert(op@ == request_op(*parts));
        Ok(self.respond(&op))
    }
}

impl Processor for AccessControlProcessor {
    fn name(&self) -> (r: &str)
        ensures
            r@ == "access-control"@,
    {
        "access-control"
    }

    /// Headers only.
    open spec fn spec_mode(&self) -> ProcessingMode {
        ProcessingMode::spec_HEADERS_ONLY()
    }

    fn mode(&self) -> (r: ProcessingMode) {
        ProcessingMode::HEADERS_ONLY()
    }
}

/// Each field of the operation a request describes comes from its own
/// header: the agent ID from `x-geist-agent-id` (else `unknown`), the tool
/// name from `x-geist-tool-name` (else `unknown`), the resource from
/// `x-geist-resource` (else `/`), the operation verb from `x-geist-operation`
/// and the session ID from `x-geist-session-id` (else empty).
pub proof fn law_request_op_reads_its_headers(parts: http::request::Parts)
    ensures
        request_op(parts).agent_id == header_or(parts, "x-geist-agent-id"@, "unknown"@),
        request_op(parts).tool_name == header_or(parts, "x-geist-tool-name"@, "unknown"@),
        request_op(parts).resource == header_or(parts, "x-geist-resource"@, "/"@),
        request_op(parts).operation == header_or(parts, "x-geist-operation"@, Seq::<char>::empty()),
        request_op(parts).session_id == header_or(parts, "x-geist-session-id"@, Seq::<char>::empty()),
{
    reveal_strlit("");
}

} // verus!
