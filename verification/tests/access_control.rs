use geist::access_control::{
    AccessControlPolicy, AgentOp, AgentOpMatch, AllowRule, DenyRule, PolicyDecision, PolicyEvaluator,
};
use geist::acl::{AccessControlProcessor, TYPE_URL};
use geist::config::AgentOpMatch as PdpMatch;
use geist::decision::{AllowRule as PdpAllow, DenyAllowPolicy, DenyRule as PdpDeny};
use geist::phase::PhaseResult;
use geist::policy_processor::AccessControlProcessor as GatewayProcessor;
use geist::processor::Processor;
use geist::string_match::StringMatch;

fn simple_policy() -> AccessControlPolicy {
    AccessControlPolicy {
        deny: vec![DenyRule {
            reason: "No Bash".into(),
            matches: vec![AgentOpMatch {
                tool_name: Some(StringMatch::Exact("Bash".into())),
                ..Default::default()
            }],
        }],
        allow: vec![AllowRule {
            matches: vec![AgentOpMatch {
                agent_id: Some(StringMatch::Exact("agent-main".into())),
                ..Default::default()
            }],
        }],
    }
}

fn op<'a>(agent_id: &'a str, tool_name: &'a str, resource: &'a str) -> AgentOp<'a> {
    AgentOp { agent_id, tool_name, resource, operation: "", session_id: "" }
}

#[test]
fn allow_authorized_agent() {
    let eval = PolicyEvaluator::compile(simple_policy()).unwrap();
    let decision = eval.evaluate(&op("agent-main", "Read", "/src/lib.rs"));
    assert_eq!(decision, PolicyDecision::Allow);
}

#[test]
fn deny_blocked_tool() {
    let eval = PolicyEvaluator::compile(simple_policy()).unwrap();
    let decision = eval.evaluate(&op("agent-main", "Bash", "/"));
    assert!(matches!(decision, PolicyDecision::Deny { reason } if reason == "No Bash"));
}

#[test]
fn deny_takes_precedence() {
    let eval = PolicyEvaluator::compile(simple_policy()).unwrap();
    let decision = eval.evaluate(&op("agent-main", "Bash", "/"));
    assert!(matches!(decision, PolicyDecision::Deny { .. }));
}

#[test]
fn default_deny_unknown_agent() {
    let eval = PolicyEvaluator::compile(simple_policy()).unwrap();
    let decision = eval.evaluate(&op("rogue-agent", "Read", "/src/lib.rs"));
    assert!(matches!(decision, PolicyDecision::Deny { reason } if reason == "no matching allow rule"));
}

#[test]
fn empty_policy_denies_everything() {
    let eval = PolicyEvaluator::compile(AccessControlPolicy::default()).unwrap();
    let decision = eval.evaluate(&op("anyone", "anything", "/"));
    assert!(matches!(decision, PolicyDecision::Deny { .. }));
}

#[test]
fn multi_field_and_semantics() {
    let policy = AccessControlPolicy {
        deny: vec![],
        allow: vec![AllowRule {
            matches: vec![AgentOpMatch {
                agent_id: Some(StringMatch::Exact("agent-x".into())),
                tool_name: Some(StringMatch::Exact("Read".into())),
                ..Default::default()
            }],
        }],
    };
    let eval = PolicyEvaluator::compile(policy).unwrap();

    assert_eq!(eval.evaluate(&op("agent-x", "Read", "/")), PolicyDecision::Allow);
    assert!(matches!(eval.evaluate(&op("agent-x", "Write", "/")), PolicyDecision::Deny { .. }));
    assert!(matches!(eval.evaluate(&op("other", "Read", "/")), PolicyDecision::Deny { .. }));
}

#[test]
fn prefix_matching() {
    let policy = AccessControlPolicy {
        deny: vec![DenyRule {
            reason: "No system files".into(),
            matches: vec![AgentOpMatch {
                resource: Some(StringMatch::Prefix("/etc/".into())),
                ..Default::default()
            }],
        }],
        allow: vec![AllowRule { matches: vec![AgentOpMatch::default()] }],
    };
    let eval = PolicyEvaluator::compile(policy).unwrap();

    assert!(matches!(eval.evaluate(&op("a", "b", "/etc/passwd")), PolicyDecision::Deny { .. }));
    assert_eq!(eval.evaluate(&op("a", "b", "/src/lib.rs")), PolicyDecision::Allow);
}

#[test]
fn rule_without_matches_never_fires() {
    let policy = AccessControlPolicy {
        deny: vec![DenyRule { reason: "never".into(), matches: vec![] }],
        allow: vec![AllowRule { matches: vec![AgentOpMatch::default()] }],
    };
    let eval = PolicyEvaluator::compile(policy).unwrap();
    assert_eq!(eval.evaluate(&op("a", "b", "/")), PolicyDecision::Allow);
}

#[test]
fn first_invalid_pattern_is_reported() {
    let policy = AccessControlPolicy {
        deny: vec![DenyRule {
            reason: "r".into(),
            matches: vec![AgentOpMatch {
                tool_name: Some(StringMatch::Regex("ok.*".into())),
                resource: Some(StringMatch::Regex("[bad".into())),
                ..Default::default()
            }],
        }],
        allow: vec![AllowRule {
            matches: vec![AgentOpMatch { agent_id: Some(StringMatch::Regex("(".into())), ..Default::default() }],
        }],
    };
    let err = PolicyEvaluator::compile(policy).err().unwrap();
    assert_eq!(err.pattern, "[bad");
    assert!(err.to_string().starts_with("invalid regex '[bad': "));
}

// ---------- the processor of the edge ----------

fn make_request(headers: Vec<(&str, &str)>) -> http::request::Parts {
    let mut builder = http::Request::builder();
    for (k, v) in headers {
        builder = builder.header(k, v);
    }
    builder.body(()).unwrap().into_parts().0
}

#[test]
fn processor_allowed_operation_continues() {
    let proc = AccessControlProcessor::new(simple_policy()).unwrap();
    let parts = make_request(vec![
        ("x-geist-agent-id", "agent-main"),
        ("x-geist-tool-name", "Read"),
        ("x-geist-resource", "/src/lib.rs"),
    ]);
    let result = proc.process_request_headers(&parts).unwrap();
    assert!(matches!(result, PhaseResult::Continue));
}

#[test]
fn processor_denied_tool_returns_403() {
    let proc = AccessControlProcessor::new(simple_policy()).unwrap();
    let parts = make_request(vec![
        ("x-geist-agent-id", "agent-main"),
        ("x-geist-tool-name", "Bash"),
        ("x-geist-resource", "/"),
    ]);
    let result = proc.process_request_headers(&parts).unwrap();
    match result {
        PhaseResult::Respond(resp) => {
            assert_eq!(resp.status, http::StatusCode::FORBIDDEN);
            let body = String::from_utf8(resp.body.to_vec()).unwrap();
            assert!(body.contains("access_denied"));
            assert!(body.contains("No Bash"));
            assert_eq!(body, "{\"error\":\"access_denied\",\"reason\":\"No Bash\"}");
            assert_eq!(resp.headers.get(http::header::CONTENT_TYPE).unwrap(), "application/json");
        }
        _ => panic!("expected Respond(403)"),
    }
}

#[test]
fn processor_unknown_agent_denied_by_default() {
    let proc = AccessControlProcessor::new(simple_policy()).unwrap();
    let parts = make_request(vec![
        ("x-geist-agent-id", "rogue-agent"),
        ("x-geist-tool-name", "Read"),
        ("x-geist-resource", "/src/lib.rs"),
    ]);
    let result = proc.process_request_headers(&parts).unwrap();
    assert!(matches!(result, PhaseResult::Respond(_)));
}

#[test]
fn processor_missing_headers_use_defaults() {
    let proc = AccessControlProcessor::new(simple_policy()).unwrap();
    let parts = make_request(vec![]);
    let result = proc.process_request_headers(&parts).unwrap();
    assert!(matches!(result, PhaseResult::Respond(_)));
}

#[test]
fn processor_defaults_match_unknown_agent() {
    let policy = AccessControlPolicy {
        deny: vec![],
        allow: vec![AllowRule {
            matches: vec![AgentOpMatch {
                agent_id: Some(StringMatch::Exact("unknown".into())),
                resource: Some(StringMatch::Exact("/".into())),
                operation: Some(StringMatch::Exact("".into())),
                ..Default::default()
            }],
        }],
    };
    let proc = AccessControlProcessor::new(policy).unwrap();
    let result = proc.process_request_headers(&make_request(vec![])).unwrap();
    assert!(matches!(result, PhaseResult::Continue));
}

#[test]
fn processor_reason_is_json_escaped() {
    let policy = AccessControlPolicy {
        deny: vec![DenyRule { reason: "say \"no\"".into(), matches: vec![AgentOpMatch::default()] }],
        allow: vec![],
    };
    let proc = AccessControlProcessor::new(policy).unwrap();
    match proc.process_request_headers(&make_request(vec![])).unwrap() {
        PhaseResult::Respond(resp) => {
            let body = String::from_utf8(resp.body.to_vec()).unwrap();
            assert_eq!(body, "{\"error\":\"access_denied\",\"reason\":\"say \\\"no\\\"\"}");
        }
        _ => panic!("expected Respond(403)"),
    }
}

#[test]
fn processor_invalid_policy_names_type_url() {
    let policy = AccessControlPolicy {
        deny: vec![DenyRule {
            reason: "r".into(),
            matches: vec![AgentOpMatch { tool_name: Some(StringMatch::Regex("[bad".into())), ..Default::default() }],
        }],
        allow: vec![],
    };
    let err = match AccessControlProcessor::new(policy) {
        Err(e) => e,
        Ok(_) => panic!("expected an error"),
    };
    assert_eq!(err.processor, TYPE_URL);
    assert!(err.message.starts_with("policy compilation failed: invalid regex '[bad'"));
    assert!(err.to_string().starts_with("processor 'mox.geist.processors.v1.AccessControl': policy compilation failed"));
}

#[test]
fn processor_into_processor_from_json() {
    let proc = AccessControlProcessor::new(simple_policy()).unwrap();
    assert_eq!(proc.name(), "access-control");
    assert_eq!(proc.mode(), geist::phase::ProcessingMode::HEADERS_ONLY());
}

// ---------- the processor of the gateway binary ----------

fn gateway_policy() -> DenyAllowPolicy {
    DenyAllowPolicy {
        deny: vec![PdpDeny {
            reason: "No Bash".into(),
            matches: vec![PdpMatch { tool_name: Some(StringMatch::Exact("Bash".into())), ..Default::default() }],
        }],
        allow: vec![PdpAllow {
            matches: vec![PdpMatch { agent_id: Some(StringMatch::Exact("agent-main".into())), ..Default::default() }],
        }],
    }
}

#[test]
fn access_control_allowed_operation_continues() {
    let proc = GatewayProcessor::new(gateway_policy()).unwrap();
    let parts = make_request(vec![
        ("x-geist-agent-id", "agent-main"),
        ("x-geist-tool-name", "Read"),
        ("x-geist-resource", "/src/lib.rs"),
    ]);
    assert!(matches!(proc.process_request_headers(&parts).unwrap(), PhaseResult::Continue));
}

#[test]
fn access_control_denied_tool_returns_403() {
    let proc = GatewayProcessor::new(gateway_policy()).unwrap();
    let parts = make_request(vec![
        ("x-geist-agent-id", "agent-main"),
        ("x-geist-tool-name", "Bash"),
        ("x-geist-resource", "/"),
    ]);
    match proc.process_request_headers(&parts).unwrap() {
        PhaseResult::Respond(resp) => {
            assert_eq!(resp.status.as_u16(), 403);
            let body = String::from_utf8(resp.body.to_vec()).unwrap();
            assert_eq!(body, "{\"error\":\"access_denied\",\"reason\":\"No Bash\"}");
            assert!(resp.headers.is_empty());
        }
        _ => panic!("expected Respond(403)"),
    }
}

#[test]
fn access_control_unknown_agent_denied_by_default() {
    let proc = GatewayProcessor::new(gateway_policy()).unwrap();
    let parts = make_request(vec![("x-geist-agent-id", "rogue-agent"), ("x-geist-tool-name", "Read")]);
    match proc.process_request_headers(&parts).unwrap() {
        PhaseResult::Respond(resp) => {
            let body = String::from_utf8(resp.body.to_vec()).unwrap();
            assert_eq!(body, "{\"error\":\"access_denied\",\"reason\":\"no matching allow rule\"}");
        }
        _ => panic!("expected Respond(403)"),
    }
}

#[test]
fn access_control_missing_headers_use_defaults() {
    let proc = GatewayProcessor::new(gateway_policy()).unwrap();
    assert!(matches!(proc.process_request_headers(&make_request(vec![])).unwrap(), PhaseResult::Respond(_)));
    assert_eq!(proc.name(), "access-control");
}

#[test]
fn access_control_optional_headers_reach_the_policy() {
    let policy = DenyAllowPolicy {
        deny: vec![],
        allow: vec![PdpAllow {
            matches: vec![PdpMatch {
                operation: Some(StringMatch::Exact("read".into())),
                session_id: Some(StringMatch::Prefix("sess-".into())),
                ..Default::default()
            }],
        }],
    };
    let proc = GatewayProcessor::new(policy).unwrap();
    let with = make_request(vec![("x-geist-operation", "read"), ("x-geist-session-id", "sess-9")]);
    assert!(matches!(proc.process_request_headers(&with).unwrap(), PhaseResult::Continue));
    let without = make_request(vec![("x-geist-operation", "read")]);
    assert!(matches!(proc.process_request_headers(&without).unwrap(), PhaseResult::Respond(_)));
}

#[test]
fn processor_reason_control_characters_are_escaped() {
    let policy = AccessControlPolicy {
        deny: vec![DenyRule { reason: "a\nb\t\\c\u{1}".into(), matches: vec![AgentOpMatch::default()] }],
        allow: vec![],
    };
    let proc = AccessControlProcessor::new(policy).unwrap();
    match proc.process_request_headers(&make_request(vec![])).unwrap() {
        PhaseResult::Respond(resp) => {
            let body = String::from_utf8(resp.body.to_vec()).unwrap();
            assert_eq!(body, "{\"error\":\"access_denied\",\"reason\":\"a\\nb\\t\\\\c\\u0001\"}");
        }
        _ => panic!("expected Respond(403)"),
    }
}
