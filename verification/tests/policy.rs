use geist::compiler::{compile_agent_op_matches, Predicate};
use geist::config::{AgentOpMatch, MetadataMatch};
use geist::context::AgentOp;
use geist::decision::{AllowRule, DenyAllowPolicy, DenyRule, PolicyDecision};
use geist::error::PolicyError;
use geist::evaluator::PolicyEvaluator;
use geist::inputs::{
    AgentIdInput, AgentOpInput, MetadataInput, MetadataInputConfig, OperationInput, ResourceInput,
    SessionIdInput, ToolNameInput,
};
use geist::string_match::{MatchingData, StringMatch};

// ---------- predicate structure ----------

#[test]
fn empty_match_compiles_to_single_predicate() {
    let m = AgentOpMatch::default();
    let predicate = m.to_predicate().unwrap();
    assert!(matches!(predicate, Predicate::Single(_)));
}

#[test]
fn single_field_compiles_to_single_predicate() {
    let m = AgentOpMatch {
        agent_id: Some(StringMatch::Exact("agent-main".into())),
        ..Default::default()
    };
    let predicate = m.to_predicate().unwrap();
    assert!(matches!(predicate, Predicate::Single(_)));
}

#[test]
fn multiple_fields_compiles_to_and_predicate() {
    let m = AgentOpMatch {
        agent_id: Some(StringMatch::Exact("agent-main".into())),
        tool_name: Some(StringMatch::Exact("Bash".into())),
        ..Default::default()
    };
    let predicate = m.to_predicate().unwrap();
    assert!(matches!(predicate, Predicate::And(_)));
}

// ---------- compiled matchers ----------

#[test]
fn e2e_agent_id_exact() {
    let m = AgentOpMatch {
        agent_id: Some(StringMatch::Exact("agent-main".into())),
        ..Default::default()
    };
    let matcher = m.compile("matched").unwrap();

    let op = AgentOp::new("agent-main", "Bash", "/tmp");
    assert_eq!(matcher.evaluate(&op), Some("matched"));

    let op = AgentOp::new("rogue-agent", "Bash", "/tmp");
    assert_eq!(matcher.evaluate(&op), None);
}

#[test]
fn e2e_tool_name_prefix() {
    let m = AgentOpMatch {
        tool_name: Some(StringMatch::Prefix("file.".into())),
        ..Default::default()
    };
    let matcher = m.compile("file_op").unwrap();

    let op = AgentOp::new("agent-1", "file.read", "/src/lib.rs");
    assert_eq!(matcher.evaluate(&op), Some("file_op"));

    let op = AgentOp::new("agent-1", "Bash", "/tmp");
    assert_eq!(matcher.evaluate(&op), None);
}

#[test]
fn e2e_resource_prefix() {
    let m = AgentOpMatch {
        resource: Some(StringMatch::Prefix("/etc/".into())),
        ..Default::default()
    };
    let matcher = m.compile("system_file").unwrap();

    let op = AgentOp::new("agent-1", "file.write", "/etc/passwd");
    assert_eq!(matcher.evaluate(&op), Some("system_file"));

    let op = AgentOp::new("agent-1", "file.write", "/home/user/readme.md");
    assert_eq!(matcher.evaluate(&op), None);
}

#[test]
fn e2e_operation_exact() {
    let m = AgentOpMatch {
        operation: Some(StringMatch::Exact("delete".into())),
        ..Default::default()
    };
    let matcher = m.compile("destructive").unwrap();

    let op = AgentOp::new("agent-1", "file.delete", "/tmp/file").with_operation("delete");
    assert_eq!(matcher.evaluate(&op), Some("destructive"));

    let op = AgentOp::new("agent-1", "file.read", "/tmp/file").with_operation("read");
    assert_eq!(matcher.evaluate(&op), None);
}

#[test]
fn e2e_metadata_contains() {
    let m = AgentOpMatch {
        metadata: Some(vec![MetadataMatch {
            key: "command".into(),
            value: StringMatch::Contains("rm -rf".into()),
        }]),
        ..Default::default()
    };
    let matcher = m.compile("dangerous").unwrap();

    let op = AgentOp::new("agent-1", "Bash", "/").with_meta("command", "sudo rm -rf /");
    assert_eq!(matcher.evaluate(&op), Some("dangerous"));

    let op = AgentOp::new("agent-1", "Bash", "/").with_meta("command", "ls -la");
    assert_eq!(matcher.evaluate(&op), None);
}

#[test]
fn e2e_metadata_missing_returns_no_match() {
    let m = AgentOpMatch {
        metadata: Some(vec![MetadataMatch {
            key: "command".into(),
            value: StringMatch::Exact("ls".into()),
        }]),
        ..Default::default()
    };
    let matcher = m.compile("found").unwrap();

    let op = AgentOp::new("agent-1", "Bash", "/");
    assert_eq!(matcher.evaluate(&op), None);
}

#[test]
fn e2e_combined_agent_and_tool() {
    let m = AgentOpMatch {
        agent_id: Some(StringMatch::Exact("agent-main".into())),
        tool_name: Some(StringMatch::Prefix("file.".into())),
        resource: Some(StringMatch::Prefix("/home/user/project/".into())),
        ..Default::default()
    };
    let matcher = m.compile("allowed").unwrap();

    let op = AgentOp::new("agent-main", "file.read", "/home/user/project/src/lib.rs");
    assert_eq!(matcher.evaluate(&op), Some("allowed"));

    let op = AgentOp::new("rogue", "file.read", "/home/user/project/src/lib.rs");
    assert_eq!(matcher.evaluate(&op), None);

    let op = AgentOp::new("agent-main", "file.read", "/etc/passwd");
    assert_eq!(matcher.evaluate(&op), None);
}

#[test]
fn e2e_empty_match_matches_everything() {
    let m = AgentOpMatch::default();
    let matcher = m.compile("catch_all").unwrap();

    let op = AgentOp::new("any-agent", "any-tool", "/any/path");
    assert_eq!(matcher.evaluate(&op), Some("catch_all"));
}

#[test]
fn e2e_multiple_rules_or() {
    let rules = vec![
        AgentOpMatch {
            tool_name: Some(StringMatch::Exact("Bash".into())),
            ..Default::default()
        },
        AgentOpMatch {
            tool_name: Some(StringMatch::Exact("Write".into())),
            ..Default::default()
        },
    ];

    let matcher = compile_agent_op_matches(&rules, "blocked", None).unwrap();

    let op = AgentOp::new("agent-1", "Bash", "/");
    assert_eq!(matcher.evaluate(&op), Some("blocked"));

    let op = AgentOp::new("agent-1", "Write", "/");
    assert_eq!(matcher.evaluate(&op), Some("blocked"));

    let op = AgentOp::new("agent-1", "Read", "/");
    assert_eq!(matcher.evaluate(&op), None);
}

#[test]
fn e2e_multiple_rules_with_fallback() {
    let rules = vec![AgentOpMatch {
        tool_name: Some(StringMatch::Exact("Bash".into())),
        ..Default::default()
    }];

    let matcher = compile_agent_op_matches(&rules, "block", Some("allow")).unwrap();

    let op = AgentOp::new("agent-1", "Bash", "/");
    assert_eq!(matcher.evaluate(&op), Some("block"));

    let op = AgentOp::new("agent-1", "Read", "/");
    assert_eq!(matcher.evaluate(&op), Some("allow"));
}

#[test]
fn compile_invalid_regex_returns_error() {
    let m = AgentOpMatch {
        tool_name: Some(StringMatch::Regex("[bad".into())),
        ..Default::default()
    };
    assert!(m.compile::<&str>("x").is_err());
}

#[test]
fn scenario_block_system_file_deletion() {
    let rule = AgentOpMatch {
        operation: Some(StringMatch::Exact("delete".into())),
        resource: Some(StringMatch::Prefix("/etc/".into())),
        ..Default::default()
    };
    let matcher = rule.compile("block").unwrap();

    let op = AgentOp::new("agent-1", "file.delete", "/etc/passwd").with_operation("delete");
    assert_eq!(matcher.evaluate(&op), Some("block"));

    let op = AgentOp::new("agent-1", "file.delete", "/tmp/scratch").with_operation("delete");
    assert_eq!(matcher.evaluate(&op), None);
}

#[test]
fn scenario_allow_specific_agent_in_project() {
    let rule = AgentOpMatch {
        agent_id: Some(StringMatch::Exact("agent-main".into())),
        tool_name: Some(StringMatch::Prefix("file.".into())),
        resource: Some(StringMatch::Prefix("/home/user/project/".into())),
        ..Default::default()
    };
    let matcher = rule.compile("allow").unwrap();

    let op = AgentOp::new("agent-main", "file.write", "/home/user/project/src/main.rs");
    assert_eq!(matcher.evaluate(&op), Some("allow"));

    let op = AgentOp::new("rogue-agent", "file.write", "/home/user/project/src/main.rs");
    assert_eq!(matcher.evaluate(&op), None);
}

// ---------- evaluator ----------

fn simple_policy() -> DenyAllowPolicy {
    DenyAllowPolicy {
        deny: vec![DenyRule {
            reason: "No deleting system files".into(),
            matches: vec![AgentOpMatch {
                operation: Some(StringMatch::Exact("delete".into())),
                resource: Some(StringMatch::Prefix("/etc/".into())),
                ..Default::default()
            }],
        }],
        allow: vec![AllowRule {
            matches: vec![AgentOpMatch {
                agent_id: Some(StringMatch::Exact("agent-main".into())),
                tool_name: Some(StringMatch::Prefix("file.".into())),
                resource: Some(StringMatch::Prefix("/home/user/project/".into())),
                ..Default::default()
            }],
        }],
    }
}

#[test]
fn deny_rule_blocks_system_file_deletion() {
    let eval = PolicyEvaluator::compile(simple_policy()).unwrap();

    let op = AgentOp::new("agent-main", "file.delete", "/etc/passwd").with_operation("delete");
    let decision = eval.evaluate(&op);

    assert!(decision.is_denied());
    assert_eq!(decision, PolicyDecision::Deny { reason: "No deleting system files".into() });
}

#[test]
fn allow_rule_permits_authorized_agent() {
    let eval = PolicyEvaluator::compile(simple_policy()).unwrap();

    let op = AgentOp::new("agent-main", "file.read", "/home/user/project/src/lib.rs");
    assert_eq!(eval.evaluate(&op), PolicyDecision::Allow);
}

#[test]
fn default_deny_when_no_rules_match() {
    let eval = PolicyEvaluator::compile(simple_policy()).unwrap();

    let op = AgentOp::new("unknown-agent", "unknown-tool", "/unknown/path");
    let decision = eval.evaluate(&op);

    assert!(decision.is_denied());
    assert_eq!(decision, PolicyDecision::Deny { reason: "no matching allow rule".into() });
}

#[test]
fn deny_takes_precedence_over_allow() {
    let policy = DenyAllowPolicy {
        deny: vec![DenyRule {
            reason: "No destructive operations".into(),
            matches: vec![AgentOpMatch {
                operation: Some(StringMatch::Exact("delete".into())),
                ..Default::default()
            }],
        }],
        allow: vec![AllowRule {
            matches: vec![AgentOpMatch {
                agent_id: Some(StringMatch::Exact("agent-main".into())),
                ..Default::default()
            }],
        }],
    };
    let eval = PolicyEvaluator::compile(policy).unwrap();

    let op = AgentOp::new("agent-main", "file.delete", "/tmp/file").with_operation("delete");
    let decision = eval.evaluate(&op);

    assert!(decision.is_denied());
    assert_eq!(decision, PolicyDecision::Deny { reason: "No destructive operations".into() });
}

#[test]
fn evaluator_empty_policy_denies_everything() {
    let eval = PolicyEvaluator::compile(DenyAllowPolicy::default()).unwrap();

    let op = AgentOp::new("any", "any", "/any");
    assert!(eval.evaluate(&op).is_denied());
}

fn bash_policy() -> DenyAllowPolicy {
    DenyAllowPolicy {
        deny: vec![DenyRule {
            reason: "No Bash".into(),
            matches: vec![AgentOpMatch {
                tool_name: Some(StringMatch::Exact("Bash".into())),
                ..Default::default()
            }],
        }],
        allow: vec![AllowRule {
            matches: vec![AgentOpMatch {
                agent_id: Some(StringMatch::Exact("agent-main".into())),
                ..Default::default()
            }],
        }],
    }
}

#[test]
fn from_json_compiles_policy() {
    let eval = PolicyEvaluator::compile(bash_policy()).unwrap();

    let op = AgentOp::new("agent-main", "Bash", "/");
    assert!(eval.evaluate(&op).is_denied());

    let op = AgentOp::new("agent-main", "Read", "/");
    assert!(eval.evaluate(&op).is_allowed());

    let op = AgentOp::new("rogue", "Read", "/");
    assert!(eval.evaluate(&op).is_denied());
}

#[test]
fn from_json_invalid_regex_returns_error() {
    let policy = DenyAllowPolicy {
        deny: vec![DenyRule {
            reason: "bad".into(),
            matches: vec![AgentOpMatch {
                tool_name: Some(StringMatch::Regex("[bad".into())),
                ..Default::default()
            }],
        }],
        allow: vec![],
    };
    let result = PolicyEvaluator::compile(policy);
    assert!(result.is_err());
    match result.err().unwrap() {
        PolicyError::InvalidRule { rule_type, rule_index, .. } => {
            assert_eq!(rule_type, "deny");
            assert_eq!(rule_index, 0);
        }
        other => panic!("expected InvalidRule, got {}", other.to_string()),
    }
}

#[test]
fn scenario_full_policy() {
    let policy = DenyAllowPolicy {
        deny: vec![
            DenyRule {
                reason: "No agent may delete system files".into(),
                matches: vec![AgentOpMatch {
                    operation: Some(StringMatch::Exact("delete".into())),
                    resource: Some(StringMatch::Prefix("/etc/".into())),
                    ..Default::default()
                }],
            },
            DenyRule {
                reason: "Destructive bash commands forbidden".into(),
                matches: vec![AgentOpMatch {
                    tool_name: Some(StringMatch::Exact("Bash".into())),
                    metadata: Some(vec![MetadataMatch {
                        key: "command".into(),
                        value: StringMatch::Contains("rm -rf".into()),
                    }]),
                    ..Default::default()
                }],
            },
        ],
        allow: vec![AllowRule {
            matches: vec![AgentOpMatch {
                agent_id: Some(StringMatch::Exact("agent-main".into())),
                tool_name: Some(StringMatch::Prefix("file.".into())),
                resource: Some(StringMatch::Prefix("/home/user/project/".into())),
                ..Default::default()
            }],
        }],
    };

    let eval = PolicyEvaluator::compile(policy).unwrap();

    let op = AgentOp::new("agent-main", "file.read", "/home/user/project/src/lib.rs");
    assert!(eval.evaluate(&op).is_allowed());

    let op = AgentOp::new("agent-main", "file.delete", "/etc/passwd").with_operation("delete");
    assert!(eval.evaluate(&op).is_denied());

    let op = AgentOp::new("agent-main", "Bash", "/home/user/project").with_meta("command", "rm -rf /important");
    assert!(eval.evaluate(&op).is_denied());

    let op = AgentOp::new("rogue-agent", "file.read", "/home/user/project/src/lib.rs");
    assert!(eval.evaluate(&op).is_denied());

    let op = AgentOp::new("agent-main", "file.write", "/root/.ssh/authorized_keys");
    assert!(eval.evaluate(&op).is_denied());
}

// ---------- context and inputs ----------

#[test]
fn test_agent_op_builder() {
    let op = AgentOp::new("agent-main", "file.read", "/src/lib.rs")
        .with_operation("read")
        .with_session_id("sess-123")
        .with_meta("encoding", "utf-8");

    assert_eq!(op.agent_id(), "agent-main");
    assert_eq!(op.tool_name(), "file.read");
    assert_eq!(op.resource(), "/src/lib.rs");
    assert_eq!(op.operation(), "read");
    assert_eq!(op.session_id(), "sess-123");
    assert_eq!(op.meta("encoding"), Some("utf-8"));
}

#[test]
fn test_data_input_extraction() {
    let op = AgentOp::new("agent-1", "Bash", "/tmp").with_meta("command", "ls -la");

    assert_eq!(AgentIdInput.get(&op), MatchingData::String("agent-1".into()));
    assert_eq!(ToolNameInput.get(&op), MatchingData::String("Bash".into()));
    assert_eq!(MetadataInput::new("command").get(&op), MatchingData::String("ls -la".into()));
}

#[test]
fn test_end_to_end_policy_evaluation() {
    let evaluator = PolicyEvaluator::compile(bash_policy()).unwrap();

    let op = AgentOp::new("agent-main", "Read", "/src");
    assert!(evaluator.evaluate(&op).is_allowed());

    let op = AgentOp::new("agent-main", "Bash", "/");
    assert!(evaluator.evaluate(&op).is_denied());

    let op = AgentOp::new("rogue", "Read", "/src");
    assert!(evaluator.evaluate(&op).is_denied());
}

#[test]
fn agent_id_input() {
    let op = AgentOp::new("agent-main", "file.read", "/src/lib.rs");
    assert_eq!(AgentIdInput.get(&op), MatchingData::String("agent-main".into()));
}

#[test]
fn tool_name_input() {
    let op = AgentOp::new("agent-1", "Bash", "/tmp");
    assert_eq!(ToolNameInput.get(&op), MatchingData::String("Bash".into()));
}

#[test]
fn resource_input() {
    let op = AgentOp::new("agent-1", "file.write", "/etc/passwd");
    assert_eq!(ResourceInput.get(&op), MatchingData::String("/etc/passwd".into()));
}

#[test]
fn operation_input() {
    let op = AgentOp::new("agent-1", "file.write", "/tmp/out").with_operation("write");
    assert_eq!(OperationInput.get(&op), MatchingData::String("write".into()));
}

#[test]
fn operation_input_empty_default() {
    let op = AgentOp::new("agent-1", "file.read", "/src");
    assert_eq!(OperationInput.get(&op), MatchingData::String(String::new()));
}

#[test]
fn session_id_input() {
    let op = AgentOp::new("agent-1", "tool", "/").with_session_id("sess-123");
    assert_eq!(SessionIdInput.get(&op), MatchingData::String("sess-123".into()));
}

#[test]
fn metadata_input_present() {
    let op = AgentOp::new("agent-1", "Bash", "/").with_meta("command", "ls -la");
    assert_eq!(MetadataInput::new("command").get(&op), MatchingData::String("ls -la".into()));
}

#[test]
fn metadata_input_absent() {
    let op = AgentOp::new("agent-1", "Bash", "/");
    assert_eq!(MetadataInput::new("command").get(&op), MatchingData::Absent);
}

// ---------- config and decision ----------

#[test]
fn agent_op_match_default_is_empty() {
    let m = AgentOpMatch::default();
    assert!(m.agent_id.is_none());
    assert!(m.tool_name.is_none());
    assert!(m.resource.is_none());
    assert!(m.operation.is_none());
    assert!(m.session_id.is_none());
    assert!(m.metadata.is_none());
}

#[test]
fn policy_decision_is_allowed() {
    assert!(PolicyDecision::Allow.is_allowed());
    assert!(!PolicyDecision::Allow.is_denied());
}

#[test]
fn policy_decision_is_denied() {
    let d = PolicyDecision::Deny { reason: "nope".into() };
    assert!(d.is_denied());
    assert!(!d.is_allowed());
}

#[test]
fn deny_allow_policy_default_is_empty() {
    let p = DenyAllowPolicy::default();
    assert!(p.deny.is_empty());
    assert!(p.allow.is_empty());
}

// ---------- further cases ----------

#[test]
fn with_meta_replaces_an_earlier_value() {
    let op = AgentOp::new("a", "t", "/").with_meta("k", "one").with_meta("j", "x").with_meta("k", "two");
    assert_eq!(op.meta("k"), Some("two"));
    assert_eq!(op.meta("j"), Some("x"));
    assert_eq!(op.meta("missing"), None);
}

#[test]
fn suffix_and_regex_matching() {
    let m = AgentOpMatch {
        resource: Some(StringMatch::Suffix(".rs".into())),
        tool_name: Some(StringMatch::Regex("^file\\.(read|write)$".into())),
        ..Default::default()
    };
    let matcher = m.compile("rust_file").unwrap();
    assert_eq!(matcher.evaluate(&AgentOp::new("a", "file.read", "/src/lib.rs")), Some("rust_file"));
    assert_eq!(matcher.evaluate(&AgentOp::new("a", "file.delete", "/src/lib.rs")), None);
    assert_eq!(matcher.evaluate(&AgentOp::new("a", "file.read", "/src/lib.py")), None);
}

#[test]
fn empty_match_list_matches_nothing() {
    let matcher = compile_agent_op_matches(&[], "all", None).unwrap();
    assert_eq!(matcher.evaluate(&AgentOp::new("x", "y", "z")), None);
    let fallback = compile_agent_op_matches(&[], "all", Some("none")).unwrap();
    assert_eq!(fallback.evaluate(&AgentOp::new("x", "y", "z")), Some("none"));
}

#[test]
fn deny_allow_rule_without_matches_never_fires() {
    let policy = DenyAllowPolicy {
        deny: vec![DenyRule { reason: "never".into(), matches: vec![] }],
        allow: vec![AllowRule { matches: vec![AgentOpMatch::default()] }, AllowRule { matches: vec![] }],
    };
    let eval = PolicyEvaluator::compile(policy).unwrap();
    assert_eq!(eval.evaluate(&AgentOp::new("a", "b", "/")), PolicyDecision::Allow);
    let only_empty = DenyAllowPolicy { deny: vec![], allow: vec![AllowRule { matches: vec![] }] };
    let eval = PolicyEvaluator::compile(only_empty).unwrap();
    assert_eq!(eval.evaluate(&AgentOp::new("a", "b", "/")), PolicyDecision::Deny { reason: "no matching allow rule".into() });
}

#[test]
fn invalid_allow_rule_is_reported_with_its_index() {
    let policy = DenyAllowPolicy {
        deny: vec![],
        allow: vec![
            AllowRule { matches: vec![AgentOpMatch::default()] },
            AllowRule {
                matches: vec![AgentOpMatch {
                    agent_id: Some(StringMatch::Regex("(".into())),
                    ..Default::default()
                }],
            },
        ],
    };
    match PolicyEvaluator::compile(policy).err().unwrap() {
        PolicyError::InvalidRule { rule_type, rule_index, field, source } => {
            assert_eq!(rule_type, "allow");
            assert_eq!(rule_index, 1);
            assert!(field.is_none());
            assert_eq!(source.pattern, "(");
        }
        other => panic!("expected InvalidRule, got {}", other.to_string()),
    }
}

#[test]
fn policy_error_renders_rule_and_field() {
    let e = PolicyError::InvalidRule {
        rule_type: "deny",
        rule_index: 12,
        field: Some("tool_name".into()),
        source: geist::string_match::MatcherError { pattern: "[x".into(), message: "unclosed".into() },
    };
    assert_eq!(e.to_string(), "deny rule [12] field 'tool_name': invalid regex '[x': unclosed");
    let p = PolicyError::InvalidPolicy { source: "expected value".into() };
    assert_eq!(p.to_string(), "invalid policy: expected value");
}

#[test]
fn input_for_type_url() {
    let cfg = || MetadataInputConfig { key: "command".into() };
    assert!(matches!(AgentOpInput::from_type_url("act.v1.ToolNameInput", cfg()), Some(AgentOpInput::ToolName)));
    match AgentOpInput::from_type_url("act.v1.MetadataInput", cfg()) {
        Some(AgentOpInput::Metadata(k)) => assert_eq!(k, "command"),
        _ => panic!("expected the metadata input"),
    }
    assert!(AgentOpInput::from_type_url("act.v1.Unknown", cfg()).is_none());
    let input = MetadataInput::from_config(cfg());
    let op = AgentOp::new("a", "b", "c").with_meta("command", "ls");
    assert_eq!(input.get(&op), MatchingData::String("ls".into()));
}

#[test]
fn more_deny_rules_never_allow_more() {
    let mut extended = bash_policy();
    extended.deny.push(DenyRule {
        reason: "No writes".into(),
        matches: vec![AgentOpMatch { tool_name: Some(StringMatch::Exact("Write".into())), ..Default::default() }],
    });
    let base = PolicyEvaluator::compile(bash_policy()).unwrap();
    let more = PolicyEvaluator::compile(extended).unwrap();
    for (agent, tool) in [("agent-main", "Read"), ("agent-main", "Write"), ("agent-main", "Bash"), ("rogue", "Read")] {
        let op = AgentOp::new(agent, tool, "/");
        if more.evaluate(&op).is_allowed() {
            assert!(base.evaluate(&op).is_allowed());
        }
    }
    assert!(base.evaluate(&AgentOp::new("agent-main", "Write", "/")).is_allowed());
    assert_eq!(
        more.evaluate(&AgentOp::new("agent-main", "Write", "/")),
        PolicyDecision::Deny { reason: "No writes".into() }
    );
}
