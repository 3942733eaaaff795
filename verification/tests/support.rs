use geist::access_log::{
    file_name, format_entry, format_request_entry, parent_dir, AccessLogConfig, RequestInfo, TARGET_ENTRY_BYTES,
    TYPE_URL as LOG_TYPE_URL,
};
use geist::cli::{check_url, failure_line, report_line, verdict, Verdict};
use geist::manifest::{ComponentContract, ComponentKind};
use geist::registry::{RegistryError, TypedRegistry, TypedRegistryBuilder};

// ---------- access log ----------

fn info<'a>(method: &'a str, path: &'a str, agent: &'a str) -> RequestInfo<'a> {
    RequestInfo {
        method,
        path,
        authority: "-",
        host: "-",
        agent,
        tool: "-",
        resource: "-",
        session: "-",
        operation: "-",
        content_type: "-",
        user_agent: "-",
        accept: "-",
    }
}

#[test]
fn access_log_entry_is_padded_json_line() {
    let entry = format_entry(1700000000, 42, &info("GET", "/health", "monitor"));
    assert!(entry.starts_with("{\"ts\":\"1700000000.000000042\",\"method\":\"GET\",\"path\":\"/health\","));
    assert!(entry.contains("\"agent\":\"monitor\""));
    assert!(entry.contains("\"processor\":\"geist-edge\",\"pipeline_pos\":0,\"_pad\":\"..."));
    assert!(entry.ends_with("...\"}\n"));
    assert_eq!(entry.len(), TARGET_ENTRY_BYTES);
}

#[test]
fn access_log_long_entry_is_not_padded() {
    let long = "a".repeat(4000);
    let entry = format_entry(5, 123456789, &info("POST", &long, "x"));
    assert!(entry.starts_with("{\"ts\":\"5.123456789\""));
    assert!(entry.ends_with("\"pipeline_pos\":0}\n"));
    assert!(!entry.contains("_pad"));
}

#[test]
fn access_log_entry_near_the_target() {
    let short = format_entry(0, 0, &info("GET", "", "-"));
    let base = short.find(",\"_pad\"").unwrap();
    // Exactly room for the padding field: no dots, the target size.
    let fits = "p".repeat(3060 - base);
    let e = format_entry(0, 0, &info("GET", &fits, "-"));
    assert_eq!(e.len(), TARGET_ENTRY_BYTES);
    assert!(e.ends_with(",\"_pad\":\"\"}\n"));
    // No room for the padding field: the head is closed as it is.
    for extra in 1..10 {
        let path = "p".repeat(3060 - base + extra);
        let e = format_entry(0, 0, &info("GET", &path, "-"));
        assert_eq!(e.len(), TARGET_ENTRY_BYTES - 10 + extra);
        assert!(!e.contains("_pad"));
        assert!(e.ends_with("}\n"));
    }
}

#[test]
fn access_log_reads_request_headers() {
    let parts = http::Request::builder()
        .method("POST")
        .uri("http://example.org:8080/api/test?q=1")
        .header("x-geist-agent-id", "monitor")
        .header("user-agent", "curl/8")
        .body(())
        .unwrap()
        .into_parts()
        .0;
    let entry = format_request_entry(1, 2, &parts);
    assert!(entry.contains("\"method\":\"POST\""));
    assert!(entry.contains("\"path\":\"/api/test?q=1\""));
    assert!(entry.contains("\"authority\":\"example.org:8080\""));
    assert!(entry.contains("\"agent\":\"monitor\""));
    assert!(entry.contains("\"user_agent\":\"curl/8\""));
    assert!(entry.contains("\"tool\":\"-\""));
    let origin_form = http::Request::builder().uri("/health").body(()).unwrap().into_parts().0;
    let entry = format_request_entry(1, 2, &origin_form);
    assert!(entry.contains("\"method\":\"GET\",\"path\":\"/health\",\"authority\":\"-\""));
}

#[test]
fn access_log_config_targets() {
    assert!(AccessLogConfig { path: "stdout".into() }.writes_to_stdout());
    assert!(AccessLogConfig { path: "-".into() }.writes_to_stdout());
    assert!(!AccessLogConfig { path: "/var/log/geist/access.log".into() }.writes_to_stdout());
    assert_eq!(parent_dir("/var/log/geist/access.log").unwrap(), "/var/log/geist");
    assert_eq!(file_name("/var/log/geist/access.log").unwrap(), "access.log");
    let e = parent_dir("/").err().unwrap();
    assert_eq!(e.processor, LOG_TYPE_URL);
    assert_eq!(e.message, "invalid log path: /");
    let f = file_name("logs/..").err().unwrap();
    assert_eq!(f.message, "invalid log filename: logs/..");
}

// ---------- command-line client ----------

#[test]
fn cli_url_joins_server_and_path() {
    assert_eq!(check_url("http://localhost:3000", "/"), "http://localhost:3000/");
    assert_eq!(check_url("http://localhost:3000///", "/mcp"), "http://localhost:3000/mcp");
    assert_eq!(check_url("", "/x"), "/x");
}

#[test]
fn cli_reports_verdicts() {
    assert_eq!(verdict(200), Verdict::Allow);
    assert_eq!(verdict(403), Verdict::Deny);
    assert_eq!(verdict(500), Verdict::Error);
    assert_eq!(report_line(200, "pipeline passed\n"), "\x1b[32mALLOW\x1b[0m (200): pipeline passed");
    assert_eq!(report_line(403, "  {\"error\":\"access_denied\"} "), "\x1b[31mDENY\x1b[0m (403): {\"error\":\"access_denied\"}");
    assert_eq!(report_line(502, ""), "\x1b[33mERROR\x1b[0m (502): ");
    assert_eq!(failure_line("connection refused"), "\x1b[31mERROR\x1b[0m: connection refused");
}

// ---------- manifests ----------

#[test]
fn component_kind_display() {
    assert_eq!(ComponentKind::Agent.to_string(), "agent");
    assert_eq!(ComponentKind::Capability.to_string(), "capability");
    assert_eq!(ComponentKind::Skill.to_string(), "skill");
    assert_eq!(ComponentKind::Flow.to_string(), "flow");
}

#[test]
fn component_contract_default_is_empty() {
    let c = ComponentContract::default();
    assert!(c.consumes.is_empty());
    assert!(c.produces.is_none());
    assert!(c.assertions.is_empty());
    assert!(c.boundaries.is_empty());
}

// ---------- registry ----------

fn with(builder: TypedRegistryBuilder<&'static str>, type_url: &str, name: &'static str) -> TypedRegistryBuilder<&'static str> {
    builder.register(type_url, name)
}

#[test]
fn builder_registers_factory() {
    let registry = with(TypedRegistryBuilder::new(), "test.echo.v1", "echo").build();
    assert_eq!(registry.len(), 1);
    assert_eq!(registry.type_urls(), vec!["test.echo.v1"]);
}

#[test]
fn multiple_registrations() {
    let builder = TypedRegistryBuilder::new();
    let builder = with(builder, "test.echo.v1", "echo");
    let builder = with(builder, "test.noop.v1", "noop");
    let registry = builder.build();
    assert_eq!(registry.len(), 2);
    assert_eq!(registry.type_urls(), vec!["test.echo.v1", "test.noop.v1"]);
}

#[test]
fn empty_registry() {
    let registry: TypedRegistry<&'static str> = TypedRegistryBuilder::new().build();
    assert!(registry.is_empty());
    assert_eq!(registry.len(), 0);
    assert!(registry.type_urls().is_empty());
}

#[test]
fn last_registration_wins_on_duplicate_type_url() {
    let builder = TypedRegistryBuilder::new();
    let builder = with(builder, "test.dup.v1", "echo");
    let builder = with(builder, "test.dup.v1", "noop");
    let registry = builder.build();
    assert_eq!(registry.len(), 1);
    assert_eq!(*registry.get("test.dup.v1").unwrap(), "noop");
}

#[test]
fn create_unknown_type_url_errors() {
    let registry = with(TypedRegistryBuilder::new(), "test.echo.v1", "echo").build();
    let err = match registry.get("test.missing.v1") {
        Err(e) => e.to_string(),
        Ok(_) => panic!("expected error, got Ok"),
    };
    assert!(err.contains("test.missing.v1"));
    assert!(err.contains("test.echo.v1"));
    assert_eq!(err, "unknown type URL 'test.missing.v1' (registered: test.echo.v1)");
}

#[test]
fn register_unique_refuses_a_duplicate() {
    let builder = TypedRegistryBuilder::new().register_unique("a.v1", 1u8).unwrap();
    let builder = builder.register_unique("b.v1", 2u8).unwrap();
    let err = match builder.register_unique("a.v1", 3u8) {
        Err(e) => e,
        Ok(_) => panic!("expected a duplicate error"),
    };
    assert_eq!(err, RegistryError::DuplicateTypeUrl { type_url: "a.v1".into() });
    assert_eq!(err.to_string(), "duplicate type URL 'a.v1'");
}

#[test]
fn registry_error_lists_every_registered_url() {
    let registry = TypedRegistryBuilder::new().register("a", 1u8).register("b", 2u8).register("c", 3u8).build();
    match registry.get("d") {
        Err(e) => assert_eq!(e.to_string(), "unknown type URL 'd' (registered: a, b, c)"),
        Ok(_) => panic!("expected error"),
    }
    assert_eq!(*registry.get("b").unwrap(), 2u8);
}
