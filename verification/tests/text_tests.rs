use twilight_bark::adapters::{fs_scan_envelope, is_markdown_file, note_envelope, filesystem_adapter_identity, obsidian_adapter_identity, Pod};
use twilight_bark::console::{
    default_identity_path, enrollment_jwt_path, enrollment_slot_name, enrollment_status, process_status,
};
use twilight_bark::eventlog::EventLogger;
use twilight_bark::identity::{create_default_identity, create_node_identity, create_presence, HostInfo};
use twilight_bark::proto::{AgentStatus, MessageKind, NodeKind, Payload};
use twilight_bark::strings::{trim, u64_to_decimal, starts_with, contains_char, str_eq, cat};
use twilight_bark::ziti::{enroll_args, enroll_outcome, ZitiBridge, ZitiError, ZitiIdentity, ZitiTunnel};

fn host() -> HostInfo {
    HostInfo {
        hostname: Some("box".to_string()),
        user: Some("alice".to_string()),
        username: None,
        home: None,
        xdg_runtime_dir: None,
    }
}

#[test]
fn trimming_and_decimals() {
    assert_eq!(trim("  a b \t\n"), "a b");
    assert_eq!(trim("\u{3000}x\u{a0}"), "x");
    assert_eq!(trim("   "), "");
    assert_eq!(trim(""), "");
    assert_eq!(u64_to_decimal(0), "0");
    assert_eq!(u64_to_decimal(7447), "7447");
    assert_eq!(u64_to_decimal(u64::MAX), "18446744073709551615");
    assert!(starts_with("~/a", "~/"));
    assert!(!starts_with("~", "~/"));
    assert!(contains_char("a/b", '/'));
    assert!(str_eq("ab", "ab") && !str_eq("ab", "abc"));
    assert_eq!(cat("ab", "cd"), "abcd");
}

#[test]
fn node_identity_fields() {
    let id = create_node_identity("scout", "observer", "box-alice", "arkham");
    assert_eq!(id.agent_name, "scout");
    assert_eq!(id.display_name, "scout");
    assert_eq!(id.role, "observer");
    assert_eq!(id.roles, vec!["observer".to_string()]);
    assert_eq!(id.node_kind, NodeKind::Agent);
    assert_eq!((id.site.as_str(), id.node_id.as_str(), id.host.as_str()), ("box-alice", "box-alice", "box-alice"));
    assert_eq!(id.tenant, "arkham");
    assert_eq!(id.runtime, "rust");
    assert_eq!(id.agent_version, "0.1.0");
    assert!(id.scopes.is_empty() && id.capabilities.is_empty() && id.region.is_empty());
    assert_eq!(id.node_uuid.len(), 36);
    assert_ne!(id.node_uuid, id.agent_uuid);
    assert_ne!(id.agent_uuid, id.instance_uuid);
    let other = create_node_identity("scout", "observer", "box-alice", "arkham");
    assert_ne!(id.node_uuid, other.node_uuid);
}

#[test]
fn default_identity_and_presence() {
    let id = create_default_identity("cli-injector", "operator", &host());
    assert_eq!(id.node_id, "box-alice");
    assert_eq!(id.tenant, "default");
    let p = create_presence(id.clone(), AgentStatus::Online);
    assert_eq!(p.identity, Some(id));
    assert_eq!(p.ttl_ms, 30000);
    assert_eq!(p.started_unix_ms, p.last_seen_unix_ms);
    assert!(p.started_unix_ms > 1_600_000_000_000);
}

#[test]
fn ziti_command_lines() {
    let t = ZitiTunnel {
        binary: "ziti".to_string(),
        identity_file: "/home/a/identity.json".to_string(),
        service: "bark-bus-service".to_string(),
        local_port: 7447,
    };
    let (prog, args) = t.build_args();
    assert_eq!(prog, "ziti");
    assert_eq!(args, vec!["tunnel", "proxy", "--identity", "/home/a/identity.json", "bark-bus-service:7447"]);
    assert_eq!(enroll_args("a.jwt", "out.json"), vec!["edge", "enroll", "--jwt", "a.jwt", "--out", "out.json"]);
}

#[test]
fn ziti_enroll_outcome_and_bridge() {
    assert!(enroll_outcome(true, "exit status: 0".into(), String::new()).is_ok());
    match enroll_outcome(false, "exit status: 1".into(), "bad jwt".into()) {
        Err(e @ ZitiError::EnrollFailed { .. }) => {
            assert_eq!(e.message(), "ziti enroll failed (exit exit status: 1): bad jwt")
        }
        other => panic!("unexpected {other:?}"),
    }
    let b = ZitiBridge::new(ZitiIdentity {
        name: "n".into(),
        identity_file: "f".into(),
        controller_url: "u".into(),
    });
    assert_eq!(b.dial("bark-bus-service").unwrap(), "ziti://bark-bus-service");
}

#[test]
fn filesystem_scan_reports_file_list_as_json() {
    let id = filesystem_adapter_identity(&host());
    assert_eq!(id.agent_name, "filesystem-adapter");
    assert_eq!(id.role, "adapter");
    let files = vec!["/v/a.md".to_string(), "/v/\"q\".txt".to_string()];
    let env = fs_scan_envelope(&id, &files).unwrap();
    assert_eq!(env.kind, MessageKind::Observation);
    assert_eq!(env.priority, 1);
    assert_eq!(env.tags, vec!["fs_scan".to_string()]);
    assert!(env.target.is_none());
    assert!(env.correlation_uuid.is_empty());
    assert!(env.expires_unix_ms >= env.created_unix_ms + 60000);
    match env.payload {
        Some(Payload::Observation(o)) => {
            assert_eq!(o.event_type, "fs_scan");
            assert_eq!(o.source_id, id.node_uuid);
            assert_eq!(o.data_json, "[\"/v/a.md\",\"/v/\\\"q\\\".txt\"]");
        }
        other => panic!("unexpected {other:?}"),
    }
}

#[test]
fn obsidian_note_reports_front_matter() {
    let id = obsidian_adapter_identity(&host());
    let env = note_envelope(&id, "home.md", "---\ntitle: Home\n---\nOther stuff").expect("a readable note");
    assert_eq!(env.priority, 2);
    assert_eq!(env.tags, vec!["obsidian".to_string(), "home.md".to_string()]);
    match env.payload {
        Some(Payload::Observation(o)) => {
            assert_eq!(o.event_type, "obsidian_note");
            assert_ne!(o.data_json, "{}");
            assert!(o.data_json.contains("Home"));
        }
        other => panic!("unexpected {other:?}"),
    }
    let plain = note_envelope(&id, "plain.md", "just text").expect("a readable note");
    match plain.payload {
        Some(Payload::Observation(o)) => assert_eq!(o.data_json, "{}"),
        other => panic!("unexpected {other:?}"),
    }
    assert!(is_markdown_file("/vault/notes/home.md"));
    assert!(!is_markdown_file("/vault/notes/home.md.bak"));
    assert!(!is_markdown_file("/vault/md"));
    let pod = Pod { id: "n".into(), data: "{}".into() };
    assert_eq!(pod.id, "n");
}

#[test]
fn console_enrollment_slots() {
    assert_eq!(enrollment_slot_name(0), "node-001");
    assert_eq!(enrollment_slot_name(41), "node-042");
    assert_eq!(enrollment_slot_name(999), "node-1000");
    assert_eq!(enrollment_jwt_path("/h/.config/twilight/enrollments", "node-001"), "/h/.config/twilight/enrollments/node-001.jwt");
    assert_eq!(enrollment_status(true), "jwt ready");
    assert_eq!(enrollment_status(false), "awaiting jwt");
}

#[test]
fn event_logger_keeps_its_path() {
    let l = EventLogger::new("/var/log/twilight/events.jsonl");
    assert_eq!(l.file_path(), "/var/log/twilight/events.jsonl");
}

#[test]
fn daemon_process_status_and_identity_path() {
    assert_eq!(process_status(Some("42".to_string()), true), "running (pid=42)");
    assert_eq!(process_status(Some("42".to_string()), false), "dead (stale PID file)");
    assert_eq!(process_status(None, false), "not running (no PID file)");
    assert_eq!(default_identity_path(&Some("/home/a".to_string())), "/home/a/.config/twilight/identity.json");
    assert_eq!(default_identity_path(&None), "./.config/twilight/identity.json");
}
