use twilight_bark::identity::{identity_from_parts, presence_at};
use twilight_bark::proto::{
    AgentIdentity, AgentPresence, AgentStatus, Heartbeat, MessageKind, MessageTarget, TargetKind,
    TwilightEnvelope,
};
use twilight_bark::registry::TrafficController;

fn agent(uuid: &str, roles: &[&str], caps: &[&str]) -> AgentIdentity {
    let mut id = identity_from_parts(
        "agent",
        roles.first().copied().unwrap_or("none"),
        "host-user",
        "default",
        format!("a-{uuid}"),
        format!("i-{uuid}"),
        uuid.to_string(),
    );
    id.roles = roles.iter().map(|r| r.to_string()).collect();
    id.capabilities = caps.iter().map(|c| c.to_string()).collect();
    id
}

fn target(kind: TargetKind, uuids: &[&str], roles: &[&str], caps: &[&str]) -> MessageTarget {
    MessageTarget {
        target_kind: kind,
        target_agent_uuids: uuids.iter().map(|s| s.to_string()).collect(),
        target_roles: roles.iter().map(|s| s.to_string()).collect(),
        target_capabilities: caps.iter().map(|s| s.to_string()).collect(),
    }
}

fn envelope(source: Option<AgentIdentity>, target: Option<MessageTarget>) -> TwilightEnvelope {
    TwilightEnvelope {
        message_uuid: "m".to_string(),
        correlation_uuid: String::new(),
        causation_uuid: String::new(),
        source,
        target,
        kind: MessageKind::TaskRequest,
        priority: 2,
        created_unix_ms: 0,
        expires_unix_ms: 0,
        tags: Vec::new(),
        payload: None,
    }
}

fn sorted(mut v: Vec<String>) -> Vec<String> {
    v.sort();
    v
}

/// Milliseconds as the registry's nanoseconds.
fn ns(ms: i64) -> i128 {
    (ms as i128) * 1_000_000
}

fn controller_with(agents: &[(AgentIdentity, i64)]) -> TrafficController {
    let mut c = TrafficController::new();
    for (id, t) in agents {
        c.update_presence_at(presence_at(id.clone(), AgentStatus::Online, *t), ns(*t));
    }
    c
}

#[test]
fn new_controller_is_empty() {
    let c = TrafficController::new();
    assert!(c.get_all_identities().is_empty());
    let s = c.get_analytics_snapshot();
    assert!(s.nodes.is_empty());
    assert!(s.edges.is_empty());
}

#[test]
fn presence_registers_identity_under_node_uuid() {
    let id = agent("n1", &["scout"], &[]);
    let c = controller_with(&[(id.clone(), 1000)]);
    assert_eq!(c.get_identity("n1"), Some(id));
    assert_eq!(c.get_identity("n2"), None);
    assert_eq!(c.get_all_identities().len(), 1);
}

#[test]
fn presence_without_identity_is_ignored() {
    let mut c = TrafficController::new();
    let p = AgentPresence {
        identity: None,
        status: AgentStatus::Online,
        subscribes_to: Vec::new(),
        publishes_to: Vec::new(),
        started_unix_ms: 0,
        last_seen_unix_ms: 0,
        ttl_ms: 30000,
    };
    c.update_presence(p);
    assert!(c.get_all_identities().is_empty());
}

#[test]
fn later_presence_replaces_earlier() {
    let first = agent("n1", &["scout"], &[]);
    let mut second = agent("n1", &["worker"], &[]);
    second.agent_name = "renamed".to_string();
    let mut c = controller_with(&[(first, 1000)]);
    c.update_presence_at(presence_at(second.clone(), AgentStatus::Offline, 2000), ns(2000));
    assert_eq!(c.get_all_identities(), vec![second.clone()]);
    assert_eq!(c.get_identity("n1"), Some(second));
}

#[test]
fn remove_agent_forgets_only_that_agent() {
    let mut c = controller_with(&[(agent("n1", &[], &[]), 1), (agent("n2", &[], &[]), 1)]);
    c.remove_agent("n1");
    assert_eq!(c.get_identity("n1"), None);
    assert!(c.get_identity("n2").is_some());
    c.remove_agent("absent");
    assert_eq!(c.get_all_identities().len(), 1);
}

#[test]
fn cleanup_removes_exactly_stale_agents() {
    let mut c = controller_with(&[
        (agent("old", &[], &[]), 1_000),
        (agent("edge", &[], &[]), 30_000),
        (agent("new", &[], &[]), 50_000),
    ]);
    // at 60 s with a 30 s timeout: "old" is 59 s silent, "edge" exactly 30 s, "new" 10 s
    let removed = c.cleanup_stale_agents_at(ns(60_000), 30);
    assert_eq!(removed, vec!["old".to_string()]);
    assert_eq!(c.get_identity("old"), None);
    assert!(c.get_identity("edge").is_some());
    assert!(c.get_identity("new").is_some());
    // one nanosecond past the timeout is stale
    let removed = c.cleanup_stale_agents_at(ns(60_000) + 1, 30);
    assert_eq!(removed, vec!["edge".to_string()]);
}

#[test]
fn heartbeat_refreshes_known_agent_only() {
    let mut c = controller_with(&[(agent("n1", &[], &[]), 1_000)]);
    let hb = |id: &str| Heartbeat {
        node_id: id.to_string(),
        status: AgentStatus::Online,
        timestamp_unix_ms: 0,
        active_tasks: 0,
        queued_tasks: 0,
    };
    c.update_heartbeat_at(hb("n1"), ns(100_000));
    c.update_heartbeat_at(hb("stranger"), ns(100_000));
    assert_eq!(c.get_identity("stranger"), None);
    assert!(c.cleanup_stale_agents_at(ns(130_000), 30).is_empty());
    assert_eq!(c.cleanup_stale_agents_at(ns(130_000) + 1, 30), vec!["n1".to_string()]);
}

#[test]
fn wall_clock_cleanup_keeps_fresh_agents() {
    let mut c = TrafficController::new();
    c.update_presence(presence_at(agent("n1", &[], &[]), AgentStatus::Online, 0));
    assert!(c.cleanup_stale_agents(30).is_empty());
    assert_eq!(c.cleanup_stale_agents(-1), vec!["n1".to_string()]);
}

#[test]
fn unicast_targets_are_taken_verbatim() {
    let c = controller_with(&[(agent("n1", &[], &[]), 1)]);
    let t = target(TargetKind::Unicast, &["x", "x", "n1"], &["scout"], &[]);
    assert_eq!(c.get_targets(&t), vec!["x".to_string(), "x".to_string(), "n1".to_string()]);
}

#[test]
fn role_and_capability_targets_resolve_against_registry() {
    let c = controller_with(&[
        (agent("a", &["scout", "cli"], &["fs"]), 1),
        (agent("b", &["processor"], &["llm", "fs"]), 1),
        (agent("c", &["daemon"], &[]), 1),
    ]);
    let by_role = target(TargetKind::Role, &[], &["processor", "cli"], &[]);
    assert_eq!(sorted(c.get_targets(&by_role)), vec!["a".to_string(), "b".to_string()]);
    let by_cap = target(TargetKind::Capability, &[], &[], &["llm"]);
    assert_eq!(c.get_targets(&by_cap), vec!["b".to_string()]);
    let nobody = target(TargetKind::Role, &[], &["unknown-role"], &[]);
    assert!(c.get_targets(&nobody).is_empty());
    let all = target(TargetKind::Broadcast, &[], &[], &[]);
    assert_eq!(sorted(c.get_targets(&all)), vec!["a".to_string(), "b".to_string(), "c".to_string()]);
    let unspecified = target(TargetKind::Unspecified, &[], &[], &[]);
    assert_eq!(c.get_targets(&unspecified).len(), 3);
}

#[test]
fn record_traffic_counts_per_recipient() {
    let sender = agent("s", &["scout"], &[]);
    let mut c = controller_with(&[(sender.clone(), 1), (agent("r", &["worker"], &[]), 1)]);
    let uni = envelope(Some(sender.clone()), Some(target(TargetKind::Unicast, &["r", "r"], &[], &[])));
    assert!(c.traffic_fits(&uni));
    c.record_traffic(&uni);
    c.record_traffic(&envelope(Some(sender.clone()), Some(target(TargetKind::Role, &[], &["worker"], &[]))));
    c.record_traffic(&envelope(None, None));
    let snap = c.get_analytics_snapshot();
    let mut edges: Vec<(String, String, u64)> =
        snap.edges.iter().map(|e| (e.source.clone(), e.target.clone(), e.weight)).collect();
    edges.sort();
    assert_eq!(
        edges,
        vec![
            ("s".to_string(), "r".to_string(), 3),
            ("unknown".to_string(), "r".to_string(), 1),
            ("unknown".to_string(), "s".to_string(), 1),
        ]
    );
    assert_eq!(sorted(snap.nodes), vec!["r".to_string(), "s".to_string(), "unknown".to_string()]);
}

#[test]
fn record_traffic_without_target_reaches_every_agent() {
    let sender = agent("s", &[], &[]);
    let mut c = controller_with(&[(sender.clone(), 1), (agent("a", &[], &[]), 1), (agent("b", &[], &[]), 1)]);
    c.record_traffic(&envelope(Some(sender), None));
    let snap = c.get_analytics_snapshot();
    assert_eq!(snap.edges.len(), 3);
    assert!(snap.edges.iter().all(|e| e.source == "s" && e.weight == 1));
}
