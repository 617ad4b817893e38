use twilight_bark::bus::{new_heartbeat, BusAddress};
use twilight_bark::client::{
    check_replied, check_subscribed, drain_pending, extract_task_id, registration_uuid,
    routes_to_task_queue, ClientError, DaemonReply,
};
use twilight_bark::envelope::{
    inject_target, is_request_for, is_result_for, new_task_request, new_task_result, reply_target, result_output,
    unicast_to,
};
use twilight_bark::identity::{identity_from_parts, presence_at};
use twilight_bark::ipc::{disconnect, dispatch, parse_error_reply, sent_reply, IpcRequest, IpcResponse, IpcStep};
use twilight_bark::proto::{AgentStatus, MessageKind, Payload, TargetKind};
use twilight_bark::registry::TrafficController;
use twilight_bark::tasks::TaskBook;

fn is_uuid(s: &str) -> bool {
    s.len() == 36
        && s.chars().enumerate().all(|(i, c)| {
            if [8, 13, 18, 23].contains(&i) { c == '-' } else { c.is_ascii_hexdigit() && !c.is_ascii_uppercase() }
        })
}

fn reply(ok: Option<bool>, agent: Option<&str>, task: Option<&str>, err: Option<&str>, event: bool) -> DaemonReply {
    DaemonReply {
        ok,
        agent_uuid: agent.map(|s| s.to_string()),
        task_id: task.map(|s| s.to_string()),
        error: err.map(|s| s.to_string()),
        is_event: event,
    }
}

fn addr() -> BusAddress {
    BusAddress { tenant: "arkham".to_string(), node_id: "box-alice".to_string() }
}

#[test]
fn bus_keys_follow_the_topic_scheme() {
    let a = addr();
    assert_eq!(a.traffic_key("m-1"), "twilight/arkham/box-alice/traffic/m-1");
    assert_eq!(a.signal_key("presence"), "twilight/arkham/box-alice/signal/presence");
    let hb = new_heartbeat("n-7".to_string());
    assert_eq!(a.heartbeat_key(&hb), "twilight/arkham/box-alice/heartbeat/n-7");
    assert_eq!(a.local_presence_pattern(), "twilight/arkham/box-alice/presence/*");
    assert_eq!(a.local_traffic_pattern(), "twilight/arkham/box-alice/traffic/*");
    assert_eq!(a.local_heartbeat_pattern(), "twilight/arkham/box-alice/heartbeat/*");
    assert_eq!(a.tenant_presence_pattern(), "twilight/arkham/*/presence/*");
    assert_eq!(a.tenant_heartbeat_pattern(), "twilight/arkham/*/heartbeat/*");
}

#[test]
fn presence_key_uses_node_uuid_or_unknown() {
    let a = addr();
    let id = identity_from_parts("x", "r", "n", "t", "a".into(), "i".into(), "node-9".into());
    let p = presence_at(id, AgentStatus::Online, 5);
    assert_eq!(a.presence_key(&p), "twilight/arkham/box-alice/presence/node-9");
    let mut anon = p.clone();
    anon.identity = None;
    assert_eq!(a.presence_key(&anon), "twilight/arkham/box-alice/presence/unknown");
}

#[test]
fn heartbeat_is_online_and_idle() {
    let hb = new_heartbeat("n".to_string());
    assert_eq!(hb.status, AgentStatus::Online);
    assert_eq!((hb.active_tasks, hb.queued_tasks), (0, 0));
    assert!(hb.timestamp_unix_ms > 0);
}

#[test]
fn task_request_envelope_fields() {
    let src = identity_from_parts("obs", "scout", "n", "t", "a".into(), "i".into(), "src-node".into());
    let (task_id, env) = new_task_request(
        src.clone(),
        unicast_to("w".to_string()),
        "analyze_vault",
        "{\"vault\": \"main\"}",
        vec!["scenario-task".to_string()],
        30000,
        10000,
    );
    assert!(is_uuid(&task_id));
    assert!(is_uuid(&env.message_uuid));
    assert_ne!(task_id, env.message_uuid);
    assert_eq!(env.correlation_uuid, task_id);
    assert_eq!(env.causation_uuid, "");
    assert_eq!(env.kind, MessageKind::TaskRequest);
    assert_eq!(env.priority, 2);
    assert_eq!(env.source, Some(src));
    assert!(env.expires_unix_ms >= env.created_unix_ms + 30000);
    assert!(env.expires_unix_ms < env.created_unix_ms + 30000 + 60_000);
    match env.payload {
        Some(Payload::TaskRequest(r)) => {
            assert_eq!(r.task_id, task_id);
            assert_eq!(r.operation, "analyze_vault");
            assert_eq!(r.input_json, "{\"vault\": \"main\"}");
            assert_eq!(r.timeout_ms, 10000);
        }
        other => panic!("unexpected payload {other:?}"),
    }
}

#[test]
fn task_result_answers_the_request_sender() {
    let src = identity_from_parts("obs", "scout", "n", "t", "a".into(), "i".into(), "src-node".into());
    let (task_id, req) = new_task_request(src, inject_target(None), "op", "{}", Vec::new(), 30000, 30000);
    let target = reply_target(&req);
    assert_eq!(target.as_ref().map(|t| t.target_kind), Some(TargetKind::Unicast));
    assert_eq!(target.as_ref().unwrap().target_agent_uuids, vec!["src-node".to_string()]);
    let res = new_task_result(&req.message_uuid, &task_id, None, target, "{\"pong\":true}", Vec::new(), 30000);
    assert_eq!(res.correlation_uuid, task_id);
    assert_eq!(res.causation_uuid, req.message_uuid);
    assert_eq!(res.kind, MessageKind::TaskResult);
    match res.payload {
        Some(Payload::TaskResult(r)) => {
            assert!(r.success);
            assert_eq!(r.output_json, "{\"pong\":true}");
            assert_eq!(r.error_message, "");
        }
        other => panic!("unexpected payload {other:?}"),
    }
    let mut anon = req.clone();
    anon.source = None;
    assert!(reply_target(&anon).is_none());
}

#[test]
fn inject_target_is_unicast_or_broadcast() {
    let t = inject_target(Some("u1".to_string()));
    assert_eq!(t.target_kind, TargetKind::Unicast);
    assert_eq!(t.target_agent_uuids, vec!["u1".to_string()]);
    let b = inject_target(None);
    assert_eq!(b.target_kind, TargetKind::Broadcast);
    assert!(b.target_agent_uuids.is_empty());
}

#[test]
fn ping_answers_ok() {
    let mut c = TrafficController::new();
    let mut reg = None;
    let mut book = TaskBook::new();
    match dispatch(&mut c, "node", "tenant", IpcRequest::Ping, &mut reg, &mut book) {
        IpcStep::Reply(r) => {
            assert!(r.ok);
            assert!(r.error.is_none() && r.task_id.is_none() && r.agent_uuid.is_none());
        }
        _ => panic!("ping must be answered directly"),
    }
    assert!(reg.is_none());
}

#[test]
fn tasks_before_registration_are_refused() {
    let mut c = TrafficController::new();
    let mut reg = None;
    let mut book = TaskBook::new();
    let req = IpcRequest::PublishTask { operation: "op".into(), input_json: "{}".into() };
    match dispatch(&mut c, "node", "tenant", req, &mut reg, &mut book) {
        IpcStep::Reply(r) => {
            assert!(!r.ok);
            assert_eq!(r.error.as_deref(), Some("must register before publishing tasks"));
        }
        _ => panic!("expected a refusal"),
    }
    let ask = IpcRequest::AskAgent { agent_uuid: "x".into(), operation: "op".into(), input_json: "{}".into() };
    match dispatch(&mut c, "node", "tenant", ask, &mut reg, &mut book) {
        IpcStep::Reply(r) => assert_eq!(r.error.as_deref(), Some("must register before sending tasks")),
        _ => panic!("expected a refusal"),
    }
}

#[test]
fn register_then_publish_then_disconnect() {
    let mut c = TrafficController::new();
    let mut reg = None;
    let mut book = TaskBook::new();
    let req = IpcRequest::Register { name: "beagle".into(), role: "worker".into() };
    let uuid = match dispatch(&mut c, "box-alice", "arkham", req, &mut reg, &mut book) {
        IpcStep::Announce { presence, reply } => {
            let id = presence.identity.clone().unwrap();
            assert_eq!(presence.status, AgentStatus::Online);
            assert_eq!(presence.ttl_ms, 30000);
            assert_eq!(id.agent_name, "beagle");
            assert_eq!(id.roles, vec!["worker".to_string()]);
            assert_eq!(id.node_id, "box-alice");
            assert_eq!(id.tenant, "arkham");
            assert!(reply.ok);
            assert_eq!(reply.agent_uuid.as_deref(), Some(id.node_uuid.as_str()));
            id.node_uuid
        }
        _ => panic!("registration must announce presence"),
    };
    assert_eq!(reg.as_deref(), Some(uuid.as_str()));
    assert_eq!(c.get_identity(&uuid).map(|i| i.agent_name), Some("beagle".to_string()));

    match dispatch(&mut c, "box-alice", "arkham", IpcRequest::GetRegistry, &mut reg, &mut book) {
        IpcStep::Reply(r) => assert_eq!(r.agents.map(|a| a.len()), Some(1)),
        _ => panic!("registry is answered directly"),
    }

    let publish = IpcRequest::PublishTask { operation: "chat".into(), input_json: "{\"msg\":1}".into() };
    match dispatch(&mut c, "box-alice", "arkham", publish, &mut reg, &mut book) {
        IpcStep::Send { task_id, envelope } => {
            assert!(is_uuid(&task_id));
            assert_eq!(envelope.correlation_uuid, task_id);
            assert_eq!(envelope.source.as_ref().map(|s| s.node_uuid.clone()), Some(uuid.clone()));
            assert_eq!(envelope.target.as_ref().map(|t| t.target_kind), Some(TargetKind::Broadcast));
            assert!(envelope.tags.is_empty());
        }
        _ => panic!("a registered client's task is sent"),
    }
    let ask = IpcRequest::AskAgent { agent_uuid: "peer".into(), operation: "chat".into(), input_json: "{}".into() };
    match dispatch(&mut c, "box-alice", "arkham", ask, &mut reg, &mut book) {
        IpcStep::Send { envelope, .. } => {
            let t = envelope.target.unwrap();
            assert_eq!(t.target_kind, TargetKind::Unicast);
            assert_eq!(t.target_agent_uuids, vec!["peer".to_string()]);
        }
        _ => panic!("a registered client's task is sent"),
    }

    let offline = disconnect(&mut c, reg.clone()).expect("offline presence");
    assert_eq!(offline.status, AgentStatus::Offline);
    assert_eq!(offline.identity.map(|i| i.node_uuid), Some(uuid.clone()));
    assert_eq!(c.get_identity(&uuid), None);
    assert!(disconnect(&mut c, None).is_none());
    assert!(disconnect(&mut c, Some(uuid)).is_none());
}

#[test]
fn forgotten_sender_tasks_go_out_as_unknown() {
    let mut c = TrafficController::new();
    let mut reg = Some("gone".to_string());
    let mut book = TaskBook::new();
    let req = IpcRequest::PublishTask { operation: "op".into(), input_json: "{}".into() };
    match dispatch(&mut c, "n", "t", req, &mut reg, &mut book) {
        IpcStep::Send { envelope, .. } => {
            let s = envelope.source.unwrap();
            assert_eq!(s.agent_name, "unknown");
            assert_eq!(s.role, "unknown");
            assert!(is_uuid(&s.node_uuid));
        }
        _ => panic!("task is sent"),
    }
}

#[test]
fn responses_after_sending_and_on_bad_lines() {
    let ok = sent_reply(Ok("t-1".to_string()));
    assert!(ok.ok);
    assert_eq!(ok.task_id.as_deref(), Some("t-1"));
    let err = sent_reply(Err("bus down".to_string()));
    assert!(!err.ok);
    assert_eq!(err.error.as_deref(), Some("bus down"));
    let bad = parse_error_reply("expected value at line 1");
    assert_eq!(bad.error.as_deref(), Some("parse error: expected value at line 1"));
    let e = IpcResponse::err("x".to_string());
    assert!(!e.ok && e.agents.is_none());
}

#[test]
fn client_reads_registration_and_acks() {
    assert_eq!(registration_uuid(&reply(Some(true), Some("u"), None, None, false)).unwrap(), "u");
    assert!(matches!(
        registration_uuid(&reply(Some(false), None, None, Some("no"), false)),
        Err(ClientError::RegistrationRejected)
    ));
    assert!(check_subscribed(&reply(Some(true), None, None, None, false)).is_ok());
    assert!(matches!(check_subscribed(&reply(None, None, None, None, false)), Err(ClientError::SubscribeRejected)));
    assert!(check_replied(&reply(Some(true), None, None, None, false)).is_ok());
    assert!(matches!(check_replied(&reply(Some(false), None, None, None, false)), Err(ClientError::ReplyRejected)));
}

#[test]
fn client_extracts_task_id_error_first() {
    assert_eq!(extract_task_id(&reply(Some(true), None, Some("t"), None, false)).unwrap(), "t");
    match extract_task_id(&reply(Some(false), None, Some("t"), Some("boom"), false)) {
        Err(ClientError::Daemon(m)) => assert_eq!(m, "boom"),
        other => panic!("unexpected {other:?}"),
    }
    assert!(matches!(extract_task_id(&reply(Some(true), None, None, None, false)), Err(ClientError::MissingTaskId)));
}

#[test]
fn client_routes_events_and_drains_queue() {
    assert!(routes_to_task_queue(&reply(None, None, None, None, true)));
    assert!(!routes_to_task_queue(&reply(Some(true), None, None, None, false)));
    let mut q = vec![1, 2, 3];
    assert_eq!(drain_pending(&mut q), vec![1, 2, 3]);
    assert!(q.is_empty());
    assert!(drain_pending(&mut q).is_empty());
}

#[test]
fn scenario_matching_of_requests_and_results() {
    let src = identity_from_parts("s", "cli", "n", "t", "a".into(), "i".into(), "src".into());
    let (task_id, req) = new_task_request(src, inject_target(None), "smoke-test", "{}", Vec::new(), 30000, 30000);
    assert!(is_request_for(&req, &task_id));
    assert!(!is_request_for(&req, "other"));
    assert!(!is_result_for(&req, &task_id));
    let res = new_task_result(&req.message_uuid, &task_id, None, None, "{\"pong\":true}", Vec::new(), 30000);
    assert!(is_result_for(&res, &task_id));
    assert!(!is_result_for(&res, "other"));
    assert!(!is_request_for(&res, &task_id));
    assert_eq!(result_output(&res, &task_id).as_deref(), Some("{\"pong\":true}"));
    assert_eq!(result_output(&res, "other"), None);
    assert_eq!(result_output(&req, &task_id), None);
}
