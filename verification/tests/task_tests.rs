use twilight_bark::adapters::{note_envelope, note_envelope_from};
use twilight_bark::frontmatter::front_matter_readable;
use twilight_bark::bus::BusAddress;
use twilight_bark::client::{
    command_line, drain_pending, read_reply, registration_from_line, route_line, subscription_from_line,
    ClientError, DaemonCommand,
};
use twilight_bark::config::{plan_daemon, DaemonConfig, DaemonSection, IdentityConfig, NodeConfig, NodeRole, ZenohConfig, ZitiConfig};
use twilight_bark::envelope::{new_task_request, unicast_to};
use twilight_bark::identity::{create_node_identity, HostInfo};
use twilight_bark::ipc::{answered_reply, disconnect, dispatch, offline_presence, IpcRequest, IpcStep};
use twilight_bark::proto::{AgentIdentity, AgentStatus, MessageKind, MessageTarget, Payload, TargetKind};
use twilight_bark::registry::TrafficController;
use twilight_bark::tasks::{is_request_to, on_traffic, TaskBook, TaskEvent};

fn register(c: &mut TrafficController, reg: &mut Option<String>, book: &mut TaskBook, name: &str, node: &str) -> String {
    let req = IpcRequest::Register { name: name.into(), role: "worker".into() };
    match dispatch(c, node, "default", req, reg, book) {
        IpcStep::Announce { reply, .. } => reply.agent_uuid.unwrap(),
        _ => panic!("registration announces presence"),
    }
}

fn request_to(from: &AgentIdentity, target: MessageTarget) -> (String, twilight_bark::proto::TwilightEnvelope) {
    new_task_request(from.clone(), target, "bark_echo", "{\"volume\":\"high\"}", Vec::new(), 30000, 10000)
}

#[test]
fn subscribing_needs_registration() {
    let mut c = TrafficController::new();
    let mut reg = None;
    let mut book = TaskBook::new();
    match dispatch(&mut c, "n", "default", IpcRequest::SubscribeTasks, &mut reg, &mut book) {
        IpcStep::Reply(r) => {
            assert!(!r.ok);
            assert_eq!(r.error.as_deref(), Some("must register before subscribing to tasks"));
        }
        _ => panic!("answered directly"),
    }
    assert!(!book.subscribed);
    register(&mut c, &mut reg, &mut book, "boxer", "lms-node");
    match dispatch(&mut c, "n", "default", IpcRequest::SubscribeTasks, &mut reg, &mut book) {
        IpcStep::Reply(r) => {
            assert!(r.ok);
            assert!(r.error.is_none());
        }
        _ => panic!("answered directly"),
    }
    assert!(book.subscribed);
}

#[test]
fn unicast_request_reaches_its_target_and_the_answer_goes_back() {
    // The daemon of lms-node serves boxer; beagle on cloud-node asks boxer.
    let mut c = TrafficController::new();
    let mut reg = None;
    let mut book = TaskBook::new();
    let boxer = register(&mut c, &mut reg, &mut book, "boxer", "lms-node");
    match dispatch(&mut c, "lms-node", "default", IpcRequest::SubscribeTasks, &mut reg, &mut book) {
        IpcStep::Reply(r) => assert!(r.ok),
        _ => panic!("answered directly"),
    }
    let beagle = create_node_identity("beagle", "scout", "cloud-node", "default");
    let (task_id, request) = request_to(&beagle, unicast_to(boxer.clone()));

    // The key beagle's node publishes under matches the tenant-wide traffic pattern of lms-node.
    let sender = BusAddress { tenant: "default".into(), node_id: "cloud-node".into() };
    let receiver = BusAddress { tenant: "default".into(), node_id: "lms-node".into() };
    assert_eq!(sender.traffic_key(&request.message_uuid), format!("twilight/default/cloud-node/traffic/{}", request.message_uuid));
    assert_eq!(receiver.tenant_traffic_pattern(), "twilight/default/*/traffic/*");

    match on_traffic(&c, &reg, &mut book, request.clone()) {
        Some(TaskEvent::Request { task_id: t, from, operation, input_json }) => {
            assert_eq!(t, task_id);
            assert_eq!(from, beagle.node_uuid);
            assert_eq!(operation, "bark_echo");
            assert_eq!(input_json, "{\"volume\":\"high\"}");
        }
        other => panic!("the request is handed over, got {:?}", other),
    }
    assert_eq!(book.pending.len(), 1);

    match dispatch(&mut c, "lms-node", "default", IpcRequest::ListTasks, &mut reg, &mut book) {
        IpcStep::Reply(r) => {
            assert!(r.ok);
            let tasks = r.tasks.expect("the pending tasks");
            assert_eq!(tasks.len(), 1);
            assert_eq!(tasks[0].task_id, task_id);
            assert_eq!(tasks[0].request_uuid, request.message_uuid);
        }
        _ => panic!("answered directly"),
    }

    let answer = IpcRequest::ReplyTask { task_id: task_id.clone(), output_json: "{\"status\":\"barked\"}".into(), success: false };
    let envelope = match dispatch(&mut c, "lms-node", "default", answer, &mut reg, &mut book) {
        IpcStep::Answer { envelope } => envelope,
        _ => panic!("the answer is sent"),
    };
    assert!(book.pending.is_empty());
    assert_eq!(envelope.kind, MessageKind::TaskResult);
    assert_eq!(envelope.correlation_uuid, task_id);
    assert_eq!(envelope.causation_uuid, request.message_uuid);
    assert_eq!(envelope.source.as_ref().map(|s| s.node_uuid.clone()), Some(boxer.clone()));
    let t = envelope.target.clone().unwrap();
    assert_eq!(t.target_kind, TargetKind::Unicast);
    assert_eq!(t.target_agent_uuids, vec![beagle.node_uuid.clone()]);
    match &envelope.payload {
        Some(Payload::TaskResult(res)) => {
            assert_eq!(res.task_id, task_id);
            assert_eq!(res.output_json, "{\"status\":\"barked\"}");
            assert!(!res.success);
        }
        _ => panic!("a result"),
    }
    assert!(answered_reply(Ok(())).ok);
    assert_eq!(answered_reply(Err("down".into())).error.as_deref(), Some("down"));

    // Beagle's own connection is handed the result.
    let mut c2 = TrafficController::new();
    let mut reg2 = None;
    let mut book2 = TaskBook::new();
    let beagle_uuid = register(&mut c2, &mut reg2, &mut book2, "beagle", "cloud-node");
    book2.subscribed = true;
    let mut routed = envelope.clone();
    routed.target = Some(unicast_to(beagle_uuid));
    match on_traffic(&c2, &reg2, &mut book2, routed) {
        Some(TaskEvent::Result { task_id: t, output_json, success, .. }) => {
            assert_eq!(t, task_id);
            assert_eq!(output_json, "{\"status\":\"barked\"}");
            assert!(!success);
        }
        other => panic!("the result is handed over, got {:?}", other),
    }

    // A second answer to the same task is refused.
    let again = IpcRequest::ReplyTask { task_id: task_id.clone(), output_json: "{}".into(), success: true };
    match dispatch(&mut c, "lms-node", "default", again, &mut reg, &mut book) {
        IpcStep::Reply(r) => assert_eq!(r.error, Some(format!("unknown task: {}", task_id))),
        _ => panic!("answered directly"),
    }
}

#[test]
fn traffic_not_for_the_client_is_ignored() {
    let mut c = TrafficController::new();
    let mut reg = None;
    let mut book = TaskBook::new();
    let me = register(&mut c, &mut reg, &mut book, "terrier", "cloud-node");
    let other = create_node_identity("husky", "scout", "lms-node", "default");
    let (_, to_other) = request_to(&other, unicast_to("someone-else".into()));
    // Not subscribed yet: nothing is handed over, even a broadcast.
    let (_, broadcast) = request_to(&other, MessageTarget::of_kind(TargetKind::Broadcast));
    assert!(on_traffic(&c, &reg, &mut book, broadcast.clone()).is_none());
    book.subscribed = true;
    assert!(on_traffic(&c, &reg, &mut book, to_other).is_none());
    assert!(on_traffic(&c, &reg, &mut book, broadcast).is_some());
    // A client's own broadcast does not come back to it.
    let mine = c.get_identity(&me).unwrap();
    let (_, own) = request_to(&mine, MessageTarget::of_kind(TargetKind::Broadcast));
    assert!(on_traffic(&c, &reg, &mut book, own).is_none());
    assert_eq!(book.pending.len(), 1);
    // Unregistered connections are handed nothing.
    let mut lone = TaskBook::new();
    lone.subscribed = true;
    let (_, b2) = request_to(&other, MessageTarget::of_kind(TargetKind::Broadcast));
    assert!(on_traffic(&c, &None, &mut lone, b2).is_none());
}

#[test]
fn workers_handle_only_requests_addressed_to_them() {
    let boxer = create_node_identity("boxer", "processor", "lms-node", "default");
    let husky = create_node_identity("husky", "scout", "lms-node", "default");
    let beagle = create_node_identity("beagle", "scout", "cloud-node", "default");
    let (_, req) = request_to(&beagle, unicast_to(boxer.node_uuid.clone()));
    assert!(is_request_to(&req, &boxer));
    assert!(!is_request_to(&req, &husky));
    assert!(!is_request_to(&req, &beagle));
    let mut by_role = MessageTarget::of_kind(TargetKind::Role);
    by_role.target_roles.push("scout".into());
    let (_, scouts) = request_to(&boxer, by_role);
    assert!(is_request_to(&scouts, &husky));
    assert!(!is_request_to(&scouts, &boxer));
}

#[test]
fn uuids_are_version_4() {
    let id = create_node_identity("a", "b", "n", "t");
    for u in [&id.agent_uuid, &id.instance_uuid, &id.node_uuid] {
        let cs: Vec<char> = u.chars().collect();
        assert_eq!(cs.len(), 36);
        assert_eq!(cs[14], '4');
        assert!(['8', '9', 'a', 'b'].contains(&cs[19]));
    }
}

#[test]
fn command_lines_are_json_with_escapes() {
    let reg = DaemonCommand::Register { name: "dog \"rex\"\n".into(), role: "a\\b\u{1}".into() };
    assert_eq!(
        command_line(&reg),
        "{\"cmd\":\"register\",\"name\":\"dog \\\"rex\\\"\\n\",\"role\":\"a\\\\b\\u0001\"}\n"
    );
    assert_eq!(command_line(&DaemonCommand::SubscribeTasks), "{\"cmd\":\"subscribe_tasks\"}\n");
    assert_eq!(command_line(&DaemonCommand::GetRegistry), "{\"cmd\":\"get_registry\"}\n");
    assert_eq!(
        command_line(&DaemonCommand::PublishTask { operation: "op".into(), input_json: "{}".into() }),
        "{\"cmd\":\"publish_task\",\"input_json\":\"{}\",\"operation\":\"op\"}\n"
    );
    assert_eq!(
        command_line(&DaemonCommand::AskAgent { agent_uuid: "u".into(), operation: "op".into(), input_json: "\t".into() }),
        "{\"agent_uuid\":\"u\",\"cmd\":\"ask_agent\",\"input_json\":\"\\t\",\"operation\":\"op\"}\n"
    );
    assert_eq!(
        command_line(&DaemonCommand::ReplyTask { task_id: "t".into(), output_json: "é".into(), success: true }),
        "{\"cmd\":\"reply_task\",\"output_json\":\"é\",\"success\":true,\"task_id\":\"t\"}\n"
    );
}

#[test]
fn daemon_lines_are_read() {
    assert_eq!(registration_from_line("{\"ok\":true,\"agent_uuid\":\"u-1\"}\n").unwrap(), "u-1");
    assert!(matches!(registration_from_line("{\"ok\":false,\"error\":\"no\"}"), Err(ClientError::RegistrationRejected)));
    assert!(matches!(registration_from_line("not json"), Err(ClientError::InvalidJson)));
    assert!(subscription_from_line("  {\"ok\":true}\n").is_ok());
    assert!(matches!(subscription_from_line("{\"ok\":false,\"error\":\"x\"}"), Err(ClientError::SubscribeRejected)));
    assert!(matches!(subscription_from_line("{"), Err(ClientError::InvalidJson)));
    let ev = read_reply("{\"event\":\"task_request\",\"task_id\":\"t\"}").unwrap();
    assert!(ev.is_event);
    assert_eq!(ev.task_id.as_deref(), Some("t"));
    let plain = read_reply("[1,2]").unwrap();
    assert!(plain.ok.is_none() && plain.agent_uuid.is_none() && !plain.is_event);
}

#[test]
fn note_front_matter_needs_a_closed_non_blank_block() {
    let id = create_node_identity("obsidian-adapter", "adapter", "n", "t");
    let data = |content: &str| match note_envelope(&id, "n.md", content).expect("a readable note").payload {
        Some(Payload::Observation(o)) => o.data_json,
        _ => panic!("an observation"),
    };
    assert_ne!(data("---\ntitle: Home\n---\nOther stuff"), "{}");
    assert_ne!(data("---  \r\ntitle: Home\n---\t\nx"), "{}");
    assert_eq!(data("---\n   \n---\nbody"), "{}");
    assert_eq!(data("---\ntitle: Home\nno closing"), "{}");
    assert_eq!(data("--- title\ntitle: Home\n---"), "{}");
    assert_eq!(data("---"), "{}");
}

#[test]
fn hub_plan_listens_on_configured_or_default_endpoints() {
    let host = HostInfo { hostname: Some("box".into()), user: Some("alice".into()), username: None, home: None, xdg_runtime_dir: None };
    let mut cfg = DaemonConfig {
        node: NodeConfig { name: "h".into(), role: NodeRole::Hub },
        identity: IdentityConfig { file: "/id.json".into() },
        ziti: ZitiConfig {
            enabled: false,
            controller_url: String::new(),
            service: String::new(),
            local_port: 1,
            binary: "ziti".into(),
        },
        zenoh: ZenohConfig { tenant: "t".into(), peers: Vec::new(), listen: Vec::new() },
        daemon: DaemonSection { socket: "/run/d.sock".into(), log_level: "info".into() },
    };
    assert_eq!(plan_daemon(&cfg, &host).zenoh.endpoints, vec!["tcp/0.0.0.0:7447".to_string()]);
    cfg.zenoh.listen = vec!["tcp/0.0.0.0:9000".into()];
    assert_eq!(plan_daemon(&cfg, &host).zenoh.endpoints, vec!["tcp/0.0.0.0:9000".to_string()]);
}

#[test]
fn closing_connection_announces_offline_before_forgetting() {
    let mut c = TrafficController::new();
    let mut reg = None;
    let mut book = TaskBook::new();
    assert!(offline_presence(&c, &reg).is_none());
    let uuid = register(&mut c, &mut reg, &mut book, "husky", "lms-node");
    let p = offline_presence(&c, &reg).expect("a known client goes offline");
    assert_eq!(p.status, AgentStatus::Offline);
    assert_eq!(p.identity.map(|i| i.node_uuid), Some(uuid.clone()));
    assert!(c.get_identity(&uuid).is_some());
    let _ = disconnect(&mut c, reg.clone());
    assert!(c.get_identity(&uuid).is_none());
    assert!(offline_presence(&c, &reg).is_none());
}

#[test]
fn deep_or_aliased_front_matter_is_not_read() {
    let long = format!("---\ntitle: {}\n---\nbody", "x".repeat(600));
    assert!(!front_matter_readable(&long));
    let alias = "---\na: &x [1]\nb: *x\n---\nbody";
    assert!(!front_matter_readable(alias));
    // What follows the block, and notes that open none, are not read as YAML.
    let body = format!("---\ntitle: a\n---\n{} *emphasis*", "y".repeat(2000));
    assert!(front_matter_readable(&body));
    assert!(front_matter_readable(&format!("# {}\n*x*", "z".repeat(2000))));
    // An unclosed block runs to the end of the note.
    assert!(!front_matter_readable("---\ntitle: a\n*b*"));
    let id = create_node_identity("obsidian-adapter", "adapter", "n", "t");
    assert!(note_envelope(&id, "a.md", alias).is_none());
    assert!(note_envelope(&id, "b.md", &body).is_some());
}

#[test]
fn note_report_carries_the_front_matter_given() {
    let id = create_node_identity("obsidian-adapter", "adapter", "n", "t");
    let e = note_envelope_from(&id, "home.md", Some("{\"title\": String(\"Home\")}".into()));
    assert_eq!(e.tags, vec!["obsidian".to_string(), "home.md".to_string()]);
    assert_eq!(e.priority, 2);
    match e.payload {
        Some(Payload::Observation(o)) => {
            assert_eq!(o.event_type, "obsidian_note");
            assert_eq!(o.source_id, id.node_uuid);
            assert_eq!(o.data_json, "{\"title\": String(\"Home\")}");
        }
        _ => panic!("an observation"),
    }
    match note_envelope_from(&id, "x.md", None).payload {
        Some(Payload::Observation(o)) => assert_eq!(o.data_json, "{}"),
        _ => panic!("an observation"),
    }
}

#[test]
fn pending_events_come_back_in_arrival_order() {
    let mut queue: Vec<String> = Vec::new();
    let lines = [
        "{\"event\":\"task_request\",\"task_id\":\"a\"}\n",
        "{\"ok\":true,\"task_id\":\"t\"}\n",
        "garbage\n",
        "{\"event\":\"task_result\",\"task_id\":\"b\"}\n",
    ];
    let mut answers = Vec::new();
    for l in lines {
        if let Some(a) = route_line(&mut queue, l.to_string()) {
            answers.push(a);
        }
    }
    assert_eq!(answers, vec![lines[1].to_string()]);
    assert_eq!(drain_pending(&mut queue), vec![lines[0].to_string(), lines[3].to_string()]);
    assert!(drain_pending(&mut queue).is_empty());
}
