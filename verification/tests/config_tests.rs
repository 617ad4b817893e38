use twilight_bark::config::{
    build_zenoh_config, default_log_level, default_ziti_binary, expand_path, pid_path_for, plan_daemon,
    DaemonConfig, DaemonSection, IdentityConfig, NodeConfig, NodeRole, ZenohConfig, ZenohMode, ZitiConfig,
};
use twilight_bark::identity::{auto_node_id, default_socket_path, HostInfo};

fn host() -> HostInfo {
    HostInfo {
        hostname: Some("  box\n".to_string()),
        user: Some("alice".to_string()),
        username: Some("ALICE".to_string()),
        home: Some("/home/alice".to_string()),
        xdg_runtime_dir: None,
    }
}

fn config(name: &str, role: NodeRole, socket: &str, binary: &str) -> DaemonConfig {
    DaemonConfig {
        node: NodeConfig { name: name.to_string(), role },
        identity: IdentityConfig { file: "~/.config/twilight/identity.json".to_string() },
        ziti: ZitiConfig {
            enabled: true,
            controller_url: "https://ziti.example:1280".to_string(),
            service: "bark-bus-service".to_string(),
            local_port: 7447,
            binary: binary.to_string(),
        },
        zenoh: ZenohConfig { tenant: "arkham".to_string(), peers: vec!["tcp/127.0.0.1:7447".to_string()], listen: Vec::new() },
        daemon: DaemonSection { socket: socket.to_string(), log_level: "debug".to_string() },
    }
}

#[test]
fn defaults_of_the_configuration() {
    assert_eq!(default_ziti_binary(), "ziti");
    assert_eq!(default_log_level(), "info");
    let z = ZenohConfig::default();
    assert!(z.tenant.is_empty() && z.peers.is_empty() && z.listen.is_empty());
}

#[test]
fn node_id_is_hostname_dash_user() {
    assert_eq!(auto_node_id(&host()), "box-alice");
    let mut h = host();
    h.user = None;
    assert_eq!(auto_node_id(&h), "box-ALICE");
    h.username = None;
    h.hostname = None;
    assert_eq!(auto_node_id(&h), "unknown-user");
    h.hostname = Some(" \t ".to_string());
    assert_eq!(auto_node_id(&h), "-user");
}

#[test]
fn default_socket_prefers_runtime_dir() {
    assert_eq!(default_socket_path(&host()), "/tmp/twilight-alice-daemon.sock");
    let mut h = host();
    h.user = None;
    assert_eq!(default_socket_path(&h), "/tmp/twilight-user-daemon.sock");
    h.xdg_runtime_dir = Some("/run/user/1000".to_string());
    assert_eq!(default_socket_path(&h), "/run/user/1000/twilight-daemon.sock");
}

#[test]
fn tilde_paths_expand_to_home() {
    let home = Some("/home/alice".to_string());
    assert_eq!(expand_path("~/x/y.json", &home), "/home/alice/x/y.json");
    assert_eq!(expand_path("/etc/x", &home), "/etc/x");
    assert_eq!(expand_path("~x", &home), "~x");
    assert_eq!(expand_path("~/x", &None), "~/x");
    assert_eq!(expand_path("~//abs", &home), "/abs");
}

#[test]
fn completed_configuration_fills_and_expands() {
    let c = config("", NodeRole::Client, "", "  /opt/ziti \n").completed(&host());
    assert_eq!(c.node.name, "box-alice");
    assert_eq!(c.node_id(), "box-alice");
    assert_eq!(c.identity.file, "/home/alice/.config/twilight/identity.json");
    assert_eq!(c.daemon.socket, "/tmp/twilight-alice-daemon.sock");
    assert_eq!(c.daemon.log_level, "debug");
    assert_eq!(c.ziti.binary, "/opt/ziti");
    assert_eq!(c.zenoh.tenant, "arkham");

    let kept = config("named", NodeRole::Hub, "~/run/d.sock", "   ").completed(&host());
    assert_eq!(kept.node.name, "named");
    assert_eq!(kept.daemon.socket, "/home/alice/run/d.sock");
    assert_eq!(kept.ziti.binary, "ziti");
}

#[test]
fn resolved_socket_uses_configured_path() {
    let d = DaemonSection { socket: "/var/run/t.sock".to_string(), log_level: "info".to_string() };
    assert_eq!(d.resolved_socket(&host()), "/var/run/t.sock");
    let e = DaemonSection { socket: String::new(), log_level: "info".to_string() };
    assert_eq!(e.resolved_socket(&host()), "/tmp/twilight-alice-daemon.sock");
}

#[test]
fn zenoh_session_by_role() {
    let hub = build_zenoh_config(&config("h", NodeRole::Hub, "", "ziti"));
    assert_eq!(hub.mode, ZenohMode::Router);
    assert_eq!(hub.endpoints, vec!["tcp/0.0.0.0:7447".to_string()]);
    let mut custom = config("h", NodeRole::Hub, "", "ziti");
    custom.zenoh.listen = vec!["tcp/10.0.0.1:9000".to_string()];
    assert_eq!(build_zenoh_config(&custom).endpoints, vec!["tcp/10.0.0.1:9000".to_string()]);
    let client = build_zenoh_config(&config("c", NodeRole::Client, "", "ziti"));
    assert_eq!(client.mode, ZenohMode::Client);
    assert_eq!(client.endpoints, vec!["tcp/127.0.0.1:7447".to_string()]);
}

#[test]
fn daemon_plan_for_client_and_hub() {
    let h = host();
    let plan = plan_daemon(&config("c", NodeRole::Client, "/run/t/daemon.sock", "ziti").completed(&h), &h);
    assert_eq!(plan.node_id, "c");
    assert_eq!(plan.tenant, "arkham");
    assert_eq!(plan.socket_path, "/run/t/daemon.sock");
    assert_eq!(plan.pid_path, "/run/t/daemon.pid");
    let t = plan.ziti_tunnel.expect("client nodes run the tunnel");
    assert_eq!(t.local_port, 7447);
    assert_eq!(t.identity_file, "/home/alice/.config/twilight/identity.json");
    assert_eq!((plan.cleanup_interval_ms, plan.stale_timeout_secs, plan.heartbeat_interval_secs), (5000, 30, 10));
    assert_eq!(plan.tunnel_ready_timeout_secs, 15);

    let hub = plan_daemon(&config("h", NodeRole::Hub, "", "ziti"), &h);
    assert!(hub.ziti_tunnel.is_none());
    assert_eq!(hub.pid_path, "/tmp/twilight-alice-daemon.pid");
    let mut off = config("c", NodeRole::Client, "", "ziti");
    off.ziti.enabled = false;
    assert!(plan_daemon(&off, &h).ziti_tunnel.is_none());
}

#[test]
fn pid_file_sits_next_to_socket() {
    assert_eq!(pid_path_for("/tmp/twilight-alice-daemon.sock"), "/tmp/twilight-alice-daemon.pid");
    assert_eq!(pid_path_for("/run/sock"), "/run/sock.pid");
}
