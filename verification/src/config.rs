//! The daemon's configuration (`daemon.toml`) once decoded, how it is completed from the
//! host, and the plan of a daemon start that follows from it.
use vstd::prelude::*;
use vstd::string::StrSliceExecFns;
use vstd::string::StringExecFns;

use crate::identity::{HostInfo, auto_node_id, default_socket_path, node_id_of, socket_path_of};
use crate::paths::{joined_path, path_join, path_with_extension, with_extension};
use crate::strings::{has_prefix, starts_with, trim, trimmed};
use crate::ziti::ZitiTunnel;

verus! {

/// Whether a node routes for others or connects to a hub.
#[derive(Clone, Copy, Debug, PartialEq, Eq, Structural)]
pub enum NodeRole {
    Hub,
    Client,
}

/// `[node]`
#[derive(Clone, Debug)]
pub struct NodeConfig {
    /// Fabric-wide node identifier; filled with `"{hostname}-{username}"` when empty.
    pub name: String,
    pub role: NodeRole,
}

/// `[identity]`
#[derive(Clone, Debug)]
pub struct IdentityConfig {
    pub file: String,
}

/// `[ziti]`
#[derive(Clone, Debug)]
pub struct ZitiConfig {
    pub enabled: bool,
    pub controller_url: String,
    pub service: String,
    pub local_port: u16,
    pub binary: String,
}

/// The Ziti binary used when the configuration names none.
pub fn default_ziti_binary() -> (r: String)
    ensures
        r@ == "ziti"@,
{
    String::from_str("ziti")
}

/// `[zenoh]`
#[derive(Clone, Debug)]
pub struct ZenohConfig {
    pub tenant: String,
    pub peers: Vec<String>,
    pub listen: Vec<String>,
}

impl Default for ZenohConfig {
    fn default() -> (r: ZenohConfig)
        ensures
            r.tenant@ == Seq::<char>::empty(),
            r.peers@.len() == 0,
            r.listen@.len() == 0,
    {
        ZenohConfig { tenant: String::new(), peers: Vec::new(), listen: Vec::new() }
    }
}

/// `[daemon]`
#[derive(Clone, Debug)]
pub struct DaemonSection {
    /// Unix socket path; empty means the host's default.
    pub socket: String,
    pub log_level: String,
}

/// The log level used when the configuration names none.
pub fn default_log_level() -> (r: String)
    ensures
        r@ == "info"@,
{
    String::from_str("info")
}

/// The socket a daemon section resolves to on `host`.
pub open spec fn resolved_socket_of(socket: Seq<char>, host: HostInfo) -> Seq<char> {
    if socket.len() == 0 {
        socket_path_of(host)
    } else {
        socket
    }
}

impl DaemonSection {
    /// The configured socket, or the host's default socket when none is configured.
    pub fn resolved_socket(&self, host: &HostInfo) -> (r: String)
        ensures
            r@ == resolved_socket_of(self.socket@, *host),
    {
        if self.socket.as_str().unicode_len() == 0 {
            default_socket_path(host)
        } else {
            self.socket.clone()
        }
    }
}

/// The whole configuration.
#[derive(Clone, Debug)]
pub struct DaemonConfig {
    pub node: NodeConfig,
    pub identity: IdentityConfig,
    pub ziti: ZitiConfig,
    pub zenoh: ZenohConfig,
    pub daemon: DaemonSection,
}

/// `path` with a leading `~/` replaced by the home directory, when there is one.
pub open spec fn expanded(path: Seq<char>, home: Option<Seq<char>>) -> Seq<char> {
    if has_prefix(path, "~/"@) && home is Some {
        joined_path(home->0, path.subrange(2, path.len() as int))
    } else {
        path
    }
}

/// Expands a leading `~/` to the home directory `home` (`$HOME`).
pub fn expand_path(path: &str, home: &Option<String>) -> (r: String)
    ensures
        r@ == expanded(path@, match home {
            Some(h) => Some(h@),
            None => None,
        }),
{
    proof {
        reveal_strlit("~/");
    }
    if starts_with(path, "~/") {
        match home {
            Some(h) => {
                let rest = path.substring_char(2, path.unicode_len());
                return path_join(h.as_str(), rest);
            },
            None => {},
        }
    }
    String::from_str(path)
}

/// The Ziti binary a configuration ends up with: the configured one trimmed, or
/// `"ziti"` when that leaves nothing.
pub open spec fn settled_binary(binary: Seq<char>) -> Seq<char> {
    if trimmed(binary).len() == 0 {
        "ziti"@
    } else {
        trimmed(binary)
    }
}

impl DaemonConfig {
    /// Completes a decoded configuration from the host, as loading it does: an empty node
    /// name becomes the host's node identifier, the identity file and the resolved socket
    /// get their `~/` expanded, and the Ziti binary is trimmed and defaults to `"ziti"`.
    /// Everything else is kept.
    pub fn completed(self, host: &HostInfo) -> (r: DaemonConfig)
        ensures
            r.node.name@ == if self.node.name@.len() == 0 {
                node_id_of(*host)
            } else {
                self.node.name@
            },
            r.node.role == self.node.role,
            r.identity.file@ == expanded(self.identity.file@, match host.home {
                Some(h) => Some(h@),
                None => None,
            }),
            r.daemon.socket@ == expanded(resolved_socket_of(self.daemon.socket@, *host), match host.home {
                Some(h) => Some(h@),
                None => None,
            }),
            r.daemon.log_level == self.daemon.log_level,
            r.ziti.binary@ == settled_binary(self.ziti.binary@),
            r.ziti.enabled == self.ziti.enabled,
            r.ziti.controller_url == self.ziti.controller_url,
            r.ziti.service == self.ziti.service,
            r.ziti.local_port == self.ziti.local_port,
            r.zenoh.tenant == self.zenoh.tenant,
            r.zenoh.peers == self.zenoh.peers,
            r.zenoh.listen == self.zenoh.listen,
    {
        let mut config = self;
        if config.node.name.as_str().unicode_len() == 0 {
            config.node.name = auto_node_id(host);
        }
        config.identity.file = expand_path(config.identity.file.as_str(), &host.home);
        let resolved = config.daemon.resolved_socket(host);
        config.daemon.socket = expand_path(resolved.as_str(), &host.home);
        let binary = trim(config.ziti.binary.as_str());
        if binary.as_str().unicode_len() == 0 {
            config.ziti.binary = default_ziti_binary();
        } else {
            config.ziti.binary = binary;
        }
        config
    }

    /// The node identifier.
    pub fn node_id(&self) -> (r: &str)
        ensures
            r@ == self.node.name@,
    {
        self.node.name.as_str()
    }
}

/// How a node's bus session runs.
#[derive(Clone, Copy, Debug, PartialEq, Eq, Structural)]
pub enum ZenohMode {
    /// Listens for others on the endpoints.
    Router,
    /// Connects to the endpoints.
    Client,
}

/// The bus session of a node: its mode and the endpoints it listens on (router) or
/// connects to (client).
#[derive(Clone, Debug)]
pub struct ZenohSessionConfig {
    pub mode: ZenohMode,
    pub endpoints: Vec<String>,
}

/// Where a hub listens when its configuration names no endpoint.
pub open spec fn default_listen_endpoint() -> Seq<char> {
    "tcp/0.0.0.0:7447"@
}

/// The session of a configuration: a hub routes, listening on its configured endpoints
/// or on `tcp/0.0.0.0:7447`; a client connects to its peers.
pub fn build_zenoh_config(config: &DaemonConfig) -> (r: ZenohSessionConfig)
    ensures
        config.node.role == NodeRole::Hub ==> r.mode == ZenohMode::Router && r.endpoints.deep_view()
            == if config.zenoh.listen@.len() == 0 {
            seq![default_listen_endpoint()]
        } else {
            config.zenoh.listen.deep_view()
        },
        config.node.role == NodeRole::Client ==> r.mode == ZenohMode::Client
            && r.endpoints.deep_view() == config.zenoh.peers.deep_view(),
{
    match config.node.role {
        NodeRole::Hub => {
            let endpoints = if config.zenoh.listen.len() == 0 {
                let mut v: Vec<String> = Vec::new();
                v.push(String::from_str("tcp/0.0.0.0:7447"));
                assert(v.deep_view() =~= seq![default_listen_endpoint()]);
                v
            } else {
                crate::proto::clone_strings(&config.zenoh.listen)
            };
            ZenohSessionConfig { mode: ZenohMode::Router, endpoints }
        },
        NodeRole::Client => ZenohSessionConfig {
            mode: ZenohMode::Client,
            endpoints: crate::proto::clone_strings(&config.zenoh.peers),
        },
    }
}

/// What a daemon start does, decided from its configuration: its node and tenant, its
/// socket and PID file, the Ziti sidecar it runs (client nodes with Ziti enabled only),
/// its bus session, and the periods of its background work.
#[derive(Clone, Debug)]
pub struct DaemonPlan {
    pub node_id: String,
    pub tenant: String,
    pub socket_path: String,
    pub pid_path: String,
    pub ziti_tunnel: Option<ZitiTunnel>,
    pub zenoh: ZenohSessionConfig,
    /// How long the sidecar's port may take to open.
    pub tunnel_ready_timeout_secs: u64,
    /// How often stale agents are swept out.
    pub cleanup_interval_ms: u64,
    /// How long an agent may stay silent before it is stale.
    pub stale_timeout_secs: i64,
    /// How often the daemon's own heartbeat goes out.
    pub heartbeat_interval_secs: u64,
}

/// Plans the start of a daemon with configuration `config` on `host`.
pub fn plan_daemon(config: &DaemonConfig, host: &HostInfo) -> (p: DaemonPlan)
    ensures
        p.node_id@ == config.node.name@,
        p.tenant@ == config.zenoh.tenant@,
        p.socket_path@ == resolved_socket_of(config.daemon.socket@, *host),
        p.pid_path@ == path_with_extension(p.socket_path@, "pid"@),
        (config.ziti.enabled && config.node.role == NodeRole::Client) <==> p.ziti_tunnel is Some,
        p.ziti_tunnel matches Some(t) ==> t.binary@ == config.ziti.binary@ && t.identity_file@
            == config.identity.file@ && t.service@ == config.ziti.service@ && t.local_port
            == config.ziti.local_port,
        config.node.role == NodeRole::Hub ==> p.zenoh.mode == ZenohMode::Router
            && p.zenoh.endpoints.deep_view() == if config.zenoh.listen@.len() == 0 {
            seq![default_listen_endpoint()]
        } else {
            config.zenoh.listen.deep_view()
        },
        config.node.role == NodeRole::Client ==> p.zenoh.mode == ZenohMode::Client
            && p.zenoh.endpoints.deep_view() == config.zenoh.peers.deep_view(),
        p.tunnel_ready_timeout_secs == 15,
        p.cleanup_interval_ms == 5000,
        p.stale_timeout_secs == 30,
        p.heartbeat_interval_secs == 10,
{
    let socket_path = config.daemon.resolved_socket(host);
    proof {
        reveal_strlit("pid");
    }
    let pid_path = with_extension(socket_path.as_str(), "pid");
    let ziti_tunnel = if config.ziti.enabled && config.node.role == NodeRole::Client {
        Some(
            ZitiTunnel {
                binary: config.ziti.binary.clone(),
                identity_file: config.identity.file.clone(),
                service: config.ziti.service.clone(),
                local_port: config.ziti.local_port,
            },
        )
    } else {
        None
    };
    DaemonPlan {
        node_id: config.node.name.clone(),
        tenant: config.zenoh.tenant.clone(),
        socket_path,
        pid_path,
        ziti_tunnel,
        zenoh: build_zenoh_config(config),
        tunnel_ready_timeout_secs: 15,
        cleanup_interval_ms: 5000,
        stale_timeout_secs: 30,
        heartbeat_interval_secs: 10,
    }
}

/// The PID file next to socket `socket`: the socket path with extension `pid`.
pub fn pid_path_for(socket: &str) -> (r: String)
    ensures
        r@ == path_with_extension(socket@, "pid"@),
{
    proof {
        reveal_strlit("pid");
    }
    with_extension(socket, "pid")
}

} // verus!
