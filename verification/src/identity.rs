//! Node and agent identity: the fabric-wide node identifier, the daemon's default
//! socket path, and fresh identities and presence announcements.
use vstd::prelude::*;
use vstd::string::StringExecFns;

use crate::paths::{joined_path, path_join};
use crate::proto::{
    AgentIdentity, AgentIdentityView, AgentPresence, AgentPresenceView, AgentStatus, NodeKind,
};
use crate::sources::{is_v4_uuid_text, max_unix_ms, new_uuid, now_unix_ms};
use crate::strings::{cat, trim, trimmed};

verus! {

/// What the host tells about itself: the output of the `hostname` command (when it
/// ran and printed UTF-8) and the environment variables the fabric reads.
#[derive(Clone, Debug)]
pub struct HostInfo {
    pub hostname: Option<String>,
    /// `$USER`
    pub user: Option<String>,
    /// `$USERNAME`
    pub username: Option<String>,
    /// `$HOME`
    pub home: Option<String>,
    /// `$XDG_RUNTIME_DIR`
    pub xdg_runtime_dir: Option<String>,
}

/// The view of an optional string.
pub open spec fn opt_str(o: Option<String>) -> Option<Seq<char>> {
    match o {
        Some(s) => Some(s@),
        None => None,
    }
}

/// `o`'s text, or `default` when there is none.
pub open spec fn or_default(o: Option<Seq<char>>, default: Seq<char>) -> Seq<char> {
    match o {
        Some(s) => s,
        None => default,
    }
}

/// The node identifier of a host: `"{hostname}-{username}"`, where the host name is
/// the trimmed output of `hostname` (`"unknown"` when there is none) and the user name
/// is `$USER`, else `$USERNAME`, else `"user"`.
pub open spec fn node_id_of(host: HostInfo) -> Seq<char> {
    let h = match host.hostname {
        Some(s) => trimmed(s@),
        None => seq!['u', 'n', 'k', 'n', 'o', 'w', 'n'],
    };
    let u = match host.user {
        Some(s) => s@,
        None => or_default(opt_str(host.username), seq!['u', 's', 'e', 'r']),
    };
    h + seq!['-'] + u
}

/// The daemon's default socket: `$XDG_RUNTIME_DIR/twilight-daemon.sock` when that
/// variable is set, `/tmp/twilight-{$USER or "user"}-daemon.sock` otherwise.
pub open spec fn socket_path_of(host: HostInfo) -> Seq<char> {
    match host.xdg_runtime_dir {
        Some(dir) => joined_path(dir@, "twilight-daemon.sock"@),
        None => "/tmp/twilight-"@ + or_default(opt_str(host.user), seq!['u', 's', 'e', 'r'])
            + "-daemon.sock"@,
    }
}

/// Returns `"{hostname}-{username}"`, used as the fabric-wide node identifier.
pub fn auto_node_id(host: &HostInfo) -> (r: String)
    ensures
        r@ == node_id_of(*host),
{
    let h = match &host.hostname {
        Some(s) => trim(s.as_str()),
        None => {
            proof {
                reveal_strlit("unknown");
            }
            String::from_str("unknown")
        },
    };
    let u = match &host.user {
        Some(s) => s.clone(),
        None => match &host.username {
            Some(s) => s.clone(),
            None => {
                proof {
                    reveal_strlit("user");
                }
                String::from_str("user")
            },
        },
    };
    proof {
        reveal_strlit("-");
    }
    let with_dash = h.concat("-");
    with_dash.concat(u.as_str())
}

/// Returns the default daemon socket path, respecting `$XDG_RUNTIME_DIR`.
pub fn default_socket_path(host: &HostInfo) -> (r: String)
    ensures
        r@ == socket_path_of(*host),
{
    match &host.xdg_runtime_dir {
        Some(dir) => path_join(dir.as_str(), "twilight-daemon.sock"),
        None => {
            let user = match &host.user {
                Some(u) => u.clone(),
                None => String::from_str("user"),
            };
            proof {
                reveal_strlit("user");
            }
            let a = cat("/tmp/twilight-", user.as_str());
            a.concat("-daemon.sock")
        },
    }
}

/// The version every identity announces for its software.
pub open spec fn agent_version_text() -> Seq<char> {
    seq!['0', '.', '1', '.', '0']
}

/// The runtime every identity announces.
pub open spec fn runtime_text() -> Seq<char> {
    seq!['r', 'u', 's', 't']
}

/// The identity of agent `name` with role `role` on node `node_id` of tenant
/// `tenant`, under the three given UUIDs. Its site and host are the node; its only
/// role is `role`; every other text is empty and every other list too.
pub open spec fn node_identity(
    name: Seq<char>,
    role: Seq<char>,
    node_id: Seq<char>,
    tenant: Seq<char>,
    agent_uuid: Seq<char>,
    instance_uuid: Seq<char>,
    node_uuid: Seq<char>,
) -> AgentIdentityView {
    AgentIdentityView {
        agent_uuid,
        instance_uuid,
        node_uuid,
        agent_name: name,
        display_name: name,
        role,
        role_description: Seq::empty(),
        node_kind: NodeKind::Agent,
        tenant,
        site: node_id,
        region: Seq::empty(),
        node_id,
        host: node_id,
        llm_provider: Seq::empty(),
        llm_service: Seq::empty(),
        model_name: Seq::empty(),
        model_uuid: Seq::empty(),
        roles: seq![role],
        scopes: Seq::empty(),
        capabilities: Seq::empty(),
        allowed_tools: Seq::empty(),
        requires_approval_for: Seq::empty(),
        public_key: Seq::empty(),
        auth_provider: Seq::empty(),
        agent_version: agent_version_text(),
        runtime: runtime_text(),
    }
}

/// Builds the identity that `node_identity` describes.
pub fn identity_from_parts(
    name: &str,
    role: &str,
    node_id: &str,
    tenant: &str,
    agent_uuid: String,
    instance_uuid: String,
    node_uuid: String,
) -> (r: AgentIdentity)
    ensures
        r@ == node_identity(name@, role@, node_id@, tenant@, agent_uuid@, instance_uuid@, node_uuid@),
{
    let mut roles: Vec<String> = Vec::new();
    roles.push(String::from_str(role));
    proof {
        reveal_strlit("0.1.0");
        reveal_strlit("rust");
        assert("0.1.0"@ =~= agent_version_text());
        assert("rust"@ =~= runtime_text());
    }
    let r = AgentIdentity {
        agent_uuid,
        instance_uuid,
        node_uuid,
        agent_name: String::from_str(name),
        display_name: String::from_str(name),
        role: String::from_str(role),
        role_description: String::new(),
        node_kind: NodeKind::Agent,
        tenant: String::from_str(tenant),
        site: String::from_str(node_id),
        region: String::new(),
        node_id: String::from_str(node_id),
        host: String::from_str(node_id),
        llm_provider: String::new(),
        llm_service: String::new(),
        model_name: String::new(),
        model_uuid: String::new(),
        roles,
        scopes: Vec::new(),
        capabilities: Vec::new(),
        allowed_tools: Vec::new(),
        requires_approval_for: Vec::new(),
        public_key: String::new(),
        auth_provider: String::new(),
        agent_version: String::from_str("0.1.0"),
        runtime: String::from_str("rust"),
    };
    assert(r.roles.deep_view() =~= seq![role@]);
    assert(r.scopes.deep_view() =~= Seq::<Seq<char>>::empty());
    assert(r.capabilities.deep_view() =~= Seq::<Seq<char>>::empty());
    assert(r.allowed_tools.deep_view() =~= Seq::<Seq<char>>::empty());
    assert(r.requires_approval_for.deep_view() =~= Seq::<Seq<char>>::empty());
    r
}

/// Whether `i` is the identity of `name`/`role` on `node_id` of `tenant` under some
/// three freshly drawn UUIDs.
pub open spec fn is_fresh_node_identity(
    i: AgentIdentityView,
    name: Seq<char>,
    role: Seq<char>,
    node_id: Seq<char>,
    tenant: Seq<char>,
) -> bool {
    &&& is_v4_uuid_text(i.agent_uuid)
    &&& is_v4_uuid_text(i.instance_uuid)
    &&& is_v4_uuid_text(i.node_uuid)
    &&& i == node_identity(name, role, node_id, tenant, i.agent_uuid, i.instance_uuid, i.node_uuid)
}

/// Creates an identity with an explicit node id and tenant and three fresh UUIDs.
pub fn create_node_identity(name: &str, role: &str, node_id: &str, tenant: &str) -> (r: AgentIdentity)
    ensures
        is_fresh_node_identity(r@, name@, role@, node_id@, tenant@),
{
    let agent_uuid = new_uuid();
    let instance_uuid = new_uuid();
    let node_uuid = new_uuid();
    identity_from_parts(name, role, node_id, tenant, agent_uuid, instance_uuid, node_uuid)
}

/// The tenant of identities made without a daemon configuration.
pub open spec fn default_tenant() -> Seq<char> {
    seq!['d', 'e', 'f', 'a', 'u', 'l', 't']
}

/// Creates an identity on this host's auto-detected node, in the `"default"` tenant.
pub fn create_default_identity(name: &str, role: &str, host: &HostInfo) -> (r: AgentIdentity)
    ensures
        is_fresh_node_identity(r@, name@, role@, node_id_of(*host), default_tenant()),
{
    let node_id = auto_node_id(host);
    proof {
        reveal_strlit("default");
        assert("default"@ =~= default_tenant());
    }
    create_node_identity(name, role, node_id.as_str(), "default")
}

/// How long a presence announcement stays valid, in milliseconds.
pub open spec fn presence_ttl_ms() -> i64 {
    30000
}

/// The announcement of `identity` with status `status`, started and last seen at `now`.
pub open spec fn presence_of(identity: AgentIdentityView, status: AgentStatus, now: i64) -> AgentPresenceView {
    AgentPresenceView {
        identity: Some(identity),
        status,
        subscribes_to: Seq::empty(),
        publishes_to: Seq::empty(),
        started_unix_ms: now,
        last_seen_unix_ms: now,
        ttl_ms: presence_ttl_ms(),
    }
}

/// Builds the announcement that `presence_of` describes.
pub fn presence_at(identity: AgentIdentity, status: AgentStatus, now: i64) -> (p: AgentPresence)
    ensures
        p@ == presence_of(identity@, status, now),
{
    let p = AgentPresence {
        identity: Some(identity),
        status,
        subscribes_to: Vec::new(),
        publishes_to: Vec::new(),
        started_unix_ms: now,
        last_seen_unix_ms: now,
        ttl_ms: 30000,
    };
    assert(p.subscribes_to.deep_view() =~= Seq::<Seq<char>>::empty());
    assert(p.publishes_to.deep_view() =~= Seq::<Seq<char>>::empty());
    p
}

/// Announces `identity` with status `status`, stamped with the wall clock.
pub fn create_presence(identity: AgentIdentity, status: AgentStatus) -> (p: AgentPresence)
    ensures
        0 <= p@.started_unix_ms < max_unix_ms(),
        p@ == presence_of(identity@, status, p@.started_unix_ms),
{
    let now = now_unix_ms();
    presence_at(identity, status, now)
}

} // verus!
