//! The fabric's message model: identities, presence, heartbeats, targets and envelopes,
//! each with a mathematical view in which strings are `Seq<char>`.
use vstd::prelude::*;

verus! {

/// What kind of participant an identity describes.
#[derive(Clone, Copy, Debug, PartialEq, Eq, Structural)]
pub enum NodeKind {
    Unspecified,
    Agent,
}

/// Liveness of an agent as it announces it.
#[derive(Clone, Copy, Debug, PartialEq, Eq, Structural)]
pub enum AgentStatus {
    Unspecified,
    Online,
    Offline,
}

/// What an envelope carries.
#[derive(Clone, Copy, Debug, PartialEq, Eq, Structural)]
pub enum MessageKind {
    Unspecified,
    TaskRequest,
    TaskResult,
    Observation,
}

/// How the recipients of an envelope are chosen.
#[derive(Clone, Copy, Debug, PartialEq, Eq, Structural)]
pub enum TargetKind {
    Unspecified,
    Unicast,
    Broadcast,
    Role,
    Capability,
}

/// The public identity of a participant of the fabric.
#[derive(Clone, Debug, PartialEq)]
pub struct AgentIdentity {
    pub agent_uuid: String,
    pub instance_uuid: String,
    pub node_uuid: String,
    pub agent_name: String,
    pub display_name: String,
    pub role: String,
    pub role_description: String,
    pub node_kind: NodeKind,
    pub tenant: String,
    pub site: String,
    pub region: String,
    pub node_id: String,
    pub host: String,
    pub llm_provider: String,
    pub llm_service: String,
    pub model_name: String,
    pub model_uuid: String,
    pub roles: Vec<String>,
    pub scopes: Vec<String>,
    pub capabilities: Vec<String>,
    pub allowed_tools: Vec<String>,
    pub requires_approval_for: Vec<String>,
    pub public_key: String,
    pub auth_provider: String,
    pub agent_version: String,
    pub runtime: String,
}

/// The view of an [`AgentIdentity`].
pub struct AgentIdentityView {
    pub agent_uuid: Seq<char>,
    pub instance_uuid: Seq<char>,
    pub node_uuid: Seq<char>,
    pub agent_name: Seq<char>,
    pub display_name: Seq<char>,
    pub role: Seq<char>,
    pub role_description: Seq<char>,
    pub node_kind: NodeKind,
    pub tenant: Seq<char>,
    pub site: Seq<char>,
    pub region: Seq<char>,
    pub node_id: Seq<char>,
    pub host: Seq<char>,
    pub llm_provider: Seq<char>,
    pub llm_service: Seq<char>,
    pub model_name: Seq<char>,
    pub model_uuid: Seq<char>,
    pub roles: Seq<Seq<char>>,
    pub scopes: Seq<Seq<char>>,
    pub capabilities: Seq<Seq<char>>,
    pub allowed_tools: Seq<Seq<char>>,
    pub requires_approval_for: Seq<Seq<char>>,
    pub public_key: Seq<char>,
    pub auth_provider: Seq<char>,
    pub agent_version: Seq<char>,
    pub runtime: Seq<char>,
}

impl View for AgentIdentity {
    type V = AgentIdentityView;

    open spec fn view(&self) -> AgentIdentityView {
        AgentIdentityView {
            agent_uuid: self.agent_uuid@,
            instance_uuid: self.instance_uuid@,
            node_uuid: self.node_uuid@,
            agent_name: self.agent_name@,
            display_name: self.display_name@,
            role: self.role@,
            role_description: self.role_description@,
            node_kind: self.node_kind,
            tenant: self.tenant@,
            site: self.site@,
            region: self.region@,
            node_id: self.node_id@,
            host: self.host@,
            llm_provider: self.llm_provider@,
            llm_service: self.llm_service@,
            model_name: self.model_name@,
            model_uuid: self.model_uuid@,
            roles: self.roles.deep_view(),
            scopes: self.scopes.deep_view(),
            capabilities: self.capabilities.deep_view(),
            allowed_tools: self.allowed_tools.deep_view(),
            requires_approval_for: self.requires_approval_for.deep_view(),
            public_key: self.public_key@,
            auth_provider: self.auth_provider@,
            agent_version: self.agent_version@,
            runtime: self.runtime@,
        }
    }
}

/// The view of an optional identity.
pub open spec fn opt_identity_view(o: Option<AgentIdentity>) -> Option<AgentIdentityView> {
    match o {
        Some(i) => Some(i@),
        None => None,
    }
}

/// An agent's announcement of itself and of its status.
#[derive(Clone, Debug, PartialEq)]
pub struct AgentPresence {
    pub identity: Option<AgentIdentity>,
    pub status: AgentStatus,
    pub subscribes_to: Vec<String>,
    pub publishes_to: Vec<String>,
    pub started_unix_ms: i64,
    pub last_seen_unix_ms: i64,
    pub ttl_ms: i64,
}

/// The view of an [`AgentPresence`].
pub struct AgentPresenceView {
    pub identity: Option<AgentIdentityView>,
    pub status: AgentStatus,
    pub subscribes_to: Seq<Seq<char>>,
    pub publishes_to: Seq<Seq<char>>,
    pub started_unix_ms: i64,
    pub last_seen_unix_ms: i64,
    pub ttl_ms: i64,
}

impl View for AgentPresence {
    type V = AgentPresenceView;

    open spec fn view(&self) -> AgentPresenceView {
        AgentPresenceView {
            identity: opt_identity_view(self.identity),
            status: self.status,
            subscribes_to: self.subscribes_to.deep_view(),
            publishes_to: self.publishes_to.deep_view(),
            started_unix_ms: self.started_unix_ms,
            last_seen_unix_ms: self.last_seen_unix_ms,
            ttl_ms: self.ttl_ms,
        }
    }
}

/// A periodic sign of life of one node.
#[derive(Clone, Debug, PartialEq)]
pub struct Heartbeat {
    pub node_id: String,
    pub status: AgentStatus,
    pub timestamp_unix_ms: i64,
    pub active_tasks: u32,
    pub queued_tasks: u32,
}

/// The view of a [`Heartbeat`].
pub struct HeartbeatView {
    pub node_id: Seq<char>,
    pub status: AgentStatus,
    pub timestamp_unix_ms: i64,
    pub active_tasks: u32,
    pub queued_tasks: u32,
}

impl View for Heartbeat {
    type V = HeartbeatView;

    open spec fn view(&self) -> HeartbeatView {
        HeartbeatView {
            node_id: self.node_id@,
            status: self.status,
            timestamp_unix_ms: self.timestamp_unix_ms,
            active_tasks: self.active_tasks,
            queued_tasks: self.queued_tasks,
        }
    }
}

/// Who an envelope is meant for.
#[derive(Clone, Debug, PartialEq)]
pub struct MessageTarget {
    pub target_kind: TargetKind,
    pub target_agent_uuids: Vec<String>,
    pub target_roles: Vec<String>,
    pub target_capabilities: Vec<String>,
}

/// The view of a [`MessageTarget`].
pub struct MessageTargetView {
    pub target_kind: TargetKind,
    pub target_agent_uuids: Seq<Seq<char>>,
    pub target_roles: Seq<Seq<char>>,
    pub target_capabilities: Seq<Seq<char>>,
}

impl View for MessageTarget {
    type V = MessageTargetView;

    open spec fn view(&self) -> MessageTargetView {
        MessageTargetView {
            target_kind: self.target_kind,
            target_agent_uuids: self.target_agent_uuids.deep_view(),
            target_roles: self.target_roles.deep_view(),
            target_capabilities: self.target_capabilities.deep_view(),
        }
    }
}

/// The view of an optional target.
pub open spec fn opt_target_view(o: Option<MessageTarget>) -> Option<MessageTargetView> {
    match o {
        Some(t) => Some(t@),
        None => None,
    }
}

impl MessageTarget {
    /// A target of the given kind that names nobody.
    pub fn of_kind(kind: TargetKind) -> (t: MessageTarget)
        ensures
            t@ == (MessageTargetView {
                target_kind: kind,
                target_agent_uuids: Seq::empty(),
                target_roles: Seq::empty(),
                target_capabilities: Seq::empty(),
            }),
    {
        let t = MessageTarget {
            target_kind: kind,
            target_agent_uuids: Vec::new(),
            target_roles: Vec::new(),
            target_capabilities: Vec::new(),
        };
        assert(t.target_agent_uuids.deep_view() =~= Seq::<Seq<char>>::empty());
        assert(t.target_roles.deep_view() =~= Seq::<Seq<char>>::empty());
        assert(t.target_capabilities.deep_view() =~= Seq::<Seq<char>>::empty());
        t
    }
}

/// A unit of work asked of one or more agents.
#[derive(Clone, Debug, PartialEq)]
pub struct TaskRequest {
    pub task_id: String,
    pub operation: String,
    pub input_json: String,
    pub timeout_ms: u64,
}

/// The answer to a [`TaskRequest`].
#[derive(Clone, Debug, PartialEq)]
pub struct TaskResult {
    pub task_id: String,
    pub output_json: String,
    pub success: bool,
    pub error_message: String,
}

/// Something an adapter noticed and reports.
#[derive(Clone, Debug, PartialEq)]
pub struct Observation {
    pub source_id: String,
    pub event_type: String,
    pub data_json: String,
}

/// The body of an envelope.
#[derive(Clone, Debug, PartialEq)]
pub enum Payload {
    TaskRequest(TaskRequest),
    TaskResult(TaskResult),
    Observation(Observation),
}

/// The view of a [`Payload`]: each variant's strings as `Seq<char>`.
pub enum PayloadView {
    TaskRequest { task_id: Seq<char>, operation: Seq<char>, input_json: Seq<char>, timeout_ms: u64 },
    TaskResult { task_id: Seq<char>, output_json: Seq<char>, success: bool, error_message: Seq<char> },
    Observation { source_id: Seq<char>, event_type: Seq<char>, data_json: Seq<char> },
}

impl View for Payload {
    type V = PayloadView;

    open spec fn view(&self) -> PayloadView {
        match self {
            Payload::TaskRequest(r) => PayloadView::TaskRequest {
                task_id: r.task_id@,
                operation: r.operation@,
                input_json: r.input_json@,
                timeout_ms: r.timeout_ms,
            },
            Payload::TaskResult(r) => PayloadView::TaskResult {
                task_id: r.task_id@,
                output_json: r.output_json@,
                success: r.success,
                error_message: r.error_message@,
            },
            Payload::Observation(o) => PayloadView::Observation {
                source_id: o.source_id@,
                event_type: o.event_type@,
                data_json: o.data_json@,
            },
        }
    }
}

/// The view of an optional payload.
pub open spec fn opt_payload_view(o: Option<Payload>) -> Option<PayloadView> {
    match o {
        Some(p) => Some(p@),
        None => None,
    }
}

/// Everything that travels on the fabric's traffic topics.
#[derive(Clone, Debug, PartialEq)]
pub struct TwilightEnvelope {
    pub message_uuid: String,
    pub correlation_uuid: String,
    pub causation_uuid: String,
    pub source: Option<AgentIdentity>,
    pub target: Option<MessageTarget>,
    pub kind: MessageKind,
    pub priority: i32,
    pub created_unix_ms: i64,
    pub expires_unix_ms: i64,
    pub tags: Vec<String>,
    pub payload: Option<Payload>,
}

/// The view of a [`TwilightEnvelope`].
pub struct TwilightEnvelopeView {
    pub message_uuid: Seq<char>,
    pub correlation_uuid: Seq<char>,
    pub causation_uuid: Seq<char>,
    pub source: Option<AgentIdentityView>,
    pub target: Option<MessageTargetView>,
    pub kind: MessageKind,
    pub priority: i32,
    pub created_unix_ms: i64,
    pub expires_unix_ms: i64,
    pub tags: Seq<Seq<char>>,
    pub payload: Option<PayloadView>,
}

impl View for TwilightEnvelope {
    type V = TwilightEnvelopeView;

    open spec fn view(&self) -> TwilightEnvelopeView {
        TwilightEnvelopeView {
            message_uuid: self.message_uuid@,
            correlation_uuid: self.correlation_uuid@,
            causation_uuid: self.causation_uuid@,
            source: opt_identity_view(self.source),
            target: opt_target_view(self.target),
            kind: self.kind,
            priority: self.priority,
            created_unix_ms: self.created_unix_ms,
            expires_unix_ms: self.expires_unix_ms,
            tags: self.tags.deep_view(),
            payload: opt_payload_view(self.payload),
        }
    }
}

} // verus!

verus! {

/// A copy of a list of strings.
pub fn clone_strings(v: &Vec<String>) -> (r: Vec<String>)
    ensures
        r.deep_view() == v.deep_view(),
{
    let r = v.clone();
    assert(r.deep_view() =~= v.deep_view());
    r
}

} // verus!

verus! {

/// A copy of an identity.
pub fn clone_identity(i: &AgentIdentity) -> (r: AgentIdentity)
    ensures
        r@ == i@,
{
    AgentIdentity {
        agent_uuid: i.agent_uuid.clone(),
        instance_uuid: i.instance_uuid.clone(),
        node_uuid: i.node_uuid.clone(),
        agent_name: i.agent_name.clone(),
        display_name: i.display_name.clone(),
        role: i.role.clone(),
        role_description: i.role_description.clone(),
        node_kind: i.node_kind,
        tenant: i.tenant.clone(),
        site: i.site.clone(),
        region: i.region.clone(),
        node_id: i.node_id.clone(),
        host: i.host.clone(),
        llm_provider: i.llm_provider.clone(),
        llm_service: i.llm_service.clone(),
        model_name: i.model_name.clone(),
        model_uuid: i.model_uuid.clone(),
        roles: clone_strings(&i.roles),
        scopes: clone_strings(&i.scopes),
        capabilities: clone_strings(&i.capabilities),
        allowed_tools: clone_strings(&i.allowed_tools),
        requires_approval_for: clone_strings(&i.requires_approval_for),
        public_key: i.public_key.clone(),
        auth_provider: i.auth_provider.clone(),
        agent_version: i.agent_version.clone(),
        runtime: i.runtime.clone(),
    }
}

/// A copy of a presence announcement.
pub fn clone_presence(p: &AgentPresence) -> (r: AgentPresence)
    ensures
        r@ == p@,
{
    let identity = match &p.identity {
        Some(i) => Some(clone_identity(i)),
        None => None,
    };
    AgentPresence {
        identity,
        status: p.status,
        subscribes_to: clone_strings(&p.subscribes_to),
        publishes_to: clone_strings(&p.publishes_to),
        started_unix_ms: p.started_unix_ms,
        last_seen_unix_ms: p.last_seen_unix_ms,
        ttl_ms: p.ttl_ms,
    }
}

/// A copy of a target.
pub fn clone_target(t: &MessageTarget) -> (r: MessageTarget)
    ensures
        r@ == t@,
{
    MessageTarget {
        target_kind: t.target_kind,
        target_agent_uuids: clone_strings(&t.target_agent_uuids),
        target_roles: clone_strings(&t.target_roles),
        target_capabilities: clone_strings(&t.target_capabilities),
    }
}

} // verus!
