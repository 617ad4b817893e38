//! Building envelopes: task requests, task results, observations, and the targets
//! they are sent to.
use vstd::prelude::*;

use crate::proto::{
    AgentIdentity, AgentIdentityView, MessageKind, MessageTarget, MessageTargetView, Observation,
    Payload, PayloadView, TargetKind, TaskRequest, TaskResult, TwilightEnvelope,
    TwilightEnvelopeView, opt_identity_view, opt_target_view,
};
use crate::sources::{is_v4_uuid_text, max_unix_ms, new_uuid, now_unix_ms};

verus! {

/// The priority of task requests and results.
pub open spec fn task_priority() -> i32 {
    2
}

/// The largest lifetime an envelope can be given, so that its expiry stays an `i64`.
pub open spec fn max_lifetime_ms() -> int {
    9_000_000_000_000_000
}

/// The request envelope for task `task_id`, sent from `source` to `target`.
pub open spec fn task_request_view(
    source: AgentIdentityView,
    target: MessageTargetView,
    operation: Seq<char>,
    input_json: Seq<char>,
    tags: Seq<Seq<char>>,
    timeout_ms: u64,
    task_id: Seq<char>,
    message_uuid: Seq<char>,
    created: i64,
    expires: i64,
) -> TwilightEnvelopeView {
    TwilightEnvelopeView {
        message_uuid,
        correlation_uuid: task_id,
        causation_uuid: Seq::empty(),
        source: Some(source),
        target: Some(target),
        kind: MessageKind::TaskRequest,
        priority: task_priority(),
        created_unix_ms: created,
        expires_unix_ms: expires,
        tags,
        payload: Some(PayloadView::TaskRequest { task_id, operation, input_json, timeout_ms }),
    }
}

/// Builds the envelope that `task_request_view` describes.
pub fn task_request_from_parts(
    source: AgentIdentity,
    target: MessageTarget,
    operation: &str,
    input_json: &str,
    tags: Vec<String>,
    timeout_ms: u64,
    task_id: String,
    message_uuid: String,
    created: i64,
    expires: i64,
) -> (e: TwilightEnvelope)
    ensures
        e@ == task_request_view(
            source@,
            target@,
            operation@,
            input_json@,
            tags.deep_view(),
            timeout_ms,
            task_id@,
            message_uuid@,
            created,
            expires,
        ),
{
    let correlation = task_id.clone();
    TwilightEnvelope {
        message_uuid,
        correlation_uuid: correlation,
        causation_uuid: String::new(),
        source: Some(source),
        target: Some(target),
        kind: MessageKind::TaskRequest,
        priority: 2,
        created_unix_ms: created,
        expires_unix_ms: expires,
        tags,
        payload: Some(
            Payload::TaskRequest(
                TaskRequest {
                    task_id,
                    operation: operation.to_string(),
                    input_json: input_json.to_string(),
                    timeout_ms,
                },
            ),
        ),
    }
}

/// A new task request from `source` to `target`, under a fresh task id and message
/// UUID, created now and expiring `lifetime_ms` later. Returns the task id and the envelope.
pub fn new_task_request(
    source: AgentIdentity,
    target: MessageTarget,
    operation: &str,
    input_json: &str,
    tags: Vec<String>,
    lifetime_ms: i64,
    timeout_ms: u64,
) -> (r: (String, TwilightEnvelope))
    requires
        0 <= lifetime_ms <= max_lifetime_ms(),
    ensures
        is_v4_uuid_text(r.0@),
        is_v4_uuid_text(r.1@.message_uuid),
        0 <= r.1@.created_unix_ms < max_unix_ms(),
        lifetime_ms <= r.1@.expires_unix_ms < max_unix_ms() + lifetime_ms,
        r.1@ == task_request_view(
            source@,
            target@,
            operation@,
            input_json@,
            tags.deep_view(),
            timeout_ms,
            r.0@,
            r.1@.message_uuid,
            r.1@.created_unix_ms,
            r.1@.expires_unix_ms,
        ),
{
    let task_id = new_uuid();
    let message_uuid = new_uuid();
    let created = now_unix_ms();
    let later = now_unix_ms();
    let expires = later + lifetime_ms;
    let env = task_request_from_parts(
        source,
        target,
        operation,
        input_json,
        tags,
        timeout_ms,
        task_id.clone(),
        message_uuid,
        created,
        expires,
    );
    (task_id, env)
}

/// A target that addresses exactly the agent `uuid`.
pub fn unicast_to(uuid: String) -> (t: MessageTarget)
    ensures
        t@ == (MessageTargetView {
            target_kind: TargetKind::Unicast,
            target_agent_uuids: seq![uuid@],
            target_roles: Seq::empty(),
            target_capabilities: Seq::empty(),
        }),
{
    let mut t = MessageTarget::of_kind(TargetKind::Unicast);
    t.target_agent_uuids.push(uuid);
    assert(t.target_agent_uuids.deep_view() =~= seq![uuid@]);
    t
}

/// The target of a manually injected task: the named agent, or everybody.
pub fn inject_target(target_uuid: Option<String>) -> (t: MessageTarget)
    ensures
        match target_uuid {
            Some(u) => t@ == (MessageTargetView {
                target_kind: TargetKind::Unicast,
                target_agent_uuids: seq![u@],
                target_roles: Seq::empty(),
                target_capabilities: Seq::empty(),
            }),
            None => t@ == (MessageTargetView {
                target_kind: TargetKind::Broadcast,
                target_agent_uuids: Seq::empty(),
                target_roles: Seq::empty(),
                target_capabilities: Seq::empty(),
            }),
        },
{
    match target_uuid {
        Some(u) => unicast_to(u),
        None => MessageTarget::of_kind(TargetKind::Broadcast),
    }
}

/// The target of a reply to `request`: its sender's node, when it names one.
pub open spec fn reply_target_view(request: TwilightEnvelopeView) -> Option<MessageTargetView> {
    match request.source {
        Some(s) => Some(
            MessageTargetView {
                target_kind: TargetKind::Unicast,
                target_agent_uuids: seq![s.node_uuid],
                target_roles: Seq::empty(),
                target_capabilities: Seq::empty(),
            },
        ),
        None => None,
    }
}

/// Computes `reply_target_view`.
pub fn reply_target(request: &TwilightEnvelope) -> (t: Option<MessageTarget>)
    ensures
        opt_target_view(t) == reply_target_view(request@),
{
    match &request.source {
        Some(s) => Some(unicast_to(s.node_uuid.clone())),
        None => None,
    }
}

/// The result envelope answering task `task_id` of message `request_uuid`, successful or
/// not as `success` says, with no error message.
pub open spec fn task_outcome_view(
    request_uuid: Seq<char>,
    task_id: Seq<char>,
    source: Option<AgentIdentityView>,
    target: Option<MessageTargetView>,
    output_json: Seq<char>,
    success: bool,
    tags: Seq<Seq<char>>,
    message_uuid: Seq<char>,
    created: i64,
    expires: i64,
) -> TwilightEnvelopeView {
    TwilightEnvelopeView {
        message_uuid,
        correlation_uuid: task_id,
        causation_uuid: request_uuid,
        source,
        target,
        kind: MessageKind::TaskResult,
        priority: task_priority(),
        created_unix_ms: created,
        expires_unix_ms: expires,
        tags,
        payload: Some(
            PayloadView::TaskResult {
                task_id,
                output_json,
                success,
                error_message: Seq::empty(),
            },
        ),
    }
}

/// The successful result envelope answering task `task_id` of message `request_uuid`.
pub open spec fn task_result_view(
    request_uuid: Seq<char>,
    task_id: Seq<char>,
    source: Option<AgentIdentityView>,
    target: Option<MessageTargetView>,
    output_json: Seq<char>,
    tags: Seq<Seq<char>>,
    message_uuid: Seq<char>,
    created: i64,
    expires: i64,
) -> TwilightEnvelopeView {
    task_outcome_view(
        request_uuid,
        task_id,
        source,
        target,
        output_json,
        true,
        tags,
        message_uuid,
        created,
        expires,
    )
}

/// A result for task `task_id`, successful or not as `success` says, caused by the
/// request message `request_uuid`, under a fresh message UUID, created now and expiring
/// `lifetime_ms` later.
pub fn new_task_outcome(
    request_uuid: &str,
    task_id: &str,
    source: Option<AgentIdentity>,
    target: Option<MessageTarget>,
    output_json: &str,
    success: bool,
    tags: Vec<String>,
    lifetime_ms: i64,
) -> (e: TwilightEnvelope)
    requires
        0 <= lifetime_ms <= max_lifetime_ms(),
    ensures
        is_v4_uuid_text(e@.message_uuid),
        0 <= e@.created_unix_ms < max_unix_ms(),
        lifetime_ms <= e@.expires_unix_ms < max_unix_ms() + lifetime_ms,
        e@ == task_outcome_view(
            request_uuid@,
            task_id@,
            opt_identity_view(source),
            opt_target_view(target),
            output_json@,
            success,
            tags.deep_view(),
            e@.message_uuid,
            e@.created_unix_ms,
            e@.expires_unix_ms,
        ),
{
    let message_uuid = new_uuid();
    let created = now_unix_ms();
    let later = now_unix_ms();
    let expires = later + lifetime_ms;
    TwilightEnvelope {
        message_uuid,
        correlation_uuid: task_id.to_string(),
        causation_uuid: request_uuid.to_string(),
        source,
        target,
        kind: MessageKind::TaskResult,
        priority: 2,
        created_unix_ms: created,
        expires_unix_ms: expires,
        tags,
        payload: Some(
            Payload::TaskResult(
                TaskResult {
                    task_id: task_id.to_string(),
                    output_json: output_json.to_string(),
                    success,
                    error_message: String::new(),
                },
            ),
        ),
    }
}

/// A successful result for task `task_id`, caused by the request message
/// `request_uuid`, under a fresh message UUID, created now and expiring
/// `lifetime_ms` later.
pub fn new_task_result(
    request_uuid: &str,
    task_id: &str,
    source: Option<AgentIdentity>,
    target: Option<MessageTarget>,
    output_json: &str,
    tags: Vec<String>,
    lifetime_ms: i64,
) -> (e: TwilightEnvelope)
    requires
        0 <= lifetime_ms <= max_lifetime_ms(),
    ensures
        is_v4_uuid_text(e@.message_uuid),
        0 <= e@.created_unix_ms < max_unix_ms(),
        lifetime_ms <= e@.expires_unix_ms < max_unix_ms() + lifetime_ms,
        e@ == task_result_view(
            request_uuid@,
            task_id@,
            opt_identity_view(source),
            opt_target_view(target),
            output_json@,
            tags.deep_view(),
            e@.message_uuid,
            e@.created_unix_ms,
            e@.expires_unix_ms,
        ),
{
    new_task_outcome(request_uuid, task_id, source, target, output_json, true, tags, lifetime_ms)
}

/// The observation envelope of an adapter: sent by `source` to nobody in particular,
/// kind `Observation`, the observation's source being the adapter's node UUID.
pub open spec fn observation_view(
    source: AgentIdentityView,
    event_type: Seq<char>,
    data_json: Seq<char>,
    priority: i32,
    tags: Seq<Seq<char>>,
    message_uuid: Seq<char>,
    created: i64,
    expires: i64,
) -> TwilightEnvelopeView {
    TwilightEnvelopeView {
        message_uuid,
        correlation_uuid: Seq::empty(),
        causation_uuid: Seq::empty(),
        source: Some(source),
        target: None,
        kind: MessageKind::Observation,
        priority,
        created_unix_ms: created,
        expires_unix_ms: expires,
        tags,
        payload: Some(
            PayloadView::Observation { source_id: source.node_uuid, event_type, data_json },
        ),
    }
}

/// How long an observation stays valid, in milliseconds.
pub open spec fn observation_lifetime_ms() -> i64 {
    60000
}

/// A new observation by `source` of kind `event_type` with data `data_json`, under a
/// fresh message UUID, created now and expiring a minute later.
pub fn new_observation(
    source: &AgentIdentity,
    event_type: &str,
    data_json: String,
    priority: i32,
    tags: Vec<String>,
) -> (e: TwilightEnvelope)
    ensures
        is_v4_uuid_text(e@.message_uuid),
        0 <= e@.created_unix_ms < max_unix_ms(),
        observation_lifetime_ms() <= e@.expires_unix_ms < max_unix_ms() + observation_lifetime_ms(),
        e@.source == Some(source@),
        e@.kind == MessageKind::Observation,
        e@.payload matches Some(PayloadView::Observation { source_id, .. }) && source_id == source@.node_uuid,
        e@ == observation_view(
            source@,
            event_type@,
            data_json@,
            priority,
            tags.deep_view(),
            e@.message_uuid,
            e@.created_unix_ms,
            e@.expires_unix_ms,
        ),
{
    let message_uuid = new_uuid();
    let created = now_unix_ms();
    let later = now_unix_ms();
    let expires = later + 60000;
    let e = TwilightEnvelope {
        message_uuid,
        correlation_uuid: String::new(),
        causation_uuid: String::new(),
        source: Some(crate::proto::clone_identity(source)),
        target: None,
        kind: MessageKind::Observation,
        priority,
        created_unix_ms: created,
        expires_unix_ms: expires,
        tags,
        payload: Some(
            Payload::Observation(
                Observation {
                    source_id: source.node_uuid.clone(),
                    event_type: event_type.to_string(),
                    data_json,
                },
            ),
        ),
    };
    e
}


/// Whether `e` is the request of task `task_id`: a task-request envelope whose payload
/// is the request of that task.
pub open spec fn is_request_of(e: TwilightEnvelopeView, task_id: Seq<char>) -> bool {
    &&& e.kind == MessageKind::TaskRequest
    &&& e.payload matches Some(PayloadView::TaskRequest { task_id: t, .. }) && t == task_id
}

/// Decides `is_request_of`.
pub fn is_request_for(envelope: &TwilightEnvelope, task_id: &str) -> (r: bool)
    ensures
        r == is_request_of(envelope@, task_id@),
{
    match envelope.kind {
        MessageKind::TaskRequest => match &envelope.payload {
            Some(Payload::TaskRequest(req)) => crate::strings::str_eq(req.task_id.as_str(), task_id),
            _ => false,
        },
        _ => false,
    }
}

/// Whether `e` is a task result correlated with task `task_id`.
pub open spec fn is_correlated_result(e: TwilightEnvelopeView, task_id: Seq<char>) -> bool {
    e.kind == MessageKind::TaskResult && e.correlation_uuid == task_id
}

/// Decides `is_correlated_result`.
pub fn is_result_for(envelope: &TwilightEnvelope, task_id: &str) -> (r: bool)
    ensures
        r == is_correlated_result(envelope@, task_id@),
{
    match envelope.kind {
        MessageKind::TaskResult => crate::strings::str_eq(envelope.correlation_uuid.as_str(), task_id),
        _ => false,
    }
}

/// The output an envelope carries for task `task_id`: its result payload's output when
/// that payload answers the task, nothing otherwise.
pub fn result_output(envelope: &TwilightEnvelope, task_id: &str) -> (r: Option<String>)
    ensures
        match envelope@.payload {
            Some(PayloadView::TaskResult { task_id: t, output_json, .. }) => if t == task_id@ {
                r matches Some(o) && o@ == output_json
            } else {
                r is None
            },
            _ => r is None,
        },
{
    match &envelope.payload {
        Some(Payload::TaskResult(res)) => {
            if crate::strings::str_eq(res.task_id.as_str(), task_id) {
                Some(res.output_json.clone())
            } else {
                None
            }
        },
        _ => None,
    }
}

/// An observation names its sender: whatever an adapter observes, the envelope it
/// reports comes from the adapter's identity, is addressed to nobody in particular, and
/// its observation names the adapter's node as its source.
pub proof fn law_observation_names_its_sender(
    source: AgentIdentityView,
    event_type: Seq<char>,
    data_json: Seq<char>,
    priority: i32,
    tags: Seq<Seq<char>>,
    message_uuid: Seq<char>,
    created: i64,
    expires: i64,
)
    ensures
        ({
            let e = observation_view(source, event_type, data_json, priority, tags, message_uuid, created, expires);
            &&& e.source == Some(source)
            &&& e.target is None
            &&& e.kind == MessageKind::Observation
            &&& e.payload == Some(PayloadView::Observation { source_id: source.node_uuid, event_type, data_json })
        }),
{
}

} // verus!
