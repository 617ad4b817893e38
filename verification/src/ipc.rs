//! The daemon's local protocol: what one client connection asks, and what the daemon
//! decides to answer and to publish. The connection itself and the bus are driven by the
//! caller, who performs the step that `dispatch` returns.
use vstd::prelude::*;
use vstd::string::StringExecFns;

use crate::envelope::{inject_target, new_task_outcome, new_task_request, task_outcome_view, task_request_view};
use crate::identity::{
    create_node_identity, create_presence, is_fresh_node_identity, presence_of,
};
use crate::proto::{
    AgentIdentity, AgentIdentityView, AgentPresence, AgentStatus, MessageTarget, MessageTargetView,
    TargetKind, TwilightEnvelope, clone_presence,
};
use crate::registry::{
    TrafficController, identity_of, identity_views, lists_keys, presence_applied,
};
use crate::sources::is_v4_uuid_text;
use crate::strings::{cat, str_eq};
use crate::tasks::{
    PendingTask, PendingTaskView, TaskBook, TaskBookView, TaskEventView, addresses, answer_target,
    clone_pending_list, pending_views, sender_of, sent_by, traffic_outcome,
};
use crate::bus::{BusAddress, is_chunk, is_literal, key_matches, law_traffic_reaches_every_node, star, topic, traffic_kind};
use crate::proto::{MessageKind, PayloadView, TwilightEnvelopeView};

verus! {

/// One line of a client, decoded.
#[derive(Clone, Debug)]
pub enum IpcRequest {
    Register { name: String, role: String },
    GetRegistry,
    PublishTask { operation: String, input_json: String },
    AskAgent { agent_uuid: String, operation: String, input_json: String },
    Ping,
    SubscribeTasks,
    ListTasks,
    ReplyTask { task_id: String, output_json: String, success: bool },
}

/// One line of the daemon's answer.
#[derive(Clone, Debug)]
pub struct IpcResponse {
    pub ok: bool,
    pub agent_uuid: Option<String>,
    pub agents: Option<Vec<AgentIdentity>>,
    pub task_id: Option<String>,
    pub error: Option<String>,
    pub tasks: Option<Vec<PendingTask>>,
}

/// The view of an [`IpcResponse`].
pub struct IpcResponseView {
    pub ok: bool,
    pub agent_uuid: Option<Seq<char>>,
    pub agents: Option<Seq<AgentIdentityView>>,
    pub task_id: Option<Seq<char>>,
    pub error: Option<Seq<char>>,
    pub tasks: Option<Seq<PendingTaskView>>,
}

impl View for IpcResponse {
    type V = IpcResponseView;

    open spec fn view(&self) -> IpcResponseView {
        IpcResponseView {
            ok: self.ok,
            agent_uuid: match self.agent_uuid {
                Some(s) => Some(s@),
                None => None,
            },
            agents: match self.agents {
                Some(v) => Some(identity_views(v@)),
                None => None,
            },
            task_id: match self.task_id {
                Some(s) => Some(s@),
                None => None,
            },
            error: match self.error {
                Some(s) => Some(s@),
                None => None,
            },
            tasks: match self.tasks {
                Some(v) => Some(pending_views(v@)),
                None => None,
            },
        }
    }
}

/// A bare success.
pub open spec fn ok_view() -> IpcResponseView {
    IpcResponseView { ok: true, agent_uuid: None, agents: None, task_id: None, error: None, tasks: None }
}

/// A failure carrying message `msg`.
pub open spec fn err_view(msg: Seq<char>) -> IpcResponseView {
    IpcResponseView { ok: false, agent_uuid: None, agents: None, task_id: None, error: Some(msg), tasks: None }
}

/// A success carrying task id `id`.
pub open spec fn task_view(id: Seq<char>) -> IpcResponseView {
    IpcResponseView { ok: true, agent_uuid: None, agents: None, task_id: Some(id), error: None, tasks: None }
}

impl IpcResponse {
    /// A bare success.
    pub fn ok() -> (r: IpcResponse)
        ensures
            r@ == ok_view(),
    {
        IpcResponse { ok: true, agent_uuid: None, agents: None, task_id: None, error: None, tasks: None }
    }

    /// A failure carrying message `msg`.
    pub fn err(msg: String) -> (r: IpcResponse)
        ensures
            r@ == err_view(msg@),
    {
        IpcResponse { ok: false, agent_uuid: None, agents: None, task_id: None, error: Some(msg), tasks: None }
    }
}

/// The answer to a line that does not decode: `"parse error: {detail}"`.
pub fn parse_error_reply(detail: &str) -> (r: IpcResponse)
    ensures
        r@ == err_view("parse error: "@ + detail@),
{
    IpcResponse::err(cat("parse error: ", detail))
}

/// What the caller does after a request was decided.
pub enum IpcStep {
    /// Answer with this response.
    Reply(IpcResponse),
    /// Publish this presence on the bus, ignoring a failure, then answer with `reply`.
    Announce { presence: AgentPresence, reply: IpcResponse },
    /// Publish this envelope on the bus, then answer with `sent_reply` of the outcome.
    Send { task_id: String, envelope: TwilightEnvelope },
    /// Publish this answer to a task on the bus, then answer with `answered_reply` of the
    /// outcome.
    Answer { envelope: TwilightEnvelope },
}

/// The answer after publishing the answer to a task: success, or the publish failure's
/// message.
pub fn answered_reply(outcome: Result<(), String>) -> (r: IpcResponse)
    ensures
        r@ == match outcome {
            Ok(_) => ok_view(),
            Err(e) => err_view(e@),
        },
{
    match outcome {
        Ok(_) => IpcResponse::ok(),
        Err(e) => IpcResponse::err(e),
    }
}

/// A success listing the pending tasks `pending`.
pub open spec fn tasks_view(pending: Seq<PendingTaskView>) -> IpcResponseView {
    IpcResponseView { ok: true, agent_uuid: None, agents: None, task_id: None, error: None, tasks: Some(pending) }
}

/// The message to a client that subscribes to tasks before registering.
pub open spec fn unregistered_subscribe() -> Seq<char> {
    "must register before subscribing to tasks"@
}

/// The message to a client that answers a task before registering.
pub open spec fn unregistered_reply() -> Seq<char> {
    "must register before replying to tasks"@
}

/// The message to a client that answers a task it was not handed: `"unknown task: {id}"`.
pub open spec fn unknown_task(task_id: Seq<char>) -> Seq<char> {
    "unknown task: "@ + task_id
}

/// Whether `i` is the position of the oldest pending task with id `task_id`.
pub open spec fn is_first_pending(pending: Seq<PendingTaskView>, task_id: Seq<char>, i: int) -> bool {
    &&& 0 <= i < pending.len()
    &&& pending[i].task_id == task_id
    &&& forall|k: int| 0 <= k < i ==> (#[trigger] pending[k]).task_id != task_id
}

/// Whether some pending task has id `task_id`.
pub open spec fn is_pending(pending: Seq<PendingTaskView>, task_id: Seq<char>) -> bool {
    exists|k: int| 0 <= k < pending.len() && (#[trigger] pending[k]).task_id == task_id
}

/// The answer the daemon sends for client `src` to pending task `p`: a result of that
/// task, caused by its request, sent to where the request came from, successful as
/// `success` says, carrying `output_json`, no tags, a 30-second lifetime.
pub open spec fn is_client_answer(
    e: crate::proto::TwilightEnvelopeView,
    reg: Map<Seq<char>, crate::registry::RegistryEntryView>,
    src: Seq<char>,
    node_id: Seq<char>,
    tenant: Seq<char>,
    p: PendingTaskView,
    output_json: Seq<char>,
    success: bool,
) -> bool {
    &&& is_v4_uuid_text(e.message_uuid)
    &&& e.source is Some
    &&& is_sender_identity(e.source->0, reg, src, node_id, tenant)
    &&& e == task_outcome_view(
        p.request_uuid,
        p.task_id,
        e.source,
        p.reply_to,
        output_json,
        success,
        Seq::empty(),
        e.message_uuid,
        e.created_unix_ms,
        e.expires_unix_ms,
    )
}

/// The answer after publishing a task: its id, or the publish failure's message.
pub fn sent_reply(outcome: Result<String, String>) -> (r: IpcResponse)
    ensures
        r@ == match outcome {
            Ok(id) => task_view(id@),
            Err(e) => err_view(e@),
        },
{
    match outcome {
        Ok(id) => IpcResponse { ok: true, agent_uuid: None, agents: None, task_id: Some(id), error: None, tasks: None },
        Err(e) => IpcResponse::err(e),
    }
}

/// A success listing every registered identity, once each.
pub open spec fn is_registry_reply(
    r: IpcResponseView,
    reg: Map<Seq<char>, crate::registry::RegistryEntryView>,
) -> bool {
    &&& r.ok
    &&& r.agent_uuid is None
    &&& r.task_id is None
    &&& r.error is None
    &&& r.tasks is None
    &&& r.agents is Some
    &&& exists|ks: Seq<Seq<char>>|
        #[trigger] lists_keys(ks, reg) && r.agents->0 == ks.map_values(
            |k: Seq<char>| reg[k].identity,
        )
}

/// The message of a task sent by a client that never registered.
pub open spec fn unregistered_publish() -> Seq<char> {
    "must register before publishing tasks"@
}

/// The message of a direct task sent by a client that never registered.
pub open spec fn unregistered_ask() -> Seq<char> {
    "must register before sending tasks"@
}

/// The identity a task is sent under: the registered identity of `src`, or when the
/// registry no longer knows it, a fresh identity named and playing `"unknown"` on
/// this node.
pub open spec fn is_sender_identity(
    i: AgentIdentityView,
    reg: Map<Seq<char>, crate::registry::RegistryEntryView>,
    src: Seq<char>,
    node_id: Seq<char>,
    tenant: Seq<char>,
) -> bool {
    match identity_of(reg, src) {
        Some(known) => i == known,
        None => is_fresh_node_identity(i, "unknown"@, "unknown"@, node_id, tenant),
    }
}

/// The task envelope the daemon sends for a registered client `src`: a request to
/// `target` with a fresh task id, no tags, a 30-second timeout and a 30-second lifetime.
pub open spec fn is_client_task(
    task_id: Seq<char>,
    e: crate::proto::TwilightEnvelopeView,
    reg: Map<Seq<char>, crate::registry::RegistryEntryView>,
    src: Seq<char>,
    node_id: Seq<char>,
    tenant: Seq<char>,
    target: MessageTargetView,
    operation: Seq<char>,
    input_json: Seq<char>,
) -> bool {
    &&& is_v4_uuid_text(task_id)
    &&& is_v4_uuid_text(e.message_uuid)
    &&& e.source is Some
    &&& is_sender_identity(e.source->0, reg, src, node_id, tenant)
    &&& e == task_request_view(
        e.source->0,
        target,
        operation,
        input_json,
        Seq::empty(),
        30000,
        task_id,
        e.message_uuid,
        e.created_unix_ms,
        e.expires_unix_ms,
    )
}

fn sender_identity(controller: &TrafficController, src: &str, node_id: &str, tenant: &str) -> (r: AgentIdentity)
    ensures
        is_sender_identity(r@, controller@.registry, src@, node_id@, tenant@),
{
    proof {
        reveal_strlit("unknown");
    }
    match controller.get_identity(src) {
        Some(i) => i,
        None => create_node_identity("unknown", "unknown", node_id, tenant),
    }
}

/// The position of the oldest pending task with id `task_id`, if any.
fn find_pending(pending: &Vec<PendingTask>, task_id: &str) -> (r: Option<usize>)
    ensures
        match r {
            Some(i) => is_first_pending(pending_views(pending@), task_id@, i as int),
            None => !is_pending(pending_views(pending@), task_id@),
        },
{
    let mut i: usize = 0;
    while i < pending.len()
        invariant
            i <= pending.len(),
            forall|k: int| 0 <= k < i ==> (#[trigger] pending_views(pending@)[k]).task_id != task_id@,
        decreases pending.len() - i,
    {
        if str_eq(pending[i].task_id.as_str(), task_id) {
            return Some(i);
        }
        i = i + 1;
    }
    None
}

fn client_task(
    controller: &TrafficController,
    src: &str,
    node_id: &str,
    tenant: &str,
    target: MessageTarget,
    operation: &str,
    input_json: &str,
) -> (r: (String, TwilightEnvelope))
    ensures
        is_client_task(
            r.0@,
            r.1@,
            controller@.registry,
            src@,
            node_id@,
            tenant@,
            target@,
            operation@,
            input_json@,
        ),
{
    let source = sender_identity(controller, src, node_id, tenant);
    let tags: Vec<String> = Vec::new();
    assert(tags.deep_view() =~= Seq::<Seq<char>>::empty());
    new_task_request(source, target, operation, input_json, tags, 30000, 30000)
}

/// Decides a request of the client whose registration is `registered`.
///
/// `Ping` answers success. `Register` creates an identity for the client on this node and
/// tenant, remembers its node UUID as the client's, records its presence as online in the
/// registry, and asks for the presence to be announced before answering with the UUID.
/// `GetRegistry` answers with every registered identity. `PublishTask` and `AskAgent`
/// answer an error to a client that has not registered; otherwise they ask for a task
/// request to everybody, or to the named agent, to be sent.
///
/// `SubscribeTasks` subscribes a registered client to the task events of the fabric (see
/// `tasks::on_traffic`) and answers success. `ListTasks` answers with the requests handed
/// to the client that it has not answered. `ReplyTask` answers the oldest such request
/// with that task id: it is no longer pending, and a result of the task, successful or
/// not, is to be sent back to where the request came from. A client that has not
/// registered, and an id of no pending request, get an error and change nothing.
pub fn dispatch(
    controller: &mut TrafficController,
    node_id: &str,
    tenant: &str,
    req: IpcRequest,
    registered: &mut Option<String>,
    book: &mut TaskBook,
) -> (step: IpcStep)
    ensures
        !(req is SubscribeTasks || req is ReplyTask) ==> final(book)@ == old(book)@,
        match req {
            IpcRequest::Ping => {
                &&& step matches IpcStep::Reply(r) && r@ == ok_view()
                &&& final(controller)@ == old(controller)@
                &&& *final(registered) == *old(registered)
            },
            IpcRequest::Register { name, role } => step matches IpcStep::Announce { presence, reply } && {
                let i = presence@.identity->0;
                &&& presence@.identity is Some
                &&& is_fresh_node_identity(i, name@, role@, node_id@, tenant@)
                &&& presence@ == presence_of(i, AgentStatus::Online, presence@.started_unix_ms)
                &&& final(controller)@.registry == presence_applied(
                    old(controller)@.registry,
                    presence@,
                    final(controller)@.registry[i.node_uuid].last_seen,
                )
                &&& final(controller)@.traffic == old(controller)@.traffic
                &&& *final(registered) matches Some(u) && u@ == i.node_uuid
                &&& reply@ == (IpcResponseView {
                    ok: true,
                    agent_uuid: Some(i.node_uuid),
                    agents: None,
                    task_id: None,
                    error: None,
                    tasks: None,
                })
            },
            IpcRequest::GetRegistry => {
                &&& step matches IpcStep::Reply(r) && is_registry_reply(r@, old(controller)@.registry)
                &&& final(controller)@ == old(controller)@
                &&& *final(registered) == *old(registered)
            },
            IpcRequest::PublishTask { operation, input_json } => {
                &&& final(controller)@ == old(controller)@
                &&& *final(registered) == *old(registered)
                &&& match *old(registered) {
                    None => step matches IpcStep::Reply(r) && r@ == err_view(unregistered_publish()),
                    Some(src) => step matches IpcStep::Send { task_id, envelope } && is_client_task(
                        task_id@,
                        envelope@,
                        old(controller)@.registry,
                        src@,
                        node_id@,
                        tenant@,
                        MessageTargetView {
                            target_kind: TargetKind::Broadcast,
                            target_agent_uuids: Seq::empty(),
                            target_roles: Seq::empty(),
                            target_capabilities: Seq::empty(),
                        },
                        operation@,
                        input_json@,
                    ),
                }
            },
            IpcRequest::AskAgent { agent_uuid, operation, input_json } => {
                &&& final(controller)@ == old(controller)@
                &&& *final(registered) == *old(registered)
                &&& match *old(registered) {
                    None => step matches IpcStep::Reply(r) && r@ == err_view(unregistered_ask()),
                    Some(src) => step matches IpcStep::Send { task_id, envelope } && is_client_task(
                        task_id@,
                        envelope@,
                        old(controller)@.registry,
                        src@,
                        node_id@,
                        tenant@,
                        MessageTargetView {
                            target_kind: TargetKind::Unicast,
                            target_agent_uuids: seq![agent_uuid@],
                            target_roles: Seq::empty(),
                            target_capabilities: Seq::empty(),
                        },
                        operation@,
                        input_json@,
                    ),
                }
            },
            IpcRequest::SubscribeTasks => {
                &&& final(controller)@ == old(controller)@
                &&& *final(registered) == *old(registered)
                &&& match *old(registered) {
                    None => {
                        &&& step matches IpcStep::Reply(r) && r@ == err_view(unregistered_subscribe())
                        &&& final(book)@ == old(book)@
                    },
                    Some(_) => {
                        &&& step matches IpcStep::Reply(r) && r@ == ok_view()
                        &&& final(book)@ == (TaskBookView { subscribed: true, pending: old(book)@.pending })
                    },
                }
            },
            IpcRequest::ListTasks => {
                &&& step matches IpcStep::Reply(r) && r@ == tasks_view(old(book)@.pending)
                &&& final(controller)@ == old(controller)@
                &&& *final(registered) == *old(registered)
            },
            IpcRequest::ReplyTask { task_id, output_json, success } => {
                &&& final(controller)@ == old(controller)@
                &&& *final(registered) == *old(registered)
                &&& match *old(registered) {
                    None => {
                        &&& step matches IpcStep::Reply(r) && r@ == err_view(unregistered_reply())
                        &&& final(book)@ == old(book)@
                    },
                    Some(src) => if is_pending(old(book)@.pending, task_id@) {
                        exists|i: int| #[trigger]
                            is_first_pending(old(book)@.pending, task_id@, i) && {
                                &&& final(book)@ == (TaskBookView {
                                    subscribed: old(book)@.subscribed,
                                    pending: old(book)@.pending.remove(i),
                                })
                                &&& step matches IpcStep::Answer { envelope } && is_client_answer(
                                    envelope@,
                                    old(controller)@.registry,
                                    src@,
                                    node_id@,
                                    tenant@,
                                    old(book)@.pending[i],
                                    output_json@,
                                    success,
                                )
                            }
                    } else {
                        &&& step matches IpcStep::Reply(r) && r@ == err_view(unknown_task(task_id@))
                        &&& final(book)@ == old(book)@
                    },
                }
            },
        },
{
    match req {
        IpcRequest::Ping => IpcStep::Reply(IpcResponse::ok()),
        IpcRequest::Register { name, role } => {
            let identity = create_node_identity(name.as_str(), role.as_str(), node_id, tenant);
            let uuid = identity.node_uuid.clone();
            *registered = Some(uuid.clone());
            let presence = create_presence(identity, AgentStatus::Online);
            let announced = clone_presence(&presence);
            controller.update_presence(presence);
            let reply = IpcResponse {
                ok: true,
                agent_uuid: Some(uuid),
                agents: None,
                task_id: None,
                error: None,
                tasks: None,
            };
            IpcStep::Announce { presence: announced, reply }
        },
        IpcRequest::GetRegistry => {
            let agents = controller.get_all_identities();
            IpcStep::Reply(
                IpcResponse { ok: true, agent_uuid: None, agents: Some(agents), task_id: None, error: None, tasks: None },
            )
        },
        IpcRequest::PublishTask { operation, input_json } => {
            match registered {
                None => {
                    proof {
                        reveal_strlit("must register before publishing tasks");
                    }
                    IpcStep::Reply(IpcResponse::err(String::from_str("must register before publishing tasks")))
                },
                Some(src) => {
                    let target = inject_target(None);
                    let (task_id, envelope) = client_task(
                        controller,
                        src.as_str(),
                        node_id,
                        tenant,
                        target,
                        operation.as_str(),
                        input_json.as_str(),
                    );
                    IpcStep::Send { task_id, envelope }
                },
            }
        },
        IpcRequest::AskAgent { agent_uuid, operation, input_json } => {
            match registered {
                None => {
                    proof {
                        reveal_strlit("must register before sending tasks");
                    }
                    IpcStep::Reply(IpcResponse::err(String::from_str("must register before sending tasks")))
                },
                Some(src) => {
                    let target = inject_target(Some(agent_uuid));
                    let (task_id, envelope) = client_task(
                        controller,
                        src.as_str(),
                        node_id,
                        tenant,
                        target,
                        operation.as_str(),
                        input_json.as_str(),
                    );
                    IpcStep::Send { task_id, envelope }
                },
            }
        },
        IpcRequest::SubscribeTasks => {
            match registered {
                None => {
                    proof {
                        reveal_strlit("must register before subscribing to tasks");
                    }
                    IpcStep::Reply(IpcResponse::err(String::from_str("must register before subscribing to tasks")))
                },
                Some(_) => {
                    book.subscribed = true;
                    IpcStep::Reply(IpcResponse::ok())
                },
            }
        },
        IpcRequest::ListTasks => {
            let tasks = clone_pending_list(&book.pending);
            IpcStep::Reply(
                IpcResponse {
                    ok: true,
                    agent_uuid: None,
                    agents: None,
                    task_id: None,
                    error: None,
                    tasks: Some(tasks),
                },
            )
        },
        IpcRequest::ReplyTask { task_id, output_json, success } => {
            match registered {
                None => {
                    proof {
                        reveal_strlit("must register before replying to tasks");
                    }
                    IpcStep::Reply(IpcResponse::err(String::from_str("must register before replying to tasks")))
                },
                Some(src) => {
                    match find_pending(&book.pending, task_id.as_str()) {
                        None => {
                            proof {
                                reveal_strlit("unknown task: ");
                            }
                            IpcStep::Reply(IpcResponse::err(cat("unknown task: ", task_id.as_str())))
                        },
                        Some(i) => {
                            let ghost before = book.pending@;
                            let p = book.pending.remove(i);
                            proof {
                                assert(pending_views(book.pending@) =~= pending_views(before).remove(i as int));
                            }
                            let source = sender_identity(controller, src.as_str(), node_id, tenant);
                            let tags: Vec<String> = Vec::new();
                            assert(tags.deep_view() =~= Seq::<Seq<char>>::empty());
                            let envelope = new_task_outcome(
                                p.request_uuid.as_str(),
                                p.task_id.as_str(),
                                Some(source),
                                p.reply_to,
                                output_json.as_str(),
                                success,
                                tags,
                                30000,
                            );
                            proof {
                                assert(is_first_pending(pending_views(before), task_id@, i as int));
                            }
                            IpcStep::Answer { envelope }
                        },
                    }
                },
            }
        },
    }
}

/// The presence that announces a client going offline: when the client `registered`
/// had registered and is still known, its identity with status offline.
pub fn offline_presence(controller: &TrafficController, registered: &Option<String>) -> (r: Option<AgentPresence>)
    ensures
        match *registered {
            None => r is None,
            Some(uuid) => match identity_of(controller@.registry, uuid@) {
                None => r is None,
                Some(i) => r matches Some(p) && p@ == presence_of(i, AgentStatus::Offline, p@.started_unix_ms),
            },
        },
{
    match registered {
        None => None,
        Some(uuid) => match controller.get_identity(uuid.as_str()) {
            Some(identity) => Some(create_presence(identity, AgentStatus::Offline)),
            None => None,
        },
    }
}

/// What the daemon does when the connection of a client closes: when the client had
/// registered and is still known, its offline presence is returned to be announced; in
/// every case its registration is forgotten.
pub fn disconnect(controller: &mut TrafficController, registered: Option<String>) -> (r: Option<AgentPresence>)
    ensures
        match registered {
            None => r is None && final(controller)@ == old(controller)@,
            Some(uuid) => {
                &&& final(controller)@.registry == old(controller)@.registry.remove(uuid@)
                &&& final(controller)@.traffic == old(controller)@.traffic
                &&& match identity_of(old(controller)@.registry, uuid@) {
                    None => r is None,
                    Some(i) => r matches Some(p) && p@ == presence_of(
                        i,
                        AgentStatus::Offline,
                        p@.started_unix_ms,
                    ),
                }
            },
        },
{
    match registered {
        None => None,
        Some(uuid) => {
            let offline = match controller.get_identity(uuid.as_str()) {
                Some(identity) => Some(create_presence(identity, AgentStatus::Offline)),
                None => None,
            };
            controller.remove_agent(uuid.as_str());
            offline
        },
    }
}

/// A request sent to one agent reaches it, whichever node of the tenant sent it: the
/// key the sending node publishes it under matches the tenant-wide traffic subscription
/// of the receiving node, and the connection of the addressed client, registered and
/// subscribed, is handed the request, which becomes pending there.
pub proof fn law_unicast_request_reaches_target(
    sender: BusAddress,
    receiver: BusAddress,
    reg: Map<Seq<char>, crate::registry::RegistryEntryView>,
    uuid: Seq<char>,
    book: TaskBookView,
    e: TwilightEnvelopeView,
)
    requires
        sender.tenant@ == receiver.tenant@,
        is_literal(sender.tenant@),
        is_literal(sender.node_id@),
        is_chunk(sender.node_id@),
        is_chunk(e.message_uuid),
        book.subscribed,
        e.kind == MessageKind::TaskRequest,
        e.payload matches Some(PayloadView::TaskRequest { .. }),
        e.target matches Some(t) && t.target_kind == TargetKind::Unicast && t.target_agent_uuids.contains(uuid),
        !sent_by(e, uuid),
    ensures
        key_matches(
            topic(sender.tenant@, sender.node_id@, traffic_kind(), e.message_uuid),
            topic(receiver.tenant@, star(), traffic_kind(), star()),
        ),
        match e.payload {
            Some(PayloadView::TaskRequest { task_id, operation, input_json, .. }) => {
                &&& traffic_outcome(reg, Some(uuid), book, e).0 == Some(
                    TaskEventView::Request { task_id, from: sender_of(e), operation, input_json },
                )
                &&& traffic_outcome(reg, Some(uuid), book, e).1.pending == book.pending.push(
                    PendingTaskView {
                        task_id,
                        request_uuid: e.message_uuid,
                        from: sender_of(e),
                        operation,
                        input_json,
                        reply_to: answer_target(e),
                    },
                )
            },
            _ => false,
        },
{
    law_traffic_reaches_every_node(sender, receiver, e.message_uuid);
}

/// An answer goes back to whoever asked: when a client answers a request that was handed
/// to it, the result the daemon sends is addressed to the request's sender, and that
/// sender's connection, registered and subscribed, is handed the result of its task,
/// with the output and the success the answer gave.
pub proof fn law_answer_reaches_requester(
    e: TwilightEnvelopeView,
    p: PendingTaskView,
    answer: TwilightEnvelopeView,
    reg: Map<Seq<char>, crate::registry::RegistryEntryView>,
    src: Seq<char>,
    node_id: Seq<char>,
    tenant: Seq<char>,
    output_json: Seq<char>,
    success: bool,
    requester_reg: Map<Seq<char>, crate::registry::RegistryEntryView>,
    requester_book: TaskBookView,
)
    requires
        e.source is Some,
        e.payload matches Some(PayloadView::TaskRequest { task_id, .. }) && p.task_id == task_id,
        p.request_uuid == e.message_uuid,
        p.reply_to == answer_target(e),
        is_client_answer(answer, reg, src, node_id, tenant, p, output_json, success),
        requester_book.subscribed,
    ensures
        answer.correlation_uuid == p.task_id,
        answer.causation_uuid == e.message_uuid,
        addresses(answer.target, e.source->0.node_uuid, None),
        traffic_outcome(requester_reg, Some(e.source->0.node_uuid), requester_book, answer) == (
            Some(
                TaskEventView::Result {
                    task_id: p.task_id,
                    output_json,
                    success,
                    error_message: Seq::empty(),
                },
            ),
            requester_book,
        ),
{
    let u = e.source->0.node_uuid;
    assert(answer.target == answer_target(e));
    assert(seq![u].contains(u)) by {
        assert(seq![u][0] == u);
    }
    assert(addresses(answer.target, u, identity_of(requester_reg, u)));
}

} // verus!
