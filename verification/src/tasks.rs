//! The tasks of one client connection of the daemon: the requests the fabric hands to a
//! subscribed client, the results that come back to it, and the requests it has still to
//! answer.
use vstd::prelude::*;

use crate::identity::opt_str;
use crate::proto::{
    AgentIdentity, AgentIdentityView, MessageKind, MessageTarget, MessageTargetView, Payload,
    PayloadView, TargetKind, TwilightEnvelope, TwilightEnvelopeView, clone_identity, clone_target, opt_identity_view,
    opt_target_view,
};
use crate::registry::{RegistryEntryView, TrafficController, identity_of, seqs_share, shares_any};
use crate::strings::str_eq;

verus! {

/// A task request handed to the client and not answered yet: its task, the request
/// message, who sent it (its node UUID, or empty), what it asks, and where an answer goes.
#[derive(Clone, Debug)]
pub struct PendingTask {
    pub task_id: String,
    pub request_uuid: String,
    pub from: String,
    pub operation: String,
    pub input_json: String,
    pub reply_to: Option<MessageTarget>,
}

/// The view of a [`PendingTask`].
pub struct PendingTaskView {
    pub task_id: Seq<char>,
    pub request_uuid: Seq<char>,
    pub from: Seq<char>,
    pub operation: Seq<char>,
    pub input_json: Seq<char>,
    pub reply_to: Option<MessageTargetView>,
}

impl View for PendingTask {
    type V = PendingTaskView;

    open spec fn view(&self) -> PendingTaskView {
        PendingTaskView {
            task_id: self.task_id@,
            request_uuid: self.request_uuid@,
            from: self.from@,
            operation: self.operation@,
            input_json: self.input_json@,
            reply_to: opt_target_view(self.reply_to),
        }
    }
}

/// The views of a list of pending tasks.
pub open spec fn pending_views(v: Seq<PendingTask>) -> Seq<PendingTaskView> {
    v.map_values(|p: PendingTask| p@)
}

/// A copy of `p`.
pub fn clone_pending(p: &PendingTask) -> (r: PendingTask)
    ensures
        r@ == p@,
{
    PendingTask {
        task_id: p.task_id.clone(),
        request_uuid: p.request_uuid.clone(),
        from: p.from.clone(),
        operation: p.operation.clone(),
        input_json: p.input_json.clone(),
        reply_to: match &p.reply_to {
            Some(t) => Some(clone_target(t)),
            None => None,
        },
    }
}

/// A copy of a list of pending tasks.
pub fn clone_pending_list(v: &Vec<PendingTask>) -> (r: Vec<PendingTask>)
    ensures
        pending_views(r@) == pending_views(v@),
{
    let mut r: Vec<PendingTask> = Vec::new();
    let mut i: usize = 0;
    while i < v.len()
        invariant
            i <= v.len(),
            pending_views(r@) == pending_views(v@.subrange(0, i as int)),
        decreases v.len() - i,
    {
        let ghost old_r = r@;
        let c = clone_pending(&v[i]);
        r.push(c);
        proof {
            let w = v@.subrange(0, i + 1);
            assert(pending_views(old_r).len() == i);
            assert forall|j: int| 0 <= j < i + 1 implies pending_views(r@)[j] == pending_views(w)[j] by {
                if j < i {
                    assert(r@[j] == old_r[j]);
                    assert(pending_views(old_r)[j] == pending_views(v@.subrange(0, i as int))[j]);
                } else {
                    assert(r@[j]@ == v@[i as int]@);
                }
            }
            assert(pending_views(r@) =~= pending_views(w));
        }
        i = i + 1;
    }
    assert(v@.subrange(0, v.len() as int) =~= v@);
    r
}

/// What one client connection keeps of its tasks: whether it subscribed to task events,
/// and the requests handed to it that it has not answered, oldest first.
pub struct TaskBook {
    pub subscribed: bool,
    pub pending: Vec<PendingTask>,
}

/// The view of a [`TaskBook`].
pub struct TaskBookView {
    pub subscribed: bool,
    pub pending: Seq<PendingTaskView>,
}

impl View for TaskBook {
    type V = TaskBookView;

    open spec fn view(&self) -> TaskBookView {
        TaskBookView { subscribed: self.subscribed, pending: pending_views(self.pending@) }
    }
}

impl TaskBook {
    /// The book of a new connection: not subscribed, nothing pending.
    pub fn new() -> (r: TaskBook)
        ensures
            !r@.subscribed,
            r@.pending == Seq::<PendingTaskView>::empty(),
    {
        let r = TaskBook { subscribed: false, pending: Vec::new() };
        assert(pending_views(r.pending@) =~= Seq::<PendingTaskView>::empty());
        r
    }
}

/// An event pushed to a subscribed client.
#[derive(Clone, Debug)]
pub enum TaskEvent {
    /// A request addressed to the client.
    Request { task_id: String, from: String, operation: String, input_json: String },
    /// A result addressed to the client.
    Result { task_id: String, output_json: String, success: bool, error_message: String },
}

/// The view of a [`TaskEvent`].
pub enum TaskEventView {
    Request { task_id: Seq<char>, from: Seq<char>, operation: Seq<char>, input_json: Seq<char> },
    Result { task_id: Seq<char>, output_json: Seq<char>, success: bool, error_message: Seq<char> },
}

impl View for TaskEvent {
    type V = TaskEventView;

    open spec fn view(&self) -> TaskEventView {
        match self {
            TaskEvent::Request { task_id, from, operation, input_json } => TaskEventView::Request {
                task_id: task_id@,
                from: from@,
                operation: operation@,
                input_json: input_json@,
            },
            TaskEvent::Result { task_id, output_json, success, error_message } => TaskEventView::Result {
                task_id: task_id@,
                output_json: output_json@,
                success: *success,
                error_message: error_message@,
            },
        }
    }
}

/// The view of an optional event.
pub open spec fn opt_event_view(o: Option<TaskEvent>) -> Option<TaskEventView> {
    match o {
        Some(e) => Some(e@),
        None => None,
    }
}

/// Whether target `t` addresses the client `uuid`, whose registered identity is `me`:
/// no target and a broadcast address everybody, a unicast addresses the UUIDs it names,
/// a role or capability target the clients that share one of its roles or capabilities.
pub open spec fn addresses(t: Option<MessageTargetView>, uuid: Seq<char>, me: Option<AgentIdentityView>) -> bool {
    match t {
        None => true,
        Some(t) => match t.target_kind {
            TargetKind::Unicast => t.target_agent_uuids.contains(uuid),
            TargetKind::Role => me matches Some(i) && seqs_share(t.target_roles, i.roles),
            TargetKind::Capability => me matches Some(i) && seqs_share(t.target_capabilities, i.capabilities),
            _ => true,
        },
    }
}

/// Whether `e` was sent by the client `uuid` itself.
pub open spec fn sent_by(e: TwilightEnvelopeView, uuid: Seq<char>) -> bool {
    e.source matches Some(s) && s.node_uuid == uuid
}

/// The sender's node UUID of `e`, or empty.
pub open spec fn sender_of(e: TwilightEnvelopeView) -> Seq<char> {
    match e.source {
        Some(s) => s.node_uuid,
        None => Seq::empty(),
    }
}

/// The target of an answer to `e`: its sender's node, when it names one.
pub open spec fn answer_target(e: TwilightEnvelopeView) -> Option<MessageTargetView> {
    match e.source {
        Some(s) => Some(
            MessageTargetView {
                target_kind: TargetKind::Unicast,
                target_agent_uuids: seq![s.node_uuid],
                target_roles: Seq::empty(),
                target_capabilities: Seq::empty(),
            },
        ),
        None => None,
    }
}

/// What an envelope `e` from the fabric does to the connection of the client registered
/// as `registered` with book `book`: the event pushed to the client, if any, and the book
/// after it.
///
/// Nothing happens before the client has registered and subscribed, nor for an envelope
/// not addressed to it. A task request addressed to it by somebody else is pushed and
/// becomes pending; a task result addressed to it is pushed. Anything else is ignored.
pub open spec fn traffic_outcome(
    reg: Map<Seq<char>, RegistryEntryView>,
    registered: Option<Seq<char>>,
    book: TaskBookView,
    e: TwilightEnvelopeView,
) -> (Option<TaskEventView>, TaskBookView) {
    match registered {
        None => (None, book),
        Some(u) => if !book.subscribed || !addresses(e.target, u, identity_of(reg, u)) {
            (None, book)
        } else {
            match e.payload {
                Some(PayloadView::TaskRequest { task_id, operation, input_json, .. }) => if e.kind
                    == MessageKind::TaskRequest && !sent_by(e, u) {
                    (
                        Some(
                            TaskEventView::Request { task_id, from: sender_of(e), operation, input_json },
                        ),
                        TaskBookView {
                            subscribed: true,
                            pending: book.pending.push(
                                PendingTaskView {
                                    task_id,
                                    request_uuid: e.message_uuid,
                                    from: sender_of(e),
                                    operation,
                                    input_json,
                                    reply_to: answer_target(e),
                                },
                            ),
                        },
                    )
                } else {
                    (None, book)
                },
                Some(PayloadView::TaskResult { task_id, output_json, success, error_message }) => if e.kind
                    == MessageKind::TaskResult {
                    (Some(TaskEventView::Result { task_id, output_json, success, error_message }), book)
                } else {
                    (None, book)
                },
                _ => (None, book),
            }
        },
    }
}

/// Whether `v` names `s`.
fn names(v: &Vec<String>, s: &str) -> (r: bool)
    ensures
        r == v.deep_view().contains(s@),
{
    let mut i: usize = 0;
    while i < v.len()
        invariant
            i <= v.len(),
            forall|j: int| 0 <= j < i ==> v.deep_view()[j] != s@,
        decreases v.len() - i,
    {
        if str_eq(v[i].as_str(), s) {
            assert(v.deep_view()[i as int] == s@);
            return true;
        }
        i = i + 1;
    }
    false
}

/// Decides `addresses`.
fn targets_client(t: &Option<MessageTarget>, uuid: &str, me: &Option<AgentIdentity>) -> (r: bool)
    ensures
        r == addresses(opt_target_view(*t), uuid@, opt_identity_view(*me)),
{
    match t {
        None => true,
        Some(t) => match t.target_kind {
            TargetKind::Unicast => names(&t.target_agent_uuids, uuid),
            TargetKind::Role => match me {
                Some(i) => shares_any(&t.target_roles, &i.roles),
                None => false,
            },
            TargetKind::Capability => match me {
                Some(i) => shares_any(&t.target_capabilities, &i.capabilities),
                None => false,
            },
            _ => true,
        },
    }
}

/// Whether `e` is a task request that agent `me` is to handle: a request addressed to it
/// that it did not send itself.
pub open spec fn is_request_to_spec(e: TwilightEnvelopeView, me: AgentIdentityView) -> bool {
    &&& e.kind == MessageKind::TaskRequest
    &&& e.payload matches Some(PayloadView::TaskRequest { .. })
    &&& addresses(e.target, me.node_uuid, Some(me))
    &&& !sent_by(e, me.node_uuid)
}

/// Decides `is_request_to_spec`.
pub fn is_request_to(e: &TwilightEnvelope, me: &AgentIdentity) -> (r: bool)
    ensures
        r == is_request_to_spec(e@, me@),
{
    let is_request = match &e.payload {
        Some(Payload::TaskRequest(_)) => e.kind == MessageKind::TaskRequest,
        _ => false,
    };
    if !is_request {
        return false;
    }
    let own = match &e.source {
        Some(s) => str_eq(s.node_uuid.as_str(), me.node_uuid.as_str()),
        None => false,
    };
    if own {
        return false;
    }
    targets_client(&e.target, me.node_uuid.as_str(), &Some(clone_identity(me)))
}

/// Handles an envelope `envelope` from the fabric for the connection of the client
/// registered as `registered`: returns the event to push to the client, if any, and
/// records a request it has to answer, as `traffic_outcome` says.
pub fn on_traffic(
    controller: &TrafficController,
    registered: &Option<String>,
    book: &mut TaskBook,
    envelope: TwilightEnvelope,
) -> (r: Option<TaskEvent>)
    ensures
        (opt_event_view(r), final(book)@) == traffic_outcome(
            controller@.registry,
            opt_str(*registered),
            old(book)@,
            envelope@,
        ),
{
    let uuid = match registered {
        None => {
            return None;
        },
        Some(u) => u,
    };
    if !book.subscribed {
        return None;
    }
    let me = controller.get_identity(uuid.as_str());
    if !targets_client(&envelope.target, uuid.as_str(), &me) {
        return None;
    }
    let from = match &envelope.source {
        Some(s) => s.node_uuid.clone(),
        None => String::new(),
    };
    let own = match &envelope.source {
        Some(s) => str_eq(s.node_uuid.as_str(), uuid.as_str()),
        None => false,
    };
    let reply_to = match &envelope.source {
        Some(s) => Some(crate::envelope::unicast_to(s.node_uuid.clone())),
        None => None,
    };
    let request_uuid = envelope.message_uuid;
    let kind = envelope.kind;
    match envelope.payload {
        Some(Payload::TaskRequest(req)) => {
            if kind == MessageKind::TaskRequest && !own {
                let pending = PendingTask {
                    task_id: req.task_id.clone(),
                    request_uuid,
                    from: from.clone(),
                    operation: req.operation.clone(),
                    input_json: req.input_json.clone(),
                    reply_to,
                };
                let ghost before = book.pending@;
                book.pending.push(pending);
                proof {
                    assert(pending_views(book.pending@) =~= pending_views(before).push(
                        book.pending@.last()@,
                    ));
                }
                Some(
                    TaskEvent::Request {
                        task_id: req.task_id,
                        from,
                        operation: req.operation,
                        input_json: req.input_json,
                    },
                )
            } else {
                None
            }
        },
        Some(Payload::TaskResult(res)) => {
            if kind == MessageKind::TaskResult {
                Some(
                    TaskEvent::Result {
                        task_id: res.task_id,
                        output_json: res.output_json,
                        success: res.success,
                        error_message: res.error_message,
                    },
                )
            } else {
                None
            }
        },
        _ => None,
    }
}

/// A request addressed by role reaches the clients that play that role: a registered,
/// subscribed client whose registered identity shares a role with a role target is handed
/// a task request that somebody else sent, and that request becomes pending; a client
/// whose registered identity shares none is handed nothing.
pub proof fn law_role_request_reaches_role_holders(
    reg: Map<Seq<char>, RegistryEntryView>,
    uuid: Seq<char>,
    book: TaskBookView,
    e: TwilightEnvelopeView,
)
    requires
        book.subscribed,
        reg.dom().contains(uuid),
        e.kind == MessageKind::TaskRequest,
        e.payload matches Some(PayloadView::TaskRequest { .. }),
        e.target matches Some(t) && t.target_kind == TargetKind::Role,
        !sent_by(e, uuid),
    ensures
        seqs_share(e.target->0.target_roles, reg[uuid].identity.roles) ==> {
            &&& traffic_outcome(reg, Some(uuid), book, e).0 matches Some(TaskEventView::Request { task_id, .. })
                && e.payload matches Some(PayloadView::TaskRequest { task_id: asked, .. }) && task_id == asked
            &&& traffic_outcome(reg, Some(uuid), book, e).1.pending.len() == book.pending.len() + 1
            &&& traffic_outcome(reg, Some(uuid), book, e).1.pending.last().request_uuid == e.message_uuid
        },
        !seqs_share(e.target->0.target_roles, reg[uuid].identity.roles) ==> traffic_outcome(
            reg,
            Some(uuid),
            book,
            e,
        ) == (None::<TaskEventView>, book),
{
}

/// A request addressed by capability reaches the clients that have it: a registered,
/// subscribed client whose registered identity shares a capability with a capability
/// target is handed a task request that somebody else sent, and that request becomes
/// pending.
pub proof fn law_capability_request_reaches_capable_clients(
    reg: Map<Seq<char>, RegistryEntryView>,
    uuid: Seq<char>,
    book: TaskBookView,
    e: TwilightEnvelopeView,
)
    requires
        book.subscribed,
        reg.dom().contains(uuid),
        e.kind == MessageKind::TaskRequest,
        e.payload matches Some(PayloadView::TaskRequest { .. }),
        e.target matches Some(t) && t.target_kind == TargetKind::Capability,
        seqs_share(e.target->0.target_capabilities, reg[uuid].identity.capabilities),
        !sent_by(e, uuid),
    ensures
        traffic_outcome(reg, Some(uuid), book, e).0 matches Some(TaskEventView::Request { .. }),
        traffic_outcome(reg, Some(uuid), book, e).1.pending.len() == book.pending.len() + 1,
        traffic_outcome(reg, Some(uuid), book, e).1.pending.last().request_uuid == e.message_uuid,
{
}

/// A request to everybody is a request to every agent: a task request with a broadcast
/// target, or with no target at all, that some other agent sent is one that agent `me`
/// is to handle, whoever `me` is.
pub proof fn law_broadcast_request_is_for_everybody(e: TwilightEnvelopeView, me: AgentIdentityView)
    requires
        e.kind == MessageKind::TaskRequest,
        e.payload matches Some(PayloadView::TaskRequest { .. }),
        e.target is None || e.target->0.target_kind == TargetKind::Broadcast,
        !sent_by(e, me.node_uuid),
    ensures
        is_request_to_spec(e, me),
{
}

/// A subscribed client is handed every request to everybody that another agent sends,
/// and it becomes pending.
pub proof fn law_broadcast_request_reaches_every_client(
    reg: Map<Seq<char>, RegistryEntryView>,
    uuid: Seq<char>,
    book: TaskBookView,
    e: TwilightEnvelopeView,
)
    requires
        book.subscribed,
        e.kind == MessageKind::TaskRequest,
        e.payload matches Some(PayloadView::TaskRequest { .. }),
        e.target is None || e.target->0.target_kind == TargetKind::Broadcast,
        !sent_by(e, uuid),
    ensures
        traffic_outcome(reg, Some(uuid), book, e).0 matches Some(TaskEventView::Request { .. }),
        traffic_outcome(reg, Some(uuid), book, e).1.pending.len() == book.pending.len() + 1,
{
}

} // verus!
