//! The client side of the daemon's local protocol, as the MCP shim and the bridges use
//! it: the commands it sends and how it reads the daemon's answers.
use vstd::prelude::*;
use vstd::string::StringExecFns;

use crate::json::{joined_members, json_bool, json_member, json_object, json_string};
use crate::strings::{trim, trimmed};

verus! {

/// A command a client sends to the daemon.
#[derive(Clone, Debug)]
pub enum DaemonCommand {
    Register { name: String, role: String },
    SubscribeTasks,
    GetRegistry,
    PublishTask { operation: String, input_json: String },
    AskAgent { agent_uuid: String, operation: String, input_json: String },
    ReplyTask { task_id: String, output_json: String, success: bool },
}

/// What a client reads in a line from the daemon: the `ok` flag, the fields it may
/// carry, and whether the line is a pushed event (it has an `event` field) rather than
/// the answer to a command.
#[derive(Clone, Debug)]
pub struct DaemonReply {
    pub ok: Option<bool>,
    pub agent_uuid: Option<String>,
    pub task_id: Option<String>,
    pub error: Option<String>,
    pub is_event: bool,
}

/// Why a client's command did not succeed.
#[derive(Clone, Debug)]
pub enum ClientError {
    /// The answer to `register` carried no agent UUID.
    RegistrationRejected,
    /// The answer to `subscribe_tasks` was not a success.
    SubscribeRejected,
    /// The daemon answered with this error.
    Daemon(String),
    /// The answer carried neither an error nor a task id.
    MissingTaskId,
    /// The answer to `reply_task` was not a success.
    ReplyRejected,
    /// The connection closed before an answer came.
    ConnectionClosed,
    /// A line from the daemon is not JSON.
    InvalidJson,
}

/// The agent UUID a registration answer grants.
pub fn registration_uuid(reply: &DaemonReply) -> (r: Result<String, ClientError>)
    ensures
        match reply.agent_uuid {
            Some(u) => r matches Ok(v) && v@ == u@,
            None => r matches Err(ClientError::RegistrationRejected),
        },
{
    match &reply.agent_uuid {
        Some(u) => Ok(u.clone()),
        None => Err(ClientError::RegistrationRejected),
    }
}

/// Whether the answer to `subscribe_tasks` is a success (`ok` is `true`).
pub fn check_subscribed(reply: &DaemonReply) -> (r: Result<(), ClientError>)
    ensures
        reply.ok == Some(true) <==> r is Ok,
        r is Err ==> r matches Err(ClientError::SubscribeRejected),
{
    match reply.ok {
        Some(true) => Ok(()),
        _ => Err(ClientError::SubscribeRejected),
    }
}

/// The task id of an answer to `publish_task` or `ask_agent`: an error the daemon
/// reports comes first, then the task id.
pub fn extract_task_id(reply: &DaemonReply) -> (r: Result<String, ClientError>)
    ensures
        match reply.error {
            Some(e) => r matches Err(ClientError::Daemon(m)) && m@ == e@,
            None => match reply.task_id {
                Some(t) => r matches Ok(v) && v@ == t@,
                None => r matches Err(ClientError::MissingTaskId),
            },
        },
{
    match &reply.error {
        Some(e) => Err(ClientError::Daemon(e.clone())),
        None => match &reply.task_id {
            Some(t) => Ok(t.clone()),
            None => Err(ClientError::MissingTaskId),
        },
    }
}

/// Whether the answer to `reply_task` is a success (`ok` is `true`).
pub fn check_replied(reply: &DaemonReply) -> (r: Result<(), ClientError>)
    ensures
        reply.ok == Some(true) <==> r is Ok,
        r is Err ==> r matches Err(ClientError::ReplyRejected),
{
    match reply.ok {
        Some(true) => Ok(()),
        _ => Err(ClientError::ReplyRejected),
    }
}

/// Where a line from the daemon goes: pushed events to the task queue, everything else
/// to the waiting command.
pub fn routes_to_task_queue(reply: &DaemonReply) -> (r: bool)
    ensures
        r == reply.is_event,
{
    reply.is_event
}

/// Takes every queued item, leaving the queue empty.
pub fn drain_pending<T>(queue: &mut Vec<T>) -> (r: Vec<T>)
    ensures
        r@ == old(queue)@,
        final(queue)@.len() == 0,
{
    let mut taken: Vec<T> = Vec::new();
    std::mem::swap(queue, &mut taken);
    taken
}

// ── Reading the daemon's lines ───────────────────────────────────────────────

/// What `serde_json` reads of a line: `None` when the line is not JSON; otherwise the
/// line's `ok` member when it is a boolean, its `agent_uuid`, `task_id` and `error`
/// members when they are strings, and whether it has an `event` member.
pub uninterp spec fn reply_fields(line: Seq<char>) -> Option<
    (Option<bool>, Option<Seq<char>>, Option<Seq<char>>, Option<Seq<char>>, bool),
>;

/// The view of a reply: its fields as `reply_fields` lists them.
pub open spec fn reply_view(r: DaemonReply) -> (
    Option<bool>,
    Option<Seq<char>>,
    Option<Seq<char>>,
    Option<Seq<char>>,
    bool,
) {
    (
        r.ok,
        match r.agent_uuid {
            Some(s) => Some(s@),
            None => None,
        },
        match r.task_id {
            Some(s) => Some(s@),
            None => None,
        },
        match r.error {
            Some(s) => Some(s@),
            None => None,
        },
        r.is_event,
    )
}

/// `serde_json::from_str::<serde_json::Value>(line)`, then the members a client reads:
/// `value["ok"].as_bool()`, `value["agent_uuid"].as_str()`, `value["task_id"].as_str()`,
/// `value["error"].as_str()` and `value.get("event").is_some()`. A value that is not an
/// object has none of these members.
///
/// What the parser accepts and finds takes the JSON grammar to state, so the result is
/// named: `reply_fields`.
#[verifier::external_body]
fn parse_reply(line: &str) -> (r: Option<DaemonReply>)
    ensures
        match r {
            Some(reply) => reply_fields(line@) == Some(reply_view(reply)),
            None => reply_fields(line@) is None,
        },
{
    serde_json::from_str::<serde_json::Value>(line).ok().map(|v| DaemonReply {
        ok: v["ok"].as_bool(),
        agent_uuid: v["agent_uuid"].as_str().map(|s| s.to_string()),
        task_id: v["task_id"].as_str().map(|s| s.to_string()),
        error: v["error"].as_str().map(|s| s.to_string()),
        is_event: v.get("event").is_some(),
    })
}

/// Reads a line from the daemon: the line without surrounding white space, parsed as
/// JSON; an error when it is not JSON.
pub fn read_reply(line: &str) -> (r: Result<DaemonReply, ClientError>)
    ensures
        match reply_fields(trimmed(line@)) {
            Some(f) => r matches Ok(reply) && reply_view(reply) == f,
            None => r matches Err(ClientError::InvalidJson),
        },
{
    let t = trim(line);
    match parse_reply(t.as_str()) {
        Some(reply) => Ok(reply),
        None => Err(ClientError::InvalidJson),
    }
}

/// The agent UUID that the daemon's answer line `line` to `register` grants: an error
/// when the line is not JSON or carries no agent UUID.
pub fn registration_from_line(line: &str) -> (r: Result<String, ClientError>)
    ensures
        match reply_fields(trimmed(line@)) {
            None => r matches Err(ClientError::InvalidJson),
            Some(f) => match f.1 {
                Some(u) => r matches Ok(v) && v@ == u,
                None => r matches Err(ClientError::RegistrationRejected),
            },
        },
{
    let reply = read_reply(line)?;
    registration_uuid(&reply)
}

/// Whether the daemon's answer line `line` to `subscribe_tasks` is a success: an error
/// when the line is not JSON or its `ok` is not `true`.
pub fn subscription_from_line(line: &str) -> (r: Result<(), ClientError>)
    ensures
        match reply_fields(trimmed(line@)) {
            None => r matches Err(ClientError::InvalidJson),
            Some(f) => if f.0 == Some(true) {
                r is Ok
            } else {
                r matches Err(ClientError::SubscribeRejected)
            },
        },
{
    let reply = read_reply(line)?;
    check_subscribed(&reply)
}

// ── Sorting the daemon's lines ───────────────────────────────────────────────

/// Whether `line` from the daemon is a pushed event: JSON with an `event` member.
pub open spec fn is_event_line(line: Seq<char>) -> bool {
    reply_fields(trimmed(line)) matches Some(f) && f.4
}

/// Whether `line` from the daemon answers a command: JSON without an `event` member.
pub open spec fn is_answer_line(line: Seq<char>) -> bool {
    reply_fields(trimmed(line)) matches Some(f) && !f.4
}

/// The test that picks the event lines out of a run of lines.
pub open spec fn event_lines() -> spec_fn(String) -> bool {
    |l: String| is_event_line(l@)
}

/// The queue of pending events after line `line` arrived at queue `q`: an event line
/// joins its end, any other line leaves it as it was.
pub open spec fn routed(q: Seq<String>, line: String) -> Seq<String> {
    if is_event_line(line@) {
        q.push(line)
    } else {
        q
    }
}

/// The queue after the lines `lines` arrived, in order, at queue `q`.
pub open spec fn queue_after(q: Seq<String>, lines: Seq<String>) -> Seq<String>
    decreases lines.len(),
{
    if lines.len() == 0 {
        q
    } else {
        routed(queue_after(q, lines.drop_last()), lines.last())
    }
}

/// Sorts a line that arrived from the daemon: a pushed event joins the end of `queue`;
/// the answer to a command is handed back to go to the command that waits for it; a line
/// that is not JSON is dropped.
pub fn route_line(queue: &mut Vec<String>, line: String) -> (r: Option<String>)
    ensures
        final(queue)@ == routed(old(queue)@, line),
        r matches Some(a) ==> a == line,
        r is Some <==> is_answer_line(line@),
{
    match read_reply(line.as_str()) {
        Ok(reply) => {
            if routes_to_task_queue(&reply) {
                queue.push(line);
                None
            } else {
                Some(line)
            }
        },
        Err(_) => None,
    }
}

/// Pending events come back in the order they arrived, and only events: whatever lines
/// arrive, one after another, at an empty queue, the queue then holds exactly the event
/// lines among them, in arrival order (and `drain_pending` hands them all out, leaving
/// the queue empty).
pub proof fn law_events_queued_in_arrival_order(lines: Seq<String>)
    ensures
        queue_after(Seq::empty(), lines) == lines.filter(event_lines()),
    decreases lines.len(),
{
    if lines.len() > 0 {
        let init = lines.drop_last();
        law_events_queued_in_arrival_order(init);
        assert(lines =~= init.push(lines.last()));
        init.lemma_filter_push(lines.last(), event_lines());
    } else {
        assert(lines.filter(event_lines()) =~= Seq::<String>::empty()) by {
            reveal(Seq::filter);
        }
    }
}

// ── Writing commands ─────────────────────────────────────────────────────────

/// Appends a character to a string: `String::push`.
pub assume_specification[ String::push ](s: &mut String, ch: char)
    ensures
        final(s)@ == old(s)@.push(ch),
;

/// The JSON text of a command, as `serde_json` writes the object of its members: the
/// command's name under `cmd`, its parameters under their names, members in the order
/// of their keys.
pub open spec fn command_text(cmd: DaemonCommand) -> Seq<char> {
    let cmd_is = |name: Seq<char>| json_member("cmd"@, json_string(name));
    match cmd {
        DaemonCommand::Register { name, role } => json_object(
            seq![
                cmd_is("register"@),
                json_member("name"@, json_string(name@)),
                json_member("role"@, json_string(role@)),
            ],
        ),
        DaemonCommand::SubscribeTasks => json_object(seq![cmd_is("subscribe_tasks"@)]),
        DaemonCommand::GetRegistry => json_object(seq![cmd_is("get_registry"@)]),
        DaemonCommand::PublishTask { operation, input_json } => json_object(
            seq![
                cmd_is("publish_task"@),
                json_member("input_json"@, json_string(input_json@)),
                json_member("operation"@, json_string(operation@)),
            ],
        ),
        DaemonCommand::AskAgent { agent_uuid, operation, input_json } => json_object(
            seq![
                json_member("agent_uuid"@, json_string(agent_uuid@)),
                cmd_is("ask_agent"@),
                json_member("input_json"@, json_string(input_json@)),
                json_member("operation"@, json_string(operation@)),
            ],
        ),
        DaemonCommand::ReplyTask { task_id, output_json, success } => json_object(
            seq![
                cmd_is("reply_task"@),
                json_member("output_json"@, json_string(output_json@)),
                json_member("success"@, json_bool(success)),
                json_member("task_id"@, json_string(task_id@)),
            ],
        ),
    }
}

/// `serde_json::to_string(s)` for a string `s`: `serialize_str` writes a quote, each
/// character escaped by `serde_json`'s escape table, and a quote (`json_string`).
/// Writing to the `Vec<u8>` that `to_string` fills never fails, so the error arm is never
/// taken.
#[verifier::external_body]
fn json_quoted(s: &str) -> (r: String)
    ensures
        r@ == json_string(s@),
{
    serde_json::to_string(s).unwrap_or_default()
}

/// Appends `s` as a JSON string to `out`.
fn push_json_string(out: &mut String, s: &str)
    ensures
        final(out)@ == old(out)@ + json_string(s@),
{
    let q = json_quoted(s);
    out.append(q.as_str());
}

/// Appends the member `key: s` to `out`, `s` written as a JSON string.
fn push_string_member(out: &mut String, key: &str, s: &str)
    ensures
        final(out)@ == old(out)@ + json_member(key@, json_string(s@)),
{
    let ghost start = out@;
    push_json_string(out, key);
    out.push(':');
    push_json_string(out, s);
    assert(out@ =~= start + json_member(key@, json_string(s@)));
}

proof fn lemma_joined(a: Seq<char>, b: Seq<char>, c: Seq<char>, d: Seq<char>)
    ensures
        joined_members(seq![a]) == a,
        joined_members(seq![a, b]) == a + seq![','] + b,
        joined_members(seq![a, b, c]) == a + seq![','] + b + seq![','] + c,
        joined_members(seq![a, b, c, d]) == a + seq![','] + b + seq![','] + c + seq![','] + d,
{
    reveal_with_fuel(joined_members, 5);
    assert(seq![a, b].drop_last() =~= seq![a]);
    assert(seq![a, b, c].drop_last() =~= seq![a, b]);
    assert(seq![a, b, c].drop_last().drop_last() =~= seq![a]);
    assert(seq![a, b, c, d].drop_last() =~= seq![a, b, c]);
    assert(seq![a, b, c, d].drop_last().drop_last() =~= seq![a, b]);
    assert(seq![a, b, c, d].drop_last().drop_last().drop_last() =~= seq![a]);
}

/// The line of an object with one string member, the command's name.
fn line1(cmd: &str) -> (r: String)
    ensures
        r@ == json_object(seq![json_member("cmd"@, json_string(cmd@))]) + seq!['\n'],
{
    proof {
        reveal_strlit("cmd");
    }
    let mut out = String::new();
    out.push('{');
    push_string_member(&mut out, "cmd", cmd);
    out.push('}');
    out.push('\n');
    proof {
        lemma_joined(json_member("cmd"@, json_string(cmd@)), Seq::empty(), Seq::empty(), Seq::empty());
        assert(out@ =~= json_object(seq![json_member("cmd"@, json_string(cmd@))]) + seq!['\n']);
    }
    out
}

/// The line of an object with three string members.
fn line3(k1: &str, v1: &str, k2: &str, v2: &str, k3: &str, v3: &str) -> (r: String)
    ensures
        r@ == json_object(
            seq![
                json_member(k1@, json_string(v1@)),
                json_member(k2@, json_string(v2@)),
                json_member(k3@, json_string(v3@)),
            ],
        ) + seq!['\n'],
{
    let mut out = String::new();
    out.push('{');
    push_string_member(&mut out, k1, v1);
    out.push(',');
    push_string_member(&mut out, k2, v2);
    out.push(',');
    push_string_member(&mut out, k3, v3);
    out.push('}');
    out.push('\n');
    proof {
        let (a, b, c) = (
            json_member(k1@, json_string(v1@)),
            json_member(k2@, json_string(v2@)),
            json_member(k3@, json_string(v3@)),
        );
        lemma_joined(a, b, c, Seq::empty());
        assert(out@ =~= json_object(seq![a, b, c]) + seq!['\n']);
    }
    out
}

/// The line of an object with four string members.
fn line4(k1: &str, v1: &str, k2: &str, v2: &str, k3: &str, v3: &str, k4: &str, v4: &str) -> (r: String)
    ensures
        r@ == json_object(
            seq![
                json_member(k1@, json_string(v1@)),
                json_member(k2@, json_string(v2@)),
                json_member(k3@, json_string(v3@)),
                json_member(k4@, json_string(v4@)),
            ],
        ) + seq!['\n'],
{
    let mut out = String::new();
    out.push('{');
    push_string_member(&mut out, k1, v1);
    out.push(',');
    push_string_member(&mut out, k2, v2);
    out.push(',');
    push_string_member(&mut out, k3, v3);
    out.push(',');
    push_string_member(&mut out, k4, v4);
    out.push('}');
    out.push('\n');
    proof {
        let (a, b, c, d) = (
            json_member(k1@, json_string(v1@)),
            json_member(k2@, json_string(v2@)),
            json_member(k3@, json_string(v3@)),
            json_member(k4@, json_string(v4@)),
        );
        lemma_joined(a, b, c, d);
        assert(out@ =~= json_object(seq![a, b, c, d]) + seq!['\n']);
    }
    out
}

/// The line of `reply_task`.
fn reply_line(task_id: &str, output_json: &str, success: bool) -> (r: String)
    ensures
        r@ == json_object(
            seq![
                json_member("cmd"@, json_string("reply_task"@)),
                json_member("output_json"@, json_string(output_json@)),
                json_member("success"@, json_bool(success)),
                json_member("task_id"@, json_string(task_id@)),
            ],
        ) + seq!['\n'],
{
    let mut out = String::new();
    out.push('{');
    push_string_member(&mut out, "cmd", "reply_task");
    out.push(',');
    push_string_member(&mut out, "output_json", output_json);
    out.push(',');
    let ghost before = out@;
    push_json_string(&mut out, "success");
    out.push(':');
    if success {
        out.append("true");
    } else {
        out.append("false");
    }
    proof {
        reveal_strlit("true");
        reveal_strlit("false");
        assert(out@ =~= before + json_member("success"@, json_bool(success)));
    }
    out.push(',');
    push_string_member(&mut out, "task_id", task_id);
    out.push('}');
    out.push('\n');
    proof {
        let (a, b, c, d) = (
            json_member("cmd"@, json_string("reply_task"@)),
            json_member("output_json"@, json_string(output_json@)),
            json_member("success"@, json_bool(success)),
            json_member("task_id"@, json_string(task_id@)),
        );
        lemma_joined(a, b, c, d);
        assert(out@ =~= json_object(seq![a, b, c, d]) + seq!['\n']);
    }
    out
}

/// The line a client writes for command `cmd`: its JSON text, then a line break.
pub fn command_line(cmd: &DaemonCommand) -> (r: String)
    ensures
        r@ == command_text(*cmd) + seq!['\n'],
{
    match cmd {
        DaemonCommand::Register { name, role } => line3(
            "cmd",
            "register",
            "name",
            name.as_str(),
            "role",
            role.as_str(),
        ),
        DaemonCommand::SubscribeTasks => line1("subscribe_tasks"),
        DaemonCommand::GetRegistry => line1("get_registry"),
        DaemonCommand::PublishTask { operation, input_json } => line3(
            "cmd",
            "publish_task",
            "input_json",
            input_json.as_str(),
            "operation",
            operation.as_str(),
        ),
        DaemonCommand::AskAgent { agent_uuid, operation, input_json } => line4(
            "agent_uuid",
            agent_uuid.as_str(),
            "cmd",
            "ask_agent",
            "input_json",
            input_json.as_str(),
            "operation",
            operation.as_str(),
        ),
        DaemonCommand::ReplyTask { task_id, output_json, success } => reply_line(
            task_id.as_str(),
            output_json.as_str(),
            *success,
        ),
    }
}

} // verus!
