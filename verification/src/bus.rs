//! The fabric's key space on the bus and the heartbeat message.
//!
//! Every key has the shape `twilight/{tenant}/{node}/{kind}/{last}`; subscriptions use
//! `*` for one chunk of a key (a non-empty run without `/`).
use vstd::prelude::*;
use vstd::string::StringExecFns;

use crate::proto::{AgentPresence, AgentStatus, Heartbeat, HeartbeatView};
use crate::sources::{max_unix_ms, now_unix_ms};

verus! {

/// Where a node publishes on the bus: its tenant and its node identifier.
#[derive(Clone, Debug)]
pub struct BusAddress {
    pub tenant: String,
    pub node_id: String,
}

/// `twilight/{tenant}/{node}/{kind}/{last}`.
pub open spec fn topic(tenant: Seq<char>, node: Seq<char>, kind: Seq<char>, last: Seq<char>) -> Seq<char> {
    "twilight/"@ + tenant + "/"@ + node + "/"@ + kind + "/"@ + last
}

/// The one-chunk wildcard.
pub open spec fn star() -> Seq<char> {
    seq!['*']
}

/// The kind chunk of traffic keys.
pub open spec fn traffic_kind() -> Seq<char> {
    seq!['t', 'r', 'a', 'f', 'f', 'i', 'c']
}

/// The kind chunk of presence keys.
pub open spec fn presence_kind() -> Seq<char> {
    seq!['p', 'r', 'e', 's', 'e', 'n', 'c', 'e']
}

/// The kind chunk of heartbeat keys.
pub open spec fn heartbeat_kind() -> Seq<char> {
    seq!['h', 'e', 'a', 'r', 't', 'b', 'e', 'a', 't']
}

/// The kind chunk of JSON signal keys.
pub open spec fn signal_kind() -> Seq<char> {
    seq!['s', 'i', 'g', 'n', 'a', 'l']
}

/// The last chunk of a presence key: the announcing node's UUID, or `"unknown"`.
pub open spec fn presence_subject(p: crate::proto::AgentPresenceView) -> Seq<char> {
    match p.identity {
        Some(id) => id.node_uuid,
        None => seq!['u', 'n', 'k', 'n', 'o', 'w', 'n'],
    }
}

fn make_topic(tenant: &str, node: &str, kind: &str, last: &str) -> (r: String)
    ensures
        r@ == topic(tenant@, node@, kind@, last@),
{
    let a = String::from_str("twilight/");
    let b = a.concat(tenant);
    let c = b.concat("/");
    let d = c.concat(node);
    let e = d.concat("/");
    let f = e.concat(kind);
    let g = f.concat("/");
    g.concat(last)
}

impl BusAddress {
    /// The key an envelope with UUID `message_uuid` is published under.
    pub fn traffic_key(&self, message_uuid: &str) -> (r: String)
        ensures
            r@ == topic(self.tenant@, self.node_id@, traffic_kind(), message_uuid@),
    {
        proof {
            reveal_strlit("traffic");
            assert("traffic"@ =~= traffic_kind());
        }
        make_topic(self.tenant.as_str(), self.node_id.as_str(), "traffic", message_uuid)
    }

    /// The key the JSON mirror of a message of kind `kind` is published under.
    pub fn signal_key(&self, kind: &str) -> (r: String)
        ensures
            r@ == topic(self.tenant@, self.node_id@, signal_kind(), kind@),
    {
        proof {
            reveal_strlit("signal");
            assert("signal"@ =~= signal_kind());
        }
        make_topic(self.tenant.as_str(), self.node_id.as_str(), "signal", kind)
    }

    /// The key presence `presence` is published under.
    pub fn presence_key(&self, presence: &AgentPresence) -> (r: String)
        ensures
            r@ == topic(self.tenant@, self.node_id@, presence_kind(), presence_subject(presence@)),
    {
        proof {
            reveal_strlit("presence");
            reveal_strlit("unknown");
            assert("presence"@ =~= presence_kind());
            assert("unknown"@ =~= seq!['u', 'n', 'k', 'n', 'o', 'w', 'n']);
        }
        let subject: &str = match &presence.identity {
            Some(id) => id.node_uuid.as_str(),
            None => "unknown",
        };
        make_topic(self.tenant.as_str(), self.node_id.as_str(), "presence", subject)
    }

    /// The key heartbeat `heartbeat` is published under.
    pub fn heartbeat_key(&self, heartbeat: &Heartbeat) -> (r: String)
        ensures
            r@ == topic(self.tenant@, self.node_id@, heartbeat_kind(), heartbeat@.node_id),
    {
        proof {
            reveal_strlit("heartbeat");
            assert("heartbeat"@ =~= heartbeat_kind());
        }
        make_topic(self.tenant.as_str(), self.node_id.as_str(), "heartbeat", heartbeat.node_id.as_str())
    }

    /// This node's presence announcements: `twilight/{tenant}/{node}/presence/*`.
    pub fn local_presence_pattern(&self) -> (r: String)
        ensures
            r@ == topic(self.tenant@, self.node_id@, presence_kind(), star()),
    {
        proof {
            reveal_strlit("presence");
            reveal_strlit("*");
            assert("presence"@ =~= presence_kind());
            assert("*"@ =~= star());
        }
        make_topic(self.tenant.as_str(), self.node_id.as_str(), "presence", "*")
    }

    /// This node's traffic: `twilight/{tenant}/{node}/traffic/*`.
    pub fn local_traffic_pattern(&self) -> (r: String)
        ensures
            r@ == topic(self.tenant@, self.node_id@, traffic_kind(), star()),
    {
        proof {
            reveal_strlit("traffic");
            reveal_strlit("*");
            assert("traffic"@ =~= traffic_kind());
            assert("*"@ =~= star());
        }
        make_topic(self.tenant.as_str(), self.node_id.as_str(), "traffic", "*")
    }

    /// This node's heartbeats: `twilight/{tenant}/{node}/heartbeat/*`.
    pub fn local_heartbeat_pattern(&self) -> (r: String)
        ensures
            r@ == topic(self.tenant@, self.node_id@, heartbeat_kind(), star()),
    {
        proof {
            reveal_strlit("heartbeat");
            reveal_strlit("*");
            assert("heartbeat"@ =~= heartbeat_kind());
            assert("*"@ =~= star());
        }
        make_topic(self.tenant.as_str(), self.node_id.as_str(), "heartbeat", "*")
    }

    /// Presence from every node of the tenant: `twilight/{tenant}/*/presence/*`.
    pub fn tenant_presence_pattern(&self) -> (r: String)
        ensures
            r@ == topic(self.tenant@, star(), presence_kind(), star()),
    {
        proof {
            reveal_strlit("presence");
            reveal_strlit("*");
            assert("presence"@ =~= presence_kind());
            assert("*"@ =~= star());
        }
        make_topic(self.tenant.as_str(), "*", "presence", "*")
    }

    /// Traffic from every node of the tenant: `twilight/{tenant}/*/traffic/*`. An agent
    /// listens here for the requests addressed to it, whichever node sent them.
    pub fn tenant_traffic_pattern(&self) -> (r: String)
        ensures
            r@ == topic(self.tenant@, star(), traffic_kind(), star()),
    {
        proof {
            reveal_strlit("traffic");
            reveal_strlit("*");
            assert("traffic"@ =~= traffic_kind());
            assert("*"@ =~= star());
        }
        make_topic(self.tenant.as_str(), "*", "traffic", "*")
    }

    /// Heartbeats from every node of the tenant: `twilight/{tenant}/*/heartbeat/*`.
    pub fn tenant_heartbeat_pattern(&self) -> (r: String)
        ensures
            r@ == topic(self.tenant@, star(), heartbeat_kind(), star()),
    {
        proof {
            reveal_strlit("heartbeat");
            reveal_strlit("*");
            assert("heartbeat"@ =~= heartbeat_kind());
            assert("*"@ =~= star());
        }
        make_topic(self.tenant.as_str(), "*", "heartbeat", "*")
    }
}

/// The heartbeat of `node_id` at time `now`: online, no active and no queued task.
pub open spec fn heartbeat_of(node_id: Seq<char>, now: i64) -> HeartbeatView {
    HeartbeatView {
        node_id,
        status: AgentStatus::Online,
        timestamp_unix_ms: now,
        active_tasks: 0,
        queued_tasks: 0,
    }
}

/// Builds the heartbeat that `heartbeat_of` describes.
pub fn heartbeat_at(node_id: String, now: i64) -> (h: Heartbeat)
    ensures
        h@ == heartbeat_of(node_id@, now),
{
    Heartbeat {
        node_id,
        status: AgentStatus::Online,
        timestamp_unix_ms: now,
        active_tasks: 0,
        queued_tasks: 0,
    }
}

/// The heartbeat of `node_id`, stamped with the wall clock.
pub fn new_heartbeat(node_id: String) -> (h: Heartbeat)
    ensures
        0 <= h@.timestamp_unix_ms < max_unix_ms(),
        h@ == heartbeat_of(node_id@, h@.timestamp_unix_ms),
{
    let now = now_unix_ms();
    heartbeat_at(node_id, now)
}

// ── Key expressions ─────────────────────────────────────────────────────────

/// Whether key `k` matches pattern `p`, where a `*` of the pattern stands for one
/// chunk: a non-empty run of characters other than `/`.
pub open spec fn key_matches(k: Seq<char>, p: Seq<char>) -> bool
    decreases k.len() + p.len(),
{
    if p.len() == 0 {
        k.len() == 0
    } else if k.len() == 0 {
        false
    } else if p[0] == '*' {
        k[0] != '/' && (key_matches(k.drop_first(), p.drop_first()) || key_matches(
            k.drop_first(),
            p,
        ))
    } else {
        k[0] == p[0] && key_matches(k.drop_first(), p.drop_first())
    }
}

/// Whether `s` can fill one chunk of a key: non-empty, without `/`.
pub open spec fn is_chunk(s: Seq<char>) -> bool {
    s.len() > 0 && !s.contains('/')
}

/// Whether `s` holds no wildcard.
pub open spec fn is_literal(s: Seq<char>) -> bool {
    !s.contains('*')
}

proof fn lemma_literal_prefix(a: Seq<char>, k: Seq<char>, p: Seq<char>)
    requires
        is_literal(a),
    ensures
        key_matches(a + k, a + p) == key_matches(k, p),
    decreases a.len(),
{
    if a.len() > 0 {
        assert(a[0] != '*') by {
            assert(a[0] == a[0]);
        }
        assert((a + k).drop_first() =~= a.drop_first() + k);
        assert((a + p).drop_first() =~= a.drop_first() + p);
        assert(is_literal(a.drop_first())) by {
            if a.drop_first().contains('*') {
                let i = choose|i: int| 0 <= i < a.drop_first().len() && a.drop_first()[i] == '*';
                assert(a[i + 1] == '*');
            }
        }
        lemma_literal_prefix(a.drop_first(), k, p);
    } else {
        assert(a + k =~= k);
        assert(a + p =~= p);
    }
}

proof fn lemma_star_takes_chunk(c: Seq<char>, k: Seq<char>, p: Seq<char>)
    requires
        is_chunk(c),
        key_matches(k, p),
    ensures
        key_matches(c + k, star() + p),
    decreases c.len(),
{
    let kk = c + k;
    let pp = star() + p;
    assert(kk[0] == c[0]);
    assert(c[0] != '/') by {
        if c[0] == '/' {
            assert(c.contains('/'));
        }
    }
    assert(pp[0] == '*');
    assert(pp.drop_first() =~= p);
    if c.len() == 1 {
        assert(kk.drop_first() =~= k);
    } else {
        let rest = c.drop_first();
        assert(kk.drop_first() =~= rest + k);
        assert(is_chunk(rest)) by {
            if rest.contains('/') {
                let i = choose|i: int| 0 <= i < rest.len() && rest[i] == '/';
                assert(c[i + 1] == '/');
            }
        }
        lemma_star_takes_chunk(rest, k, p);
    }
}

proof fn lemma_topic_matches(
    tenant: Seq<char>,
    node: Seq<char>,
    kind: Seq<char>,
    last: Seq<char>,
    node_pattern: Seq<char>,
)
    requires
        is_literal(tenant),
        is_literal(kind),
        is_chunk(node),
        is_chunk(last),
        node_pattern == node || node_pattern == star(),
        node_pattern == node ==> is_literal(node),
    ensures
        key_matches(topic(tenant, node, kind, last), topic(tenant, node_pattern, kind, star())),
{
    reveal_strlit("twilight/");
    reveal_strlit("/");
    let a = "twilight/"@ + tenant + "/"@;
    let b = "/"@ + kind + "/"@;
    assert(is_literal(a)) by {
        if a.contains('*') {
            let i = choose|i: int| 0 <= i < a.len() && a[i] == '*';
            if 9 <= i < 9 + tenant.len() {
                assert(tenant[i - 9] == '*');
            }
        }
    }
    assert(is_literal(b)) by {
        if b.contains('*') {
            let i = choose|i: int| 0 <= i < b.len() && b[i] == '*';
            if 1 <= i < 1 + kind.len() {
                assert(kind[i - 1] == '*');
            }
        }
    }
    assert(topic(tenant, node, kind, last) =~= a + (node + (b + last)));
    assert(topic(tenant, node_pattern, kind, star()) =~= a + (node_pattern + (b + star())));
    // the last chunk
    assert(key_matches(Seq::<char>::empty(), Seq::<char>::empty()));
    assert(last =~= last + Seq::<char>::empty());
    assert(star() =~= star() + Seq::<char>::empty());
    lemma_star_takes_chunk(last, Seq::empty(), Seq::empty());
    // the kind
    lemma_literal_prefix(b, last, star());
    // the node
    if node_pattern == star() {
        lemma_star_takes_chunk(node, b + last, b + star());
    } else {
        lemma_literal_prefix(node, b + last, b + star());
    }
    // the tenant
    lemma_literal_prefix(a, node + (b + last), node_pattern + (b + star()));
}

/// Cross-node visibility: whatever node of a tenant announces presence or beats, the
/// tenant-wide subscriptions `twilight/{tenant}/*/presence/*` and
/// `twilight/{tenant}/*/heartbeat/*` receive it, and so do the announcing node's own
/// subscriptions. Node identifiers and subjects must be chunks (non-empty, no `/`) and
/// tenants and nodes literal (no `*`), as keys on the bus are.
pub proof fn law_announcements_reach_subscribers(
    tenant: Seq<char>,
    node: Seq<char>,
    subject: Seq<char>,
)
    requires
        is_literal(tenant),
        is_literal(node),
        is_chunk(node),
        is_chunk(subject),
    ensures
        key_matches(
            topic(tenant, node, presence_kind(), subject),
            topic(tenant, star(), presence_kind(), star()),
        ),
        key_matches(
            topic(tenant, node, heartbeat_kind(), subject),
            topic(tenant, star(), heartbeat_kind(), star()),
        ),
        key_matches(
            topic(tenant, node, presence_kind(), subject),
            topic(tenant, node, presence_kind(), star()),
        ),
        key_matches(
            topic(tenant, node, heartbeat_kind(), subject),
            topic(tenant, node, heartbeat_kind(), star()),
        ),
        key_matches(
            topic(tenant, node, traffic_kind(), subject),
            topic(tenant, node, traffic_kind(), star()),
        ),
{
    assert(is_literal(presence_kind())) by {
        if presence_kind().contains('*') {
            let i = choose|i: int| 0 <= i < presence_kind().len() && presence_kind()[i] == '*';
        }
    }
    assert(is_literal(heartbeat_kind())) by {
        if heartbeat_kind().contains('*') {
            let i = choose|i: int| 0 <= i < heartbeat_kind().len() && heartbeat_kind()[i] == '*';
        }
    }
    assert(is_literal(traffic_kind())) by {
        if traffic_kind().contains('*') {
            let i = choose|i: int| 0 <= i < traffic_kind().len() && traffic_kind()[i] == '*';
        }
    }
    lemma_topic_matches(tenant, node, presence_kind(), subject, star());
    lemma_topic_matches(tenant, node, heartbeat_kind(), subject, star());
    lemma_topic_matches(tenant, node, presence_kind(), subject, node);
    lemma_topic_matches(tenant, node, heartbeat_kind(), subject, node);
    lemma_topic_matches(tenant, node, traffic_kind(), subject, node);
}

/// Cross-node delivery: an envelope that any node of a tenant publishes reaches every
/// tenant-wide traffic subscription of that tenant, on whatever node it was declared.
/// The sending node and the message UUID must be chunks (non-empty, no `/`) and the
/// tenant and node literal (no `*`), as keys on the bus are.
pub proof fn law_traffic_reaches_every_node(
    sender: BusAddress,
    receiver: BusAddress,
    message_uuid: Seq<char>,
)
    requires
        sender.tenant@ == receiver.tenant@,
        is_literal(sender.tenant@),
        is_literal(sender.node_id@),
        is_chunk(sender.node_id@),
        is_chunk(message_uuid),
    ensures
        key_matches(
            topic(sender.tenant@, sender.node_id@, traffic_kind(), message_uuid),
            topic(receiver.tenant@, star(), traffic_kind(), star()),
        ),
{
    assert(is_literal(traffic_kind())) by {
        if traffic_kind().contains('*') {
            let i = choose|i: int| 0 <= i < traffic_kind().len() && traffic_kind()[i] == '*';
        }
    }
    lemma_topic_matches(sender.tenant@, sender.node_id@, traffic_kind(), message_uuid, star());
}

proof fn lemma_literal_prefix_required(a: Seq<char>, k: Seq<char>, p: Seq<char>)
    requires
        is_literal(a),
        key_matches(k, a + p),
    ensures
        a.len() <= k.len(),
        k.subrange(0, a.len() as int) == a,
    decreases a.len(),
{
    if a.len() > 0 {
        assert(a[0] != '*') by {
            assert(a[0] == a[0]);
        }
        assert((a + p)[0] == a[0]);
        assert((a + p).drop_first() =~= a.drop_first() + p);
        assert(is_literal(a.drop_first())) by {
            if a.drop_first().contains('*') {
                let i = choose|i: int| 0 <= i < a.drop_first().len() && a.drop_first()[i] == '*';
                assert(a[i + 1] == '*');
            }
        }
        assert(k.len() > 0 && k[0] == a[0] && key_matches(k.drop_first(), a.drop_first() + p));
        lemma_literal_prefix_required(a.drop_first(), k.drop_first(), p);
        assert forall|i: int| 0 <= i < a.len() implies k.subrange(0, a.len() as int)[i] == a[i] by {
            if i > 0 {
                assert(k.drop_first().subrange(0, a.len() - 1)[i - 1] == a.drop_first()[i - 1]);
            }
        }
        assert(k.subrange(0, a.len() as int) =~= a);
    } else {
        assert(k.subrange(0, 0) =~= a);
    }
}

/// A node's own subscriptions stay its own: a presence, heartbeat or traffic key
/// published by one node never matches the node-local pattern of another node.
pub proof fn law_local_subscriptions_exclude_other_nodes(
    tenant: Seq<char>,
    node: Seq<char>,
    other: Seq<char>,
    kind: Seq<char>,
    subject: Seq<char>,
)
    requires
        is_literal(tenant),
        is_literal(kind),
        is_literal(other),
        is_chunk(node),
        is_chunk(other),
        node != other,
    ensures
        !key_matches(topic(tenant, node, kind, subject), topic(tenant, other, kind, star())),
{
    reveal_strlit("twilight/");
    reveal_strlit("/");
    let a = "twilight/"@ + tenant + "/"@;
    let b = "/"@ + kind + "/"@;
    assert(is_literal(a)) by {
        if a.contains('*') {
            let i = choose|i: int| 0 <= i < a.len() && a[i] == '*';
            if 9 <= i < 9 + tenant.len() {
                assert(tenant[i - 9] == '*');
            }
        }
    }
    let ob = other + b;
    assert(is_literal(ob)) by {
        if ob.contains('*') {
            let i = choose|i: int| 0 <= i < ob.len() && ob[i] == '*';
            if i < other.len() {
                assert(other[i] == '*');
            } else if 1 <= i - other.len() < 1 + kind.len() {
                assert(kind[i - other.len() - 1] == '*');
            }
        }
    }
    let k = node + (b + subject);
    assert(topic(tenant, node, kind, subject) =~= a + k);
    assert(topic(tenant, other, kind, star()) =~= a + (ob + star()));
    lemma_literal_prefix(a, k, ob + star());
    if key_matches(k, ob + star()) {
        lemma_literal_prefix_required(ob, k, star());
        let m = k.subrange(0, ob.len() as int);
        assert(m == ob);
        if node.len() == other.len() {
            assert(node =~= other) by {
                assert forall|i: int| 0 <= i < node.len() implies node[i] == other[i] by {
                    assert(m[i] == k[i]);
                    assert(ob[i] == other[i]);
                }
            }
        } else if node.len() < other.len() {
            let i = node.len() as int;
            assert(k[i] == '/');
            assert(m[i] == k[i]);
            assert(ob[i] == other[i]);
            assert(other.contains('/'));
        } else {
            let i = other.len() as int;
            assert(k[i] == node[i]);
            assert(m[i] == k[i]);
            assert(ob[i] == '/');
            assert(node.contains('/'));
        }
    }
}

} // verus!
