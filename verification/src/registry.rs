//! The traffic controller: a registry of the agents seen on the fabric, keyed by
//! their node UUID, and a matrix that counts the messages sent from one node to another.
//! Both live in `dashmap::DashMap`s; the contents of each map is named below and every
//! call into `dashmap` goes through a wrapper whose contract speaks of those contents.
use dashmap::DashMap;
use vstd::prelude::*;

use crate::proto::{
    AgentIdentity, AgentIdentityView, AgentPresence, AgentPresenceView, AgentStatus, Heartbeat,
    HeartbeatView, MessageTarget, MessageTargetView, TargetKind, TwilightEnvelope, clone_identity,
    clone_strings,
};
use crate::sources::{max_unix_ns, now_unix_ns};

verus! {

#[verifier::external_type_specification]
#[verifier::external_body]
#[verifier::reject_recursive_types(K)]
#[verifier::reject_recursive_types(V)]
#[verifier::reject_recursive_types(S)]
pub struct ExDashMap<K, V, S>(DashMap<K, V, S>);

/// What the registry remembers of one agent.
#[derive(Clone, Debug)]
pub struct RegistryEntry {
    pub identity: AgentIdentity,
    /// When the agent was last heard of, in nanoseconds since the Unix epoch.
    pub last_seen: i128,
    pub status: AgentStatus,
}

/// The view of a [`RegistryEntry`].
pub struct RegistryEntryView {
    pub identity: AgentIdentityView,
    pub last_seen: i128,
    pub status: AgentStatus,
}

impl View for RegistryEntry {
    type V = RegistryEntryView;

    open spec fn view(&self) -> RegistryEntryView {
        RegistryEntryView { identity: self.identity@, last_seen: self.last_seen, status: self.status }
    }
}

/// The contents of a registry map: node UUID to entry.
pub uninterp spec fn registry_contents(m: DashMap<String, RegistryEntry>) -> Map<
    Seq<char>,
    RegistryEntryView,
>;

/// The contents of a traffic matrix: (source node, target node) to message count.
pub uninterp spec fn traffic_contents(m: DashMap<(String, String), u64>) -> Map<
    (Seq<char>, Seq<char>),
    u64,
>;

/// A registry with nobody in it.
pub open spec fn empty_registry() -> Map<Seq<char>, RegistryEntryView> {
    Map::empty()
}

/// A traffic matrix with no message counted.
pub open spec fn empty_traffic() -> Map<(Seq<char>, Seq<char>), u64> {
    Map::empty()
}

/// The keys of a listing of registry entries.
pub open spec fn entry_keys(v: Seq<(String, RegistryEntry)>) -> Seq<Seq<char>> {
    v.map_values(|e: (String, RegistryEntry)| e.0@)
}

/// `v` lists every entry of `c` exactly once.
pub open spec fn lists_registry(v: Seq<(String, RegistryEntry)>, c: Map<Seq<char>, RegistryEntryView>) -> bool {
    &&& entry_keys(v).no_duplicates()
    &&& forall|k: Seq<char>| c.dom().contains(k) <==> entry_keys(v).contains(k)
    &&& forall|i: int| 0 <= i < v.len() ==> c[#[trigger] v[i].0@] == v[i].1@
}

/// The keys of a listing of traffic counters.
pub open spec fn cell_keys(v: Seq<((String, String), u64)>) -> Seq<(Seq<char>, Seq<char>)> {
    v.map_values(|e: ((String, String), u64)| (e.0.0@, e.0.1@))
}

/// `v` lists every counter of `c` exactly once.
pub open spec fn lists_traffic(v: Seq<((String, String), u64)>, c: Map<(Seq<char>, Seq<char>), u64>) -> bool {
    &&& cell_keys(v).no_duplicates()
    &&& forall|k: (Seq<char>, Seq<char>)| c.dom().contains(k) <==> cell_keys(v).contains(k)
    &&& forall|i: int| 0 <= i < v.len() ==> c[#[trigger] cell_keys(v)[i]] == v[i].1
}

/// `DashMap::new()` for the registry: an empty map.
#[verifier::external_body]
fn registry_new() -> (m: DashMap<String, RegistryEntry>)
    ensures
        registry_contents(m) == empty_registry(),
{
    DashMap::new()
}

/// `DashMap::insert` on the registry: the key now maps to the entry.
#[verifier::external_body]
fn registry_insert(m: &mut DashMap<String, RegistryEntry>, key: String, entry: RegistryEntry)
    ensures
        registry_contents(*final(m)) == registry_contents(*old(m)).insert(key@, entry@),
{
    m.insert(key, entry);
}

/// `DashMap::get` on the registry, the entry found copied out.
#[verifier::external_body]
fn registry_get(m: &DashMap<String, RegistryEntry>, key: &str) -> (r: Option<RegistryEntry>)
    ensures
        r is Some <==> registry_contents(*m).dom().contains(key@),
        r matches Some(e) ==> e@ == registry_contents(*m)[key@],
{
    m.get(key).map(|e| e.value().clone())
}

/// `DashMap::remove` on the registry: the key is gone, the rest stays.
#[verifier::external_body]
fn registry_remove(m: &mut DashMap<String, RegistryEntry>, key: &str)
    ensures
        registry_contents(*final(m)) == registry_contents(*old(m)).remove(key@),
{
    m.remove(key);
}

/// `DashMap::iter` on the registry, each entry copied out. The order is the map's
/// own and is left open; each entry comes exactly once.
#[verifier::external_body]
fn registry_entries(m: &DashMap<String, RegistryEntry>) -> (v: Vec<(String, RegistryEntry)>)
    ensures
        lists_registry(v@, registry_contents(*m)),
{
    m.iter().map(|e| (e.key().clone(), e.value().clone())).collect()
}

/// `DashMap::new()` for the traffic matrix: an empty map.
#[verifier::external_body]
fn traffic_new() -> (m: DashMap<(String, String), u64>)
    ensures
        traffic_contents(m) == empty_traffic(),
{
    DashMap::new()
}

/// `DashMap::insert` on the traffic matrix: the cell now holds the count.
#[verifier::external_body]
fn traffic_insert(m: &mut DashMap<(String, String), u64>, key: (String, String), count: u64)
    ensures
        traffic_contents(*final(m)) == traffic_contents(*old(m)).insert((key.0@, key.1@), count),
{
    m.insert(key, count);
}

/// `DashMap::get` on the traffic matrix, the count found copied out.
#[verifier::external_body]
fn traffic_get(m: &DashMap<(String, String), u64>, key: &(String, String)) -> (r: Option<u64>)
    ensures
        r is Some <==> traffic_contents(*m).dom().contains((key.0@, key.1@)),
        r matches Some(c) ==> c == traffic_contents(*m)[(key.0@, key.1@)],
{
    m.get(key).map(|e| *e.value())
}

/// `DashMap::iter` on the traffic matrix, each cell copied out. The order is the map's
/// own and is left open; each cell comes exactly once.
#[verifier::external_body]
fn traffic_entries(m: &DashMap<(String, String), u64>) -> (v: Vec<((String, String), u64)>)
    ensures
        lists_traffic(v@, traffic_contents(*m)),
{
    m.iter().map(|e| (e.key().clone(), *e.value())).collect()
}

/// The state of a [`TrafficController`] as mathematics.
pub struct ControllerView {
    pub registry: Map<Seq<char>, RegistryEntryView>,
    pub traffic: Map<(Seq<char>, Seq<char>), u64>,
}

/// The registry after `p` was announced at time `now`: an announcement without an
/// identity changes nothing, one with an identity (re)places the entry under its node UUID.
pub open spec fn presence_applied(
    reg: Map<Seq<char>, RegistryEntryView>,
    p: AgentPresenceView,
    now: i128,
) -> Map<Seq<char>, RegistryEntryView> {
    match p.identity {
        Some(id) => reg.insert(
            id.node_uuid,
            RegistryEntryView { identity: id, last_seen: now, status: p.status },
        ),
        None => reg,
    }
}

/// The registry after heartbeat `hb` arrived at time `now`: a known node's last-seen
/// time moves to `now`; an unknown node is not added.
pub open spec fn heartbeat_applied(
    reg: Map<Seq<char>, RegistryEntryView>,
    hb: HeartbeatView,
    now: i128,
) -> Map<Seq<char>, RegistryEntryView> {
    if reg.dom().contains(hb.node_id) {
        reg.insert(
            hb.node_id,
            RegistryEntryView {
                identity: reg[hb.node_id].identity,
                last_seen: now,
                status: reg[hb.node_id].status,
            },
        )
    } else {
        reg
    }
}

/// The identity registered under `uuid`, if any.
pub open spec fn identity_of(reg: Map<Seq<char>, RegistryEntryView>, uuid: Seq<char>) -> Option<
    AgentIdentityView,
> {
    if reg.dom().contains(uuid) {
        Some(reg[uuid].identity)
    } else {
        None
    }
}

/// Views of a sequence of identities.
pub open spec fn identity_views(v: Seq<AgentIdentity>) -> Seq<AgentIdentityView> {
    v.map_values(|i: AgentIdentity| i@)
}

/// The traffic controller: agent registry plus traffic analytics.
///
/// Every operation that changes a map takes `&mut self`, so that its contract can say
/// what the maps hold afterwards; a controller shared between tasks sits behind a lock.
pub struct TrafficController {
    registry: DashMap<String, RegistryEntry>,
    traffic_matrix: DashMap<(String, String), u64>,
}

impl View for TrafficController {
    type V = ControllerView;

    closed spec fn view(&self) -> ControllerView {
        ControllerView {
            registry: registry_contents(self.registry),
            traffic: traffic_contents(self.traffic_matrix),
        }
    }
}

impl TrafficController {
    /// An empty registry and an empty traffic matrix.
    pub fn new() -> (c: TrafficController)
        ensures
            c@.registry == empty_registry(),
            c@.traffic == empty_traffic(),
    {
        TrafficController { registry: registry_new(), traffic_matrix: traffic_new() }
    }

    /// Records presence `presence` as seen at time `now`.
    pub fn update_presence_at(&mut self, presence: AgentPresence, now: i128)
        ensures
            final(self)@.registry == presence_applied(old(self)@.registry, presence@, now),
            final(self)@.traffic == old(self)@.traffic,
    {
        let status = presence.status;
        match presence.identity {
            Some(identity) => {
                let key = identity.node_uuid.clone();
                registry_insert(
                    &mut self.registry,
                    key,
                    RegistryEntry { identity, last_seen: now, status },
                );
            },
            None => {},
        }
    }

    /// Records presence `presence` as seen now, by the wall clock.
    pub fn update_presence(&mut self, presence: AgentPresence)
        ensures
            exists|now: i128|
                0 <= now < max_unix_ns() && final(self)@.registry == #[trigger] presence_applied(
                    old(self)@.registry,
                    presence@,
                    now,
                ),
            final(self)@.traffic == old(self)@.traffic,
    {
        let now = now_unix_ns();
        self.update_presence_at(presence, now);
    }

    /// Records heartbeat `heartbeat` as received at time `now`.
    pub fn update_heartbeat_at(&mut self, heartbeat: Heartbeat, now: i128)
        ensures
            final(self)@.registry == heartbeat_applied(old(self)@.registry, heartbeat@, now),
            final(self)@.traffic == old(self)@.traffic,
    {
        match registry_get(&self.registry, heartbeat.node_id.as_str()) {
            Some(entry) => {
                let refreshed = RegistryEntry {
                    identity: entry.identity,
                    last_seen: now,
                    status: entry.status,
                };
                registry_insert(&mut self.registry, heartbeat.node_id, refreshed);
            },
            None => {},
        }
    }

    /// Records heartbeat `heartbeat` as received now, by the wall clock.
    pub fn update_heartbeat(&mut self, heartbeat: Heartbeat)
        ensures
            exists|now: i128|
                0 <= now < max_unix_ns() && final(self)@.registry == #[trigger] heartbeat_applied(
                    old(self)@.registry,
                    heartbeat@,
                    now,
                ),
            final(self)@.traffic == old(self)@.traffic,
    {
        let now = now_unix_ns();
        self.update_heartbeat_at(heartbeat, now);
    }

    /// The identity registered under `uuid`, if any.
    pub fn get_identity(&self, uuid: &str) -> (r: Option<AgentIdentity>)
        ensures
            match r {
                Some(i) => identity_of(self@.registry, uuid@) == Some(i@),
                None => identity_of(self@.registry, uuid@) is None,
            },
    {
        match registry_get(&self.registry, uuid) {
            Some(entry) => Some(entry.identity),
            None => None,
        }
    }

    /// Forgets the agent registered under `uuid`.
    pub fn remove_agent(&mut self, uuid: &str)
        ensures
            final(self)@.registry == old(self)@.registry.remove(uuid@),
            final(self)@.traffic == old(self)@.traffic,
    {
        registry_remove(&mut self.registry, uuid);
    }
}


/// Whether some string occurs in both `a` and `b`.
pub open spec fn seqs_share(a: Seq<Seq<char>>, b: Seq<Seq<char>>) -> bool {
    exists|i: int, j: int| 0 <= i < a.len() && 0 <= j < b.len() && #[trigger] a[i] == #[trigger] b[j]
}

/// Whether target `t` addresses the agent of entry `e`, for the kinds of target that
/// are resolved against the registry: by a shared role, by a shared capability, or
/// everybody for a broadcast or an unspecified kind.
pub open spec fn selects(t: MessageTargetView, e: RegistryEntryView) -> bool {
    match t.target_kind {
        TargetKind::Role => seqs_share(t.target_roles, e.identity.roles),
        TargetKind::Capability => seqs_share(t.target_capabilities, e.identity.capabilities),
        _ => true,
    }
}

/// `ks` names every key of `reg` exactly once.
pub open spec fn lists_keys(ks: Seq<Seq<char>>, reg: Map<Seq<char>, RegistryEntryView>) -> bool {
    &&& ks.no_duplicates()
    &&& forall|k: Seq<char>| reg.dom().contains(k) <==> ks.contains(k)
}

/// `ks` names, each once, exactly the keys of `reg` whose entries satisfy `p`.
pub open spec fn lists_keys_where(
    ks: Seq<Seq<char>>,
    reg: Map<Seq<char>, RegistryEntryView>,
    p: spec_fn(RegistryEntryView) -> bool,
) -> bool {
    &&& ks.no_duplicates()
    &&& forall|k: Seq<char>| ks.contains(k) <==> (reg.dom().contains(k) && p(reg[k]))
}

/// Whether some string of `a` equals some string of `b`.
pub(crate) fn shares_any(a: &Vec<String>, b: &Vec<String>) -> (r: bool)
    ensures
        r == seqs_share(a.deep_view(), b.deep_view()),
{
    let mut i: usize = 0;
    while i < a.len()
        invariant
            i <= a.len(),
            forall|x: int, y: int|
                0 <= x < i && 0 <= y < b.len() ==> a.deep_view()[x] != b.deep_view()[y],
        decreases a.len() - i,
    {
        let mut j: usize = 0;
        while j < b.len()
            invariant
                i < a.len(),
                j <= b.len(),
                forall|x: int, y: int|
                    0 <= x < i && 0 <= y < b.len() ==> a.deep_view()[x] != b.deep_view()[y],
                forall|y: int| 0 <= y < j ==> a.deep_view()[i as int] != b.deep_view()[y],
            decreases b.len() - j,
        {
            if a[i] == b[j] {
                assert(a.deep_view()[i as int] == b.deep_view()[j as int]);
                return true;
            }
            j = j + 1;
        }
        i = i + 1;
    }
    false
}

/// Decides `selects`.
fn target_selects(t: &MessageTarget, e: &RegistryEntry) -> (r: bool)
    ensures
        r == selects(t@, e@),
{
    match t.target_kind {
        TargetKind::Role => shares_any(&t.target_roles, &e.identity.roles),
        TargetKind::Capability => shares_any(&t.target_capabilities, &e.identity.capabilities),
        _ => true,
    }
}

/// The keys at the flagged positions of a listing, in listing order.
fn collect_flagged(v: &Vec<(String, RegistryEntry)>, flags: &Vec<bool>) -> (r: Vec<String>)
    requires
        entry_keys(v@).no_duplicates(),
        flags@.len() == v@.len(),
    ensures
        r.deep_view().no_duplicates(),
        forall|k: Seq<char>|
            r.deep_view().contains(k) <==> exists|i: int|
                0 <= i < v@.len() && flags@[i] && #[trigger] entry_keys(v@)[i] == k,
{
    let mut r: Vec<String> = Vec::new();
    let ghost mut idxs: Seq<int> = Seq::empty();
    let mut i: usize = 0;
    while i < v.len()
        invariant
            i <= v@.len(),
            flags@.len() == v@.len(),
            entry_keys(v@).no_duplicates(),
            idxs.len() == r@.len(),
            forall|a: int| 0 <= a < idxs.len() ==> 0 <= #[trigger] idxs[a] < i && flags@[idxs[a]],
            forall|a: int, b: int| 0 <= a < b < idxs.len() ==> idxs[a] < idxs[b],
            forall|a: int| 0 <= a < idxs.len() ==> r.deep_view()[a] == #[trigger] entry_keys(v@)[idxs[a]],
            forall|x: int|
                0 <= x < i && flags@[x] ==> exists|a: int| 0 <= a < idxs.len() && #[trigger] idxs[a] == x,
        decreases v@.len() - i,
    {
        let ghost prev = idxs;
        if flags[i] {
            let k = v[i].0.clone();
            proof {
                assert(entry_keys(v@)[i as int] == k@);
            }
            r.push(k);
            proof {
                idxs = idxs.push(i as int);
                assert(idxs[idxs.len() - 1] == i);
            }
        }
        proof {
            assert forall|x: int| 0 <= x < i + 1 && flags@[x] implies exists|a: int|
                0 <= a < idxs.len() && #[trigger] idxs[a] == x by {
                if x < i {
                    let a = choose|a: int| 0 <= a < prev.len() && #[trigger] prev[a] == x;
                    assert(idxs[a] == x);
                } else {
                    assert(idxs[idxs.len() - 1] == x);
                }
            }
        }
        i = i + 1;
    }
    proof {
        let keys = entry_keys(v@);
        assert forall|a: int, b: int|
            0 <= a < r.deep_view().len() && 0 <= b < r.deep_view().len() && a != b implies r.deep_view()[a]
            != r.deep_view()[b] by {
            assert(r.deep_view()[a] == keys[idxs[a]]);
            assert(r.deep_view()[b] == keys[idxs[b]]);
            assert(idxs[a] != idxs[b]);
        }
        assert forall|k: Seq<char>|
            r.deep_view().contains(k) <==> exists|x: int|
                0 <= x < v@.len() && flags@[x] && #[trigger] keys[x] == k by {
            if r.deep_view().contains(k) {
                let a = choose|a: int| 0 <= a < r.deep_view().len() && r.deep_view()[a] == k;
                assert(keys[idxs[a]] == k);
            }
            if exists|x: int| 0 <= x < v@.len() && flags@[x] && #[trigger] keys[x] == k {
                let x = choose|x: int| 0 <= x < v@.len() && flags@[x] && #[trigger] keys[x] == k;
                let a = choose|a: int| 0 <= a < idxs.len() && #[trigger] idxs[a] == x;
                assert(r.deep_view()[a] == k);
            }
        }
    }
    r
}

impl TrafficController {
    /// The node UUIDs that `target` resolves to. A unicast target names its recipients
    /// itself and they come back as given, duplicates and unknown nodes included. A role
    /// or capability target resolves to the registered agents that share one of its
    /// roles or capabilities; any other kind resolves to every registered agent. Those
    /// come back once each, in the registry's own order.
    pub fn get_targets(&self, target: &MessageTarget) -> (r: Vec<String>)
        ensures
            target@.target_kind == TargetKind::Unicast ==> r.deep_view()
                == target@.target_agent_uuids,
            target@.target_kind != TargetKind::Unicast ==> lists_keys_where(
                r.deep_view(),
                self@.registry,
                |e: RegistryEntryView| selects(target@, e),
            ),
    {
        match target.target_kind {
            TargetKind::Unicast => clone_strings(&target.target_agent_uuids),
            _ => {
                let entries = registry_entries(&self.registry);
                let mut flags: Vec<bool> = Vec::new();
                let mut i: usize = 0;
                while i < entries.len()
                    invariant
                        i <= entries@.len(),
                        flags@.len() == i,
                        forall|x: int| 0 <= x < i ==> flags@[x] == selects(target@, #[trigger] entries@[x].1@),
                    decreases entries@.len() - i,
                {
                    flags.push(target_selects(target, &entries[i].1));
                    i = i + 1;
                }
                let r = collect_flagged(&entries, &flags);
                proof {
                    let reg = self@.registry;
                    let keys = entry_keys(entries@);
                    assert forall|k: Seq<char>|
                        r.deep_view().contains(k) <==> (reg.dom().contains(k) && selects(target@, reg[k])) by {
                        if reg.dom().contains(k) && selects(target@, reg[k]) {
                            assert(keys.contains(k));
                            let x = choose|x: int| 0 <= x < keys.len() && keys[x] == k;
                            assert(reg[entries@[x].0@] == entries@[x].1@);
                            assert(flags@[x]);
                        }
                        if r.deep_view().contains(k) {
                            let x = choose|x: int| 0 <= x < entries@.len() && flags@[x] && #[trigger] keys[x] == k;
                            assert(reg[entries@[x].0@] == entries@[x].1@);
                            assert(keys.contains(k));
                        }
                    }
                }
                r
            },
        }
    }

    /// Every registered identity, once each, in the registry's own order.
    pub fn get_all_identities(&self) -> (r: Vec<AgentIdentity>)
        ensures
            exists|ks: Seq<Seq<char>>|
                #[trigger] lists_keys(ks, self@.registry) && identity_views(r@) == ks.map_values(
                    |k: Seq<char>| self@.registry[k].identity,
                ),
    {
        let entries = registry_entries(&self.registry);
        let mut r: Vec<AgentIdentity> = Vec::new();
        let mut i: usize = 0;
        while i < entries.len()
            invariant
                i <= entries@.len(),
                r@.len() == i,
                forall|x: int| 0 <= x < i ==> (#[trigger] r@[x])@ == entries@[x].1.identity@,
            decreases entries@.len() - i,
        {
            r.push(clone_identity(&entries[i].1.identity));
            i = i + 1;
        }
        proof {
            let ks = entry_keys(entries@);
            let reg = self@.registry;
            assert forall|x: int| 0 <= x < r@.len() implies identity_views(r@)[x] == ks.map_values(
                |k: Seq<char>| reg[k].identity,
            )[x] by {
                assert(reg[entries@[x].0@] == entries@[x].1@);
            }
            assert(identity_views(r@) =~= ks.map_values(|k: Seq<char>| reg[k].identity));
            assert(lists_keys(ks, reg));
        }
        r
    }
}


/// How many times `t` occurs in `s`.
pub open spec fn occurrences(s: Seq<Seq<char>>, t: Seq<char>) -> nat
    decreases s.len(),
{
    if s.len() == 0 {
        0
    } else {
        occurrences(s.drop_last(), t) + if s.last() == t { 1nat } else { 0nat }
    }
}

proof fn lemma_occurrences_prefix(s: Seq<Seq<char>>, j: int, t: Seq<char>)
    requires
        0 <= j <= s.len(),
    ensures
        occurrences(s.subrange(0, j), t) <= occurrences(s, t),
    decreases s.len(),
{
    if j < s.len() {
        assert(s.drop_last() =~= s.subrange(0, s.len() - 1));
        lemma_occurrences_prefix(s.drop_last(), j, t);
        assert(s.drop_last().subrange(0, j) =~= s.subrange(0, j));
    } else {
        assert(s.subrange(0, j) =~= s);
    }
}

proof fn lemma_occurrences_positive_contains(s: Seq<Seq<char>>, t: Seq<char>)
    requires
        occurrences(s, t) > 0,
    ensures
        s.contains(t),
    decreases s.len(),
{
    if s.last() == t {
        assert(s[s.len() - 1] == t);
    } else {
        lemma_occurrences_positive_contains(s.drop_last(), t);
        let i = choose|i: int| 0 <= i < s.drop_last().len() && s.drop_last()[i] == t;
        assert(s[i] == t);
    }
}

proof fn lemma_occurrences_distinct(s: Seq<Seq<char>>, t: Seq<char>)
    requires
        s.no_duplicates(),
    ensures
        occurrences(s, t) == if s.contains(t) { 1nat } else { 0nat },
    decreases s.len(),
{
    if s.len() > 0 {
        let p = s.drop_last();
        assert(p.no_duplicates());
        lemma_occurrences_distinct(p, t);
        if s.last() == t {
            assert(s[s.len() - 1] == t);
            if p.contains(t) {
                let i = choose|i: int| 0 <= i < p.len() && p[i] == t;
                assert(s[i] == s[s.len() - 1]);
            }
        } else {
            if s.contains(t) {
                let i = choose|i: int| 0 <= i < s.len() && s[i] == t;
                assert(p[i] == t);
            }
            if p.contains(t) {
                let i = choose|i: int| 0 <= i < p.len() && p[i] == t;
                assert(s[i] == t);
            }
        }
    }
}

/// The placeholder source of an envelope that names no sender.
pub open spec fn unknown_node() -> Seq<char> {
    seq!['u', 'n', 'k', 'n', 'o', 'w', 'n']
}

/// The node an envelope's traffic is counted from.
pub open spec fn source_key(env: crate::proto::TwilightEnvelopeView) -> Seq<char> {
    match env.source {
        Some(id) => id.node_uuid,
        None => unknown_node(),
    }
}

/// How many times node `t` is counted as a recipient of an envelope with target
/// `target`: as often as a unicast target names it; once if a resolved target selects
/// its registered agent; once if it is registered and the envelope names no target.
pub open spec fn recipients(
    reg: Map<Seq<char>, RegistryEntryView>,
    target: Option<MessageTargetView>,
    t: Seq<char>,
) -> nat {
    match target {
        Some(tv) => if tv.target_kind == TargetKind::Unicast {
            occurrences(tv.target_agent_uuids, t)
        } else if reg.dom().contains(t) && selects(tv, reg[t]) {
            1
        } else {
            0
        },
        None => if reg.dom().contains(t) {
            1
        } else {
            0
        },
    }
}

/// The count in cell `k`, zero for a cell never written.
pub open spec fn count_of(m: Map<(Seq<char>, Seq<char>), u64>, k: (Seq<char>, Seq<char>)) -> int {
    if m.dom().contains(k) {
        m[k] as int
    } else {
        0
    }
}

/// `after` is `before` with one more message counted from `src` to each recipient,
/// a recipient counted `n(t)` times getting `n(t)` more.
pub open spec fn counts_added(
    before: Map<(Seq<char>, Seq<char>), u64>,
    after: Map<(Seq<char>, Seq<char>), u64>,
    src: Seq<char>,
    n: spec_fn(Seq<char>) -> nat,
) -> bool {
    &&& forall|k: (Seq<char>, Seq<char>)|
        #[trigger] after.dom().contains(k) <==> (before.dom().contains(k) || (k.0 == src && n(k.1) > 0))
    &&& forall|k: (Seq<char>, Seq<char>)|
        #[trigger] after.dom().contains(k) ==> after[k] == count_of(before, k) + if k.0 == src {
            n(k.1) as int
        } else {
            0
        }
}

/// Whether counting envelope `env` against registry `reg` keeps every cell of
/// `traffic` within `u64`.
pub open spec fn fits_in_counters(
    traffic: Map<(Seq<char>, Seq<char>), u64>,
    reg: Map<Seq<char>, RegistryEntryView>,
    env: crate::proto::TwilightEnvelopeView,
) -> bool {
    forall|t: Seq<char>|
        count_of(traffic, (source_key(env), t)) + #[trigger] recipients(reg, env.target, t)
            <= u64::MAX
}

/// Whether `n` is one end of some counted edge.
pub open spec fn is_endpoint(traffic: Map<(Seq<char>, Seq<char>), u64>, n: Seq<char>) -> bool {
    exists|k: (Seq<char>, Seq<char>)| #[trigger] traffic.dom().contains(k) && (k.0 == n || k.1 == n)
}

/// Whether entry `e` has not been heard of for longer than `timeout_seconds` at time `now`.
pub open spec fn is_stale(e: RegistryEntryView, now: int, timeout_seconds: int) -> bool {
    now - e.last_seen > timeout_seconds * 1_000_000_000
}

/// The registry without the entries that are stale at `now`.
pub open spec fn stale_removed(
    reg: Map<Seq<char>, RegistryEntryView>,
    now: int,
    timeout_seconds: int,
) -> Map<Seq<char>, RegistryEntryView> {
    reg.remove_keys(reg.dom().filter(|k: Seq<char>| is_stale(reg[k], now, timeout_seconds)))
}

/// What a cleanup at time `now` does: `removed` lists the stale agents and the
/// registry keeps exactly the others.
pub open spec fn cleaned_up(
    before: ControllerView,
    after: ControllerView,
    removed: Seq<Seq<char>>,
    now: int,
    timeout_seconds: int,
) -> bool {
    &&& lists_keys_where(
        removed,
        before.registry,
        |e: RegistryEntryView| is_stale(e, now, timeout_seconds),
    )
    &&& after.registry == stale_removed(before.registry, now, timeout_seconds)
    &&& after.traffic == before.traffic
}

/// The (source, target) pairs of a list of edges.
pub open spec fn edge_keys(edges: Seq<AnalyticsEdge>) -> Seq<(Seq<char>, Seq<char>)> {
    edges.map_values(|e: AnalyticsEdge| (e.source@, e.target@))
}

/// Whether cell `x` of a listing has `n` as one of its ends.
pub open spec fn touches(ck: Seq<(Seq<char>, Seq<char>)>, x: int, n: Seq<char>) -> bool {
    ck[x].0 == n || ck[x].1 == n
}

/// One counted edge of the traffic graph.
#[derive(Clone, Debug)]
pub struct AnalyticsEdge {
    pub source: String,
    pub target: String,
    pub weight: u64,
}

/// The traffic graph: the nodes that sent or received messages and the counted edges.
#[derive(Clone, Debug)]
pub struct AnalyticsSnapshot {
    pub nodes: Vec<String>,
    pub edges: Vec<AnalyticsEdge>,
}

proof fn lemma_push_unique_contains(s: Seq<Seq<char>>, x: Seq<char>)
    ensures
        forall|n: Seq<char>|
            (if s.contains(x) { s } else { s.push(x) }).contains(n) <==> (s.contains(n) || n == x),
        s.no_duplicates() ==> (if s.contains(x) { s } else { s.push(x) }).no_duplicates(),
{
    let t = if s.contains(x) { s } else { s.push(x) };
    assert forall|n: Seq<char>| t.contains(n) <==> (s.contains(n) || n == x) by {
        if !s.contains(x) {
            if t.contains(n) {
                let i = choose|i: int| 0 <= i < t.len() && t[i] == n;
                if i < s.len() {
                    assert(s[i] == n);
                }
            }
            if s.contains(n) {
                let i = choose|i: int| 0 <= i < s.len() && s[i] == n;
                assert(t[i] == n);
            }
            if n == x {
                assert(t[s.len() as int] == n);
            }
        }
    }
}

/// Appends `x` unless it is already there.
fn push_unique(v: &mut Vec<String>, x: String)
    ensures
        final(v).deep_view() == if old(v).deep_view().contains(x@) {
            old(v).deep_view()
        } else {
            old(v).deep_view().push(x@)
        },
{
    let mut i: usize = 0;
    while i < v.len()
        invariant
            i <= v@.len(),
            v.deep_view() == old(v).deep_view(),
            forall|j: int| 0 <= j < i ==> v.deep_view()[j] != x@,
        decreases v@.len() - i,
    {
        if v[i] == x {
            assert(v.deep_view()[i as int] == x@);
            return;
        }
        i = i + 1;
    }
    v.push(x);
    assert(v.deep_view() =~= old(v).deep_view().push(x@));
}

impl TrafficController {
    /// Counts envelope `envelope`: one message from its source node (or `"unknown"`) to
    /// each node its target resolves to, or to every registered node when it names no target.
    pub fn record_traffic(&mut self, envelope: &TwilightEnvelope)
        requires
            fits_in_counters(old(self)@.traffic, old(self)@.registry, envelope@),
        ensures
            final(self)@.registry == old(self)@.registry,
            counts_added(
                old(self)@.traffic,
                final(self)@.traffic,
                source_key(envelope@),
                |t: Seq<char>| recipients(old(self)@.registry, envelope@.target, t),
            ),
    {
        let ghost reg = self@.registry;
        let ghost before = self@.traffic;
        let ghost n = |t: Seq<char>| recipients(reg, envelope@.target, t);
        let src = match &envelope.source {
            Some(id) => id.node_uuid.clone(),
            None => {
                proof {
                    reveal_strlit("unknown");
                }
                "unknown".to_string()
            },
        };
        assert(src@ == source_key(envelope@)) by {
            reveal_strlit("unknown");
        }
        let targets = self.recipients_of(envelope);
        let mut i: usize = 0;
        assert(targets.deep_view().subrange(0, 0) =~= Seq::<Seq<char>>::empty());
        while i < targets.len()
            invariant
                i <= targets@.len(),
                self@.registry == reg,
                src@ == source_key(envelope@),
                forall|t: Seq<char>| occurrences(targets.deep_view(), t) == n(t),
                forall|t: Seq<char>| count_of(before, (src@, t)) + n(t) <= u64::MAX,
                counts_added(
                    before,
                    self@.traffic,
                    src@,
                    |t: Seq<char>| occurrences(targets.deep_view().subrange(0, i as int), t),
                ),
            decreases targets@.len() - i,
        {
            let ghost cur = self@.traffic;
            let ghost pre = targets.deep_view().subrange(0, i as int);
            let ghost post = targets.deep_view().subrange(0, i + 1);
            let t = targets[i].clone();
            proof {
                assert(post.drop_last() =~= pre);
                assert(post.last() == t@);
                lemma_occurrences_prefix(targets.deep_view(), i + 1, t@);
                assert(occurrences(post, t@) == occurrences(pre, t@) + 1);
            }
            let key = (src.clone(), t);
            let current = traffic_get(&self.traffic_matrix, &key);
            let next = match current {
                Some(c) => c + 1,
                None => 1,
            };
            traffic_insert(&mut self.traffic_matrix, key, next);
            proof {
                assert forall|u: Seq<char>| occurrences(post, u) == occurrences(pre, u) + if u
                    == t@ {
                    1nat
                } else {
                    0nat
                } by {
                    assert(post.drop_last() =~= pre);
                }
                let m = |u: Seq<char>| occurrences(post, u);
                assert forall|k: (Seq<char>, Seq<char>)|
                    #[trigger] self@.traffic.dom().contains(k) <==> (before.dom().contains(k) || (k.0
                        == src@ && m(k.1) > 0)) by {
                    assert(occurrences(post, k.1) == occurrences(pre, k.1) + if k.1 == t@ {
                        1nat
                    } else {
                        0nat
                    });
                }
                assert forall|k: (Seq<char>, Seq<char>)| #[trigger]
                    self@.traffic.dom().contains(k) implies self@.traffic[k] == count_of(before, k)
                    + if k.0 == src@ {
                    m(k.1) as int
                } else {
                    0
                } by {
                    assert(occurrences(post, k.1) == occurrences(pre, k.1) + if k.1 == t@ {
                        1nat
                    } else {
                        0nat
                    });
                    if k != (src@, t@) {
                        assert(cur.dom().contains(k));
                    }
                }
            }
            i = i + 1;
        }
        proof {
            assert(targets.deep_view().subrange(0, i as int) =~= targets.deep_view());
        }
    }

    /// The recipients an envelope is counted against: the nodes its target resolves to,
    /// or every registered node when it names no target.
    fn recipients_of(&self, envelope: &TwilightEnvelope) -> (ts: Vec<String>)
        ensures
            forall|t: Seq<char>|
                occurrences(ts.deep_view(), t) == recipients(self@.registry, envelope@.target, t),
    {
        let ghost reg = self@.registry;
        let targets = match &envelope.target {
            Some(t) => self.get_targets(t),
            None => {
                let entries = registry_entries(&self.registry);
                let mut flags: Vec<bool> = Vec::new();
                let mut i: usize = 0;
                while i < entries.len()
                    invariant
                        i <= entries@.len(),
                        flags@.len() == i,
                        forall|x: int| 0 <= x < i ==> #[trigger] flags@[x],
                    decreases entries@.len() - i,
                {
                    flags.push(true);
                    i = i + 1;
                }
                let r = collect_flagged(&entries, &flags);
                proof {
                    let keys = entry_keys(entries@);
                    assert forall|k: Seq<char>| r.deep_view().contains(k) <==> reg.dom().contains(k) by {
                        if reg.dom().contains(k) {
                            assert(keys.contains(k));
                            let x = choose|x: int| 0 <= x < keys.len() && keys[x] == k;
                            assert(flags@[x]);
                        }
                        if r.deep_view().contains(k) {
                            let x = choose|x: int| 0 <= x < entries@.len() && flags@[x] && #[trigger] keys[x] == k;
                            assert(keys.contains(k));
                        }
                    }
                }
                r
            },
        };
        proof {
            let ts = targets.deep_view();
            assert forall|t: Seq<char>| occurrences(ts, t) == recipients(reg, envelope@.target, t) by {
                match envelope@.target {
                    Some(tv) => {
                        if tv.target_kind != TargetKind::Unicast {
                            lemma_occurrences_distinct(ts, t);
                        }
                    },
                    None => {
                        lemma_occurrences_distinct(ts, t);
                    },
                }
            }
        }
        targets
    }

    /// Whether `record_traffic(envelope)` can count without a counter passing `u64::MAX`.
    pub fn traffic_fits(&self, envelope: &TwilightEnvelope) -> (r: bool)
        ensures
            r == fits_in_counters(self@.traffic, self@.registry, envelope@),
    {
        let src = match &envelope.source {
            Some(id) => id.node_uuid.clone(),
            None => "unknown".to_string(),
        };
        assert(src@ == source_key(envelope@)) by {
            reveal_strlit("unknown");
        }
        let ts = self.recipients_of(envelope);
        let mut i: usize = 0;
        while i < ts.len()
            invariant
                i <= ts@.len(),
                src@ == source_key(envelope@),
                forall|t: Seq<char>| occurrences(ts.deep_view(), t) == recipients(self@.registry, envelope@.target, t),
                forall|x: int|
                    0 <= x < i ==> count_of(self@.traffic, (src@, #[trigger] ts.deep_view()[x]))
                        + recipients(self@.registry, envelope@.target, ts.deep_view()[x]) <= u64::MAX,
            decreases ts@.len() - i,
        {
            let t = &ts[i];
            let mut occ: u64 = 0;
            let mut j: usize = 0;
            assert(ts.deep_view().subrange(0, 0) =~= Seq::<Seq<char>>::empty());
            while j < ts.len()
                invariant
                    j <= ts@.len(),
                    i < ts@.len(),
                    t@ == ts.deep_view()[i as int],
                    occ == occurrences(ts.deep_view().subrange(0, j as int), t@),
                    occ <= j,
                decreases ts@.len() - j,
            {
                proof {
                    let post = ts.deep_view().subrange(0, j + 1);
                    assert(post.drop_last() =~= ts.deep_view().subrange(0, j as int));
                }
                if ts[j] == *t {
                    occ = occ + 1;
                }
                j = j + 1;
            }
            proof {
                assert(ts.deep_view().subrange(0, j as int) =~= ts.deep_view());
            }
            let key = (src.clone(), t.clone());
            let count: u64 = match traffic_get(&self.traffic_matrix, &key) {
                Some(c) => c,
                None => 0,
            };
            if count > u64::MAX - occ {
                proof {
                    assert(count_of(self@.traffic, (src@, t@)) == count);
                    assert(occ == recipients(self@.registry, envelope@.target, t@));
                    assert((count as int) + (occ as int) > u64::MAX);
                    assert(count_of(self@.traffic, (source_key(envelope@), t@)) + recipients(
                        self@.registry,
                        envelope@.target,
                        t@,
                    ) > u64::MAX);
                }
                return false;
            }
            i = i + 1;
        }
        proof {
            assert forall|t: Seq<char>|
                count_of(self@.traffic, (source_key(envelope@), t)) + #[trigger] recipients(
                    self@.registry,
                    envelope@.target,
                    t,
                ) <= u64::MAX by {
                if recipients(self@.registry, envelope@.target, t) > 0 {
                    assert(occurrences(ts.deep_view(), t) > 0);
                    lemma_occurrences_positive_contains(ts.deep_view(), t);
                    let x = choose|x: int| 0 <= x < ts.deep_view().len() && ts.deep_view()[x] == t;
                    assert(count_of(self@.traffic, (src@, ts.deep_view()[x])) + recipients(self@.registry, envelope@.target, ts.deep_view()[x]) <= u64::MAX);
                }
            }
        }
        true
    }

    /// The traffic graph: every counted (source, target) cell as an edge with its count,
    /// and every node that is an end of some edge, once each.
    pub fn get_analytics_snapshot(&self) -> (s: AnalyticsSnapshot)
        ensures
            edge_keys(s.edges@).no_duplicates(),
            forall|k: (Seq<char>, Seq<char>)|
                self@.traffic.dom().contains(k) <==> edge_keys(s.edges@).contains(k),
            forall|i: int|
                0 <= i < s.edges@.len() ==> self@.traffic[#[trigger] edge_keys(s.edges@)[i]]
                    == s.edges@[i].weight,
            s.nodes.deep_view().no_duplicates(),
            forall|n: Seq<char>| s.nodes.deep_view().contains(n) <==> is_endpoint(self@.traffic, n),
    {
        let cells = traffic_entries(&self.traffic_matrix);
        let ghost ck = cell_keys(cells@);
        let mut nodes: Vec<String> = Vec::new();
        let mut edges: Vec<AnalyticsEdge> = Vec::new();
        let mut i: usize = 0;
        while i < cells.len()
            invariant
                i <= cells@.len(),
                ck == cell_keys(cells@),
                edges@.len() == i,
                forall|x: int| 0 <= x < i ==> #[trigger] edge_keys(edges@)[x] == ck[x],
                forall|x: int| 0 <= x < i ==> (#[trigger] edges@[x]).weight == cells@[x].1,
                nodes.deep_view().no_duplicates(),
                forall|n: Seq<char>|
                    nodes.deep_view().contains(n) <==> exists|x: int|
                        0 <= x < i && #[trigger] touches(ck, x, n),
            decreases cells@.len() - i,
        {
            let ghost before_nodes = nodes.deep_view();
            let ghost old_edges = edges@;
            let source = cells[i].0.0.clone();
            let target = cells[i].0.1.clone();
            let weight = cells[i].1;
            push_unique(&mut nodes, source.clone());
            let ghost mid_nodes = nodes.deep_view();
            push_unique(&mut nodes, target.clone());
            edges.push(AnalyticsEdge { source, target, weight });
            proof {
                assert(ck[i as int] == (cells@[i as int].0.0@, cells@[i as int].0.1@));
                assert forall|x: int| 0 <= x < i + 1 implies #[trigger] edge_keys(edges@)[x] == ck[x] by {
                    if x < i {
                        assert(edges@[x] == old_edges[x]);
                        assert(edge_keys(old_edges)[x] == ck[x]);
                    }
                }
                assert forall|x: int| 0 <= x < i + 1 implies (#[trigger] edges@[x]).weight == cells@[x].1 by {
                    if x < i {
                        assert(edges@[x] == old_edges[x]);
                    }
                }
                lemma_push_unique_contains(before_nodes, cells@[i as int].0.0@);
                lemma_push_unique_contains(mid_nodes, cells@[i as int].0.1@);
                assert forall|n: Seq<char>|
                    nodes.deep_view().contains(n) <==> exists|x: int|
                        0 <= x < i + 1 && #[trigger] touches(ck, x, n) by {
                    if nodes.deep_view().contains(n) {
                        if !before_nodes.contains(n) {
                            assert(touches(ck, i as int, n));
                        } else {
                            let x = choose|x: int| 0 <= x < i && #[trigger] touches(ck, x, n);
                            assert(0 <= x < i + 1 && touches(ck, x, n));
                        }
                    }
                    if exists|x: int| 0 <= x < i + 1 && #[trigger] touches(ck, x, n) {
                        let x = choose|x: int| 0 <= x < i + 1 && #[trigger] touches(ck, x, n);
                        if x < i {
                            assert(before_nodes.contains(n));
                        } else {
                            assert(x == i);
                        }
                    }
                }
            }
            i = i + 1;
        }
        proof {
            assert(edge_keys(edges@) =~= ck);
            assert forall|n: Seq<char>| nodes.deep_view().contains(n) <==> is_endpoint(self@.traffic, n) by {
                if nodes.deep_view().contains(n) {
                    let x = choose|x: int| 0 <= x < cells@.len() && #[trigger] touches(ck, x, n);
                    assert(ck.contains(ck[x]));
                    assert(self@.traffic.dom().contains(ck[x]));
                }
                if is_endpoint(self@.traffic, n) {
                    let k = choose|k: (Seq<char>, Seq<char>)| #[trigger] self@.traffic.dom().contains(k) && (k.0 == n || k.1 == n);
                    assert(ck.contains(k));
                    let x = choose|x: int| 0 <= x < ck.len() && ck[x] == k;
                    assert(touches(ck, x, n));
                }
            }
        }
        AnalyticsSnapshot { nodes, edges }
    }

    /// Forgets every agent that has not been heard of for more than `timeout_seconds`
    /// at time `now` and returns their node UUIDs.
    pub fn cleanup_stale_agents_at(&mut self, now: i128, timeout_seconds: i64) -> (r: Vec<String>)
        requires
            -(i64::MAX / 1000) <= timeout_seconds <= i64::MAX / 1000,
        ensures
            cleaned_up(old(self)@, final(self)@, r.deep_view(), now as int, timeout_seconds as int),
    {
        let ghost reg = self@.registry;
        let entries = registry_entries(&self.registry);
        let limit: i128 = (timeout_seconds as i128) * 1_000_000_000;
        let mut flags: Vec<bool> = Vec::new();
        let mut i: usize = 0;
        while i < entries.len()
            invariant
                i <= entries@.len(),
                flags@.len() == i,
                limit == timeout_seconds * 1_000_000_000,
                forall|x: int|
                    0 <= x < i ==> flags@[x] == is_stale(
                        #[trigger] entries@[x].1@,
                        now as int,
                        timeout_seconds as int,
                    ),
            decreases entries@.len() - i,
        {
            let seen = entries[i].1.last_seen;
            // A difference beyond the range of `i128` is beyond any limit.
            let stale = match now.checked_sub(seen) {
                Some(elapsed) => elapsed > limit,
                None => now > seen,
            };
            flags.push(stale);
            i = i + 1;
        }
        let stale = collect_flagged(&entries, &flags);
        let ghost p = |e: RegistryEntryView| is_stale(e, now as int, timeout_seconds as int);
        proof {
            let keys = entry_keys(entries@);
            assert forall|k: Seq<char>|
                stale.deep_view().contains(k) <==> (reg.dom().contains(k) && p(reg[k])) by {
                if reg.dom().contains(k) && p(reg[k]) {
                    assert(keys.contains(k));
                    let x = choose|x: int| 0 <= x < keys.len() && keys[x] == k;
                    assert(reg[entries@[x].0@] == entries@[x].1@);
                    assert(flags@[x]);
                }
                if stale.deep_view().contains(k) {
                    let x = choose|x: int| 0 <= x < entries@.len() && flags@[x] && #[trigger] keys[x] == k;
                    assert(reg[entries@[x].0@] == entries@[x].1@);
                    assert(keys.contains(k));
                }
            }
        }
        let mut j: usize = 0;
        while j < stale.len()
            invariant
                j <= stale@.len(),
                self@.traffic == old(self)@.traffic,
                reg == old(self)@.registry,
                self@.registry == reg.remove_keys(stale.deep_view().subrange(0, j as int).to_set()),
            decreases stale@.len() - j,
        {
            registry_remove(&mut self.registry, stale[j].as_str());
            proof {
                let a = stale.deep_view().subrange(0, j as int);
                let b = stale.deep_view().subrange(0, j + 1);
                assert(b =~= a.push(stale.deep_view()[j as int]));
                assert(b.to_set() =~= a.to_set().insert(stale.deep_view()[j as int])) by {
                    assert forall|x: Seq<char>| b.contains(x) <==> (a.contains(x) || x == stale.deep_view()[j as int]) by {
                        if b.contains(x) {
                            let y = choose|y: int| 0 <= y < b.len() && b[y] == x;
                            if y < j {
                                assert(a[y] == x);
                            }
                        }
                        if a.contains(x) {
                            let y = choose|y: int| 0 <= y < a.len() && a[y] == x;
                            assert(b[y] == x);
                        }
                        if x == stale.deep_view()[j as int] {
                            assert(b[j as int] == x);
                        }
                    }
                }
                assert(self@.registry =~= reg.remove_keys(b.to_set()));
            }
            j = j + 1;
        }
        proof {
            assert(stale.deep_view().subrange(0, j as int) =~= stale.deep_view());
            assert(stale.deep_view().to_set() =~= reg.dom().filter(
                |k: Seq<char>| is_stale(reg[k], now as int, timeout_seconds as int),
            ));
            assert(self@.registry =~= stale_removed(reg, now as int, timeout_seconds as int));
        }
        stale
    }

    /// Forgets every agent that has not been heard of for more than `timeout_seconds`,
    /// by the wall clock, and returns their node UUIDs.
    pub fn cleanup_stale_agents(&mut self, timeout_seconds: i64) -> (r: Vec<String>)
        requires
            -(i64::MAX / 1000) <= timeout_seconds <= i64::MAX / 1000,
        ensures
            exists|now: int|
                0 <= now < max_unix_ns() && #[trigger] cleaned_up(
                    old(self)@,
                    final(self)@,
                    r.deep_view(),
                    now,
                    timeout_seconds as int,
                ),
    {
        let now = now_unix_ns();
        self.cleanup_stale_agents_at(now, timeout_seconds)
    }
}


/// An agent that announced itself can be looked up by its node UUID, and the registry
/// gives back exactly the identity it announced.
pub proof fn law_announced_identity_is_found(
    reg: Map<Seq<char>, RegistryEntryView>,
    p: AgentPresenceView,
    now: i128,
)
    requires
        p.identity is Some,
    ensures
        identity_of(presence_applied(reg, p, now), p.identity->0.node_uuid) == Some(p.identity->0),
        presence_applied(reg, p, now)[p.identity->0.node_uuid].status == p.status,
{
}

/// A later announcement of the same node replaces the earlier one: the registry holds
/// one entry per node UUID, carrying the latest identity and status.
pub proof fn law_latest_announcement_wins(
    reg: Map<Seq<char>, RegistryEntryView>,
    p1: AgentPresenceView,
    p2: AgentPresenceView,
    t1: i128,
    t2: i128,
)
    requires
        p1.identity is Some,
        p2.identity is Some,
        p1.identity->0.node_uuid == p2.identity->0.node_uuid,
    ensures
        presence_applied(presence_applied(reg, p1, t1), p2, t2) == presence_applied(reg, p2, t2),
{
    assert(presence_applied(presence_applied(reg, p1, t1), p2, t2) =~= presence_applied(reg, p2, t2));
}

/// A removed agent is no longer found, and nobody else is affected.
pub proof fn law_removed_agent_is_gone(reg: Map<Seq<char>, RegistryEntryView>, uuid: Seq<char>)
    ensures
        identity_of(reg.remove(uuid), uuid) is None,
        forall|k: Seq<char>| k != uuid ==> identity_of(reg.remove(uuid), k) == identity_of(reg, k),
{
}

/// A heartbeat never registers an agent: the set of registered nodes is unchanged,
/// and only the last-seen time of the beating node moves.
pub proof fn law_heartbeat_never_registers(
    reg: Map<Seq<char>, RegistryEntryView>,
    hb: HeartbeatView,
    now: i128,
)
    ensures
        heartbeat_applied(reg, hb, now).dom() == reg.dom(),
        forall|k: Seq<char>|
            #[trigger] reg.dom().contains(k) ==> heartbeat_applied(reg, hb, now)[k].identity
                == reg[k].identity && heartbeat_applied(reg, hb, now)[k].status == reg[k].status,
{
    assert(heartbeat_applied(reg, hb, now).dom() =~= reg.dom());
}

/// A heartbeat concerns only the node that beats: that node, when registered, is now
/// last seen at the heartbeat's time, and every other entry of the registry stays exactly
/// as it was; so an agent that stays silent still goes stale however often others beat.
pub proof fn law_heartbeat_touches_only_its_node(
    reg: Map<Seq<char>, RegistryEntryView>,
    hb: HeartbeatView,
    now: i128,
    other: Seq<char>,
    later: int,
    timeout_seconds: int,
)
    requires
        other != hb.node_id,
        reg.dom().contains(other),
    ensures
        heartbeat_applied(reg, hb, now)[other] == reg[other],
        reg.dom().contains(hb.node_id) ==> heartbeat_applied(reg, hb, now)[hb.node_id].last_seen == now,
        is_stale(reg[other], later, timeout_seconds) ==> !stale_removed(
            heartbeat_applied(reg, hb, now),
            later,
            timeout_seconds,
        ).dom().contains(other),
{
    let after = heartbeat_applied(reg, hb, now);
    assert(after[other] == reg[other]);
    assert(after.dom().contains(other));
}

/// After a cleanup no stale agent remains, every agent that was not stale is still
/// there with its entry unchanged, and the removed ones are exactly the stale ones.
pub proof fn law_cleanup_keeps_exactly_the_fresh(
    reg: Map<Seq<char>, RegistryEntryView>,
    now: int,
    timeout_seconds: int,
)
    ensures
        forall|k: Seq<char>|
            #[trigger] stale_removed(reg, now, timeout_seconds).dom().contains(k) ==> !is_stale(
                stale_removed(reg, now, timeout_seconds)[k],
                now,
                timeout_seconds,
            ),
        forall|k: Seq<char>|
            reg.dom().contains(k) && !is_stale(reg[k], now, timeout_seconds) ==> #[trigger] stale_removed(
                reg,
                now,
                timeout_seconds,
            ).dom().contains(k) && stale_removed(reg, now, timeout_seconds)[k] == reg[k],
        forall|k: Seq<char>|
            reg.dom().contains(k) && is_stale(reg[k], now, timeout_seconds) ==> !#[trigger] stale_removed(
                reg,
                now,
                timeout_seconds,
            ).dom().contains(k),
{
}

/// An agent heard of at most `timeout_seconds` ago survives a cleanup: in particular a
/// node that beats every 10 seconds is never dropped by the 30-second stale threshold.
pub proof fn law_recent_agent_survives_cleanup(
    reg: Map<Seq<char>, RegistryEntryView>,
    uuid: Seq<char>,
    now: int,
    timeout_seconds: int,
)
    requires
        reg.dom().contains(uuid),
        now - reg[uuid].last_seen <= timeout_seconds * 1_000_000_000,
    ensures
        identity_of(stale_removed(reg, now, timeout_seconds), uuid) == identity_of(reg, uuid),
{
}

/// A heartbeat from a registered node keeps it alive through a cleanup run at the same
/// time with any non-negative timeout.
pub proof fn law_heartbeat_then_cleanup_keeps_agent(
    reg: Map<Seq<char>, RegistryEntryView>,
    hb: HeartbeatView,
    now: i128,
    timeout_seconds: int,
)
    requires
        reg.dom().contains(hb.node_id),
        timeout_seconds >= 0,
    ensures
        identity_of(stale_removed(heartbeat_applied(reg, hb, now), now as int, timeout_seconds), hb.node_id)
            == identity_of(reg, hb.node_id),
{
}

/// Counting a message never forgets or lowers a count: every counter present before
/// is present after, at least as large.
pub proof fn law_counts_only_grow(
    before: Map<(Seq<char>, Seq<char>), u64>,
    after: Map<(Seq<char>, Seq<char>), u64>,
    src: Seq<char>,
    n: spec_fn(Seq<char>) -> nat,
)
    requires
        counts_added(before, after, src, n),
    ensures
        forall|k: (Seq<char>, Seq<char>)|
            #[trigger] before.dom().contains(k) ==> after.dom().contains(k) && after[k] >= before[k],
{
    assert forall|k: (Seq<char>, Seq<char>)| #[trigger] before.dom().contains(k) implies after.dom().contains(k)
        && after[k] >= before[k] by {
        assert(after.dom().contains(k));
    }
}

/// A unicast message to a node counts exactly once per time the target names it, from
/// the sender's node, whatever the registry holds.
pub proof fn law_unicast_counts_each_naming(
    reg: Map<Seq<char>, RegistryEntryView>,
    tv: MessageTargetView,
    t: Seq<char>,
)
    requires
        tv.target_kind == TargetKind::Unicast,
    ensures
        recipients(reg, Some(tv), t) == occurrences(tv.target_agent_uuids, t),
{
}

} // verus!
