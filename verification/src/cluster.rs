//! The cluster plug-in's start-up: which peers to talk to, where the Raft
//! engine listens, whether it leads or joins, and how long to wait for it.

use crate::assoc::put;
use crate::json::{members_model, Json, JsonModel};
use crate::peers::{distinct_nodes, unique_nodes};
use crate::types::{HookType, MessageType, NodeId};
use vstd::prelude::*;

verus! {

/// A node of the cluster and the address it is reached at.
#[derive(Clone, Debug, PartialEq, Eq)]
pub struct NodeAddr {
    pub id: NodeId,
    pub addr: String,
}

impl View for NodeAddr {
    type V = (NodeId, Seq<char>);

    open spec fn view(&self) -> (NodeId, Seq<char>) {
        (self.id, self.addr@)
    }
}

/// The cluster plug-in's configuration.
#[derive(Clone, Debug, PartialEq, Eq)]
pub struct ClusterConfig {
    pub node_grpc_addrs: Vec<NodeAddr>,
    pub raft_peer_addrs: Vec<NodeAddr>,
    pub message_type: MessageType,
}

/// A fault in the configuration that stops the plug-in at start-up.
#[derive(Clone, Copy, Debug, PartialEq, Eq, Structural)]
pub enum ConfigError {
    /// The Raft peer list does not name this node, so there is no address to
    /// listen on.
    ListenAddrMissing,
}

/// Where the Raft engine listens and which peers it asks for the leader.
#[derive(Clone, Debug, PartialEq, Eq)]
pub struct RaftPlan {
    pub listen_addr: String,
    pub peer_addrs: Vec<String>,
}

/// How the Raft engine starts.
#[derive(Clone, Debug, PartialEq, Eq)]
pub enum StartMode {
    /// No peer knows a leader: start as the leader.
    Lead,
    /// Join the leader that a peer reported.
    Join { leader_id: NodeId, leader_addr: String },
}

/// The nodes of `addrs` other than `id`, in their order.
pub open spec fn others(addrs: Seq<NodeAddr>, id: NodeId) -> Seq<(NodeId, Seq<char>)>
    decreases addrs.len(),
{
    if addrs.len() == 0 {
        Seq::empty()
    } else if addrs.last().id == id {
        others(addrs.drop_last(), id)
    } else {
        others(addrs.drop_last(), id).push(addrs.last()@)
    }
}

/// The address of the first node of `addrs` named `id`, if there is one.
pub open spec fn addr_of(addrs: Seq<NodeAddr>, id: NodeId) -> Option<Seq<char>>
    decreases addrs.len(),
{
    if addrs.len() == 0 {
        None
    } else if addrs[0].id == id {
        Some(addrs[0].addr@)
    } else {
        addr_of(addrs.drop_first(), id)
    }
}

/// The views of a list of nodes.
pub open spec fn nodes_model(addrs: Seq<NodeAddr>) -> Seq<(NodeId, Seq<char>)> {
    Seq::new(addrs.len(), |i: int| addrs[i]@)
}

/// The views of a list of texts.
pub open spec fn texts_model(texts: Seq<String>) -> Seq<Seq<char>> {
    Seq::new(texts.len(), |i: int| texts[i]@)
}

/// `addr_of` finds nothing in a list whose nodes all have another id.
proof fn lemma_addr_of_none(addrs: Seq<NodeAddr>, id: NodeId)
    requires
        forall|j: int| 0 <= j < addrs.len() ==> addrs[j].id != id,
    ensures
        addr_of(addrs, id).is_none(),
    decreases addrs.len(),
{
    if addrs.len() > 0 {
        let rest = addrs.drop_first();
        assert forall|j: int| 0 <= j < rest.len() implies rest[j].id != id by {
            assert(rest[j] == addrs[j + 1]);
        }
        lemma_addr_of_none(rest, id);
    }
}

/// `addr_of` finds the first node with the id.
proof fn lemma_addr_of_first(addrs: Seq<NodeAddr>, id: NodeId, at: int)
    requires
        0 <= at < addrs.len(),
        addrs[at].id == id,
        forall|j: int| 0 <= j < at ==> addrs[j].id != id,
    ensures
        addr_of(addrs, id) == Some(addrs[at].addr@),
    decreases addrs.len(),
{
    if at > 0 {
        let rest = addrs.drop_first();
        assert forall|j: int| 0 <= j < at - 1 implies rest[j].id != id by {
            assert(rest[j] == addrs[j + 1]);
        }
        assert(rest[at - 1] == addrs[at]);
        lemma_addr_of_first(rest, id, at - 1);
    }
}

/// The nodes of `addrs` other than `id`, in their order: the peers that a
/// node with that id talks to.
pub fn peers_except(addrs: &Vec<NodeAddr>, id: NodeId) -> (r: Vec<NodeAddr>)
    ensures
        nodes_model(r@) == others(addrs@, id),
{
    let mut peers: Vec<NodeAddr> = Vec::new();
    assert(nodes_model(peers@) =~= Seq::empty());
    let mut i: usize = 0;
    while i < addrs.len()
        invariant
            i <= addrs.len(),
            nodes_model(peers@) == others(addrs@.take(i as int), id),
        decreases addrs.len() - i,
    {
        assert(addrs@.take(i + 1).drop_last() =~= addrs@.take(i as int));
        if addrs[i].id != id {
            let ghost before = peers@;
            peers.push(NodeAddr { id: addrs[i].id, addr: addrs[i].addr.clone() });
            assert(nodes_model(peers@) =~= nodes_model(before).push(addrs@[i as int]@));
        }
        i += 1;
    }
    assert(addrs@.take(i as int) =~= addrs@);
    peers
}

/// The addresses of a list of nodes, in their order.
pub fn addrs_of(nodes: &Vec<NodeAddr>) -> (r: Vec<String>)
    ensures
        r@.len() == nodes@.len(),
        forall|i: int| 0 <= i < nodes@.len() ==> r@[i]@ == nodes@[i].addr@,
{
    let mut addrs: Vec<String> = Vec::new();
    let mut i: usize = 0;
    while i < nodes.len()
        invariant
            i <= nodes.len(),
            addrs@.len() == i,
            forall|j: int| 0 <= j < i ==> addrs@[j]@ == nodes@[j].addr@,
        decreases nodes.len() - i,
    {
        addrs.push(nodes[i].addr.clone());
        i += 1;
    }
    addrs
}

/// The addresses of the nodes of a list of views.
pub open spec fn addresses(nodes: Seq<(NodeId, Seq<char>)>) -> Seq<Seq<char>> {
    Seq::new(nodes.len(), |i: int| nodes[i].1)
}

/// Plans the start of the Raft engine of the node `id`: it listens on the
/// address that the peer list gives for `id` and asks the other peers, in
/// their order, for the leader. Where the list does not name `id`, the
/// configuration is at fault.
pub fn raft_plan(cfg: &ClusterConfig, id: NodeId) -> (r: Result<RaftPlan, ConfigError>)
    ensures
        match r {
            Ok(plan) => addr_of(cfg.raft_peer_addrs@, id) == Some(plan.listen_addr@)
                && texts_model(plan.peer_addrs@) == addresses(others(cfg.raft_peer_addrs@, id)),
            Err(e) => addr_of(cfg.raft_peer_addrs@, id).is_none() && e
                == ConfigError::ListenAddrMissing,
        },
{
    let peers = &cfg.raft_peer_addrs;
    let mut i: usize = 0;
    while i < peers.len() && peers[i].id != id
        invariant
            i <= peers.len(),
            forall|j: int| 0 <= j < i ==> peers@[j].id != id,
        decreases peers.len() - i,
    {
        i += 1;
    }
    if i == peers.len() {
        proof {
            lemma_addr_of_none(peers@, id);
        }
        return Err(ConfigError::ListenAddrMissing);
    }
    proof {
        lemma_addr_of_first(peers@, id, i as int);
    }
    let listen_addr = peers[i].addr.clone();
    let rest = peers_except(peers, id);
    let peer_addrs = addrs_of(&rest);
    assert(texts_model(peer_addrs@) =~= addresses(others(cfg.raft_peer_addrs@, id))) by {
        assert forall|k: int| 0 <= k < rest@.len() implies peer_addrs@[k]@ == others(
            cfg.raft_peer_addrs@,
            id,
        )[k].1 by {
            assert(nodes_model(rest@)[k] == rest@[k]@);
        }
    }
    Ok(RaftPlan { listen_addr, peer_addrs })
}

/// How the engine starts, given what the peers said of the leader: it joins
/// the leader where one is known and leads where none is.
pub fn start_mode(leader_info: Option<(NodeId, String)>) -> (r: StartMode)
    ensures
        r == match leader_info {
            Some((leader_id, leader_addr)) => StartMode::Join { leader_id, leader_addr },
            None => StartMode::Lead,
        },
{
    match leader_info {
        Some((leader_id, leader_addr)) => StartMode::Join { leader_id, leader_addr },
        None => StartMode::Lead,
    }
}

/// How often the engine's status is asked at start-up.
pub const PROBE_ATTEMPTS: usize = 10;

/// How long to wait between two questions, in milliseconds.
pub const PROBE_INTERVAL_MS: u64 = 500;

/// What to do after one answer of the engine at start-up.
#[derive(Clone, Copy, Debug, PartialEq, Eq, Structural)]
pub enum ProbeStep {
    /// The engine has started: go on.
    Ready,
    /// Wait the given milliseconds, then ask again.
    Retry(u64),
    /// Wait the given milliseconds, then go on without the engine.
    Degraded(u64),
}

/// The start-up probe: how many times the engine's status was asked.
#[derive(Clone, Copy, Debug, PartialEq, Eq, Structural)]
pub struct StartupProbe {
    pub asked: usize,
}

impl StartupProbe {
    /// No more questions than [`PROBE_ATTEMPTS`] have been asked.
    pub open spec fn wf(&self) -> bool {
        self.asked <= PROBE_ATTEMPTS
    }

    /// A probe that has asked nothing yet.
    pub fn new() -> (r: StartupProbe)
        ensures
            r.asked == 0,
            r.wf(),
    {
        StartupProbe { asked: 0 }
    }

    /// Whether a further question may be asked.
    pub fn may_ask(&self) -> (r: bool)
        ensures
            r == (self.asked < PROBE_ATTEMPTS),
    {
        self.asked < PROBE_ATTEMPTS
    }

    /// Records one answer. A started engine ends the probe; else the probe
    /// waits and asks again, until the last of its questions, after which it
    /// waits once more and goes on without the engine.
    pub fn on_status(&mut self, started: bool) -> (r: ProbeStep)
        requires
            old(self).asked < PROBE_ATTEMPTS,
        ensures
            final(self).wf(),
            final(self).asked == old(self).asked + 1,
            r == if started {
                ProbeStep::Ready
            } else if old(self).asked + 1 < PROBE_ATTEMPTS {
                ProbeStep::Retry(PROBE_INTERVAL_MS)
            } else {
                ProbeStep::Degraded(PROBE_INTERVAL_MS)
            },
    {
        self.asked = self.asked + 1;
        if started {
            ProbeStep::Ready
        } else if self.asked < PROBE_ATTEMPTS {
            ProbeStep::Retry(PROBE_INTERVAL_MS)
        } else {
            ProbeStep::Degraded(PROBE_INTERVAL_MS)
        }
    }
}

/// The kinds of event that the cluster plug-in registers a handler for.
pub open spec fn cluster_hook_types() -> Seq<HookType> {
    seq![
        HookType::ClientConnected,
        HookType::ClientDisconnected,
        HookType::SessionTerminated,
        HookType::GrpcMessageReceived,
    ]
}

/// The character of a decimal digit.
pub open spec fn digit_char(d: nat) -> char {
    if d == 0 {
        '0'
    } else if d == 1 {
        '1'
    } else if d == 2 {
        '2'
    } else if d == 3 {
        '3'
    } else if d == 4 {
        '4'
    } else if d == 5 {
        '5'
    } else if d == 6 {
        '6'
    } else if d == 7 {
        '7'
    } else if d == 8 {
        '8'
    } else {
        '9'
    }
}

/// A number in decimal, without leading zeros.
pub open spec fn decimal(n: nat) -> Seq<char>
    decreases n,
{
    if n < 10 {
        seq![digit_char(n)]
    } else {
        decimal(n / 10).push(digit_char(n % 10))
    }
}

/// The text of one decimal digit.
fn digit_text(d: u64) -> (r: &'static str)
    requires
        d < 10,
    ensures
        r@ == seq![digit_char(d as nat)],
{
    proof {
        reveal_strlit("0");
        reveal_strlit("1");
        reveal_strlit("2");
        reveal_strlit("3");
        reveal_strlit("4");
        reveal_strlit("5");
        reveal_strlit("6");
        reveal_strlit("7");
        reveal_strlit("8");
        reveal_strlit("9");
    }
    let r = if d == 0 {
        "0"
    } else if d == 1 {
        "1"
    } else if d == 2 {
        "2"
    } else if d == 3 {
        "3"
    } else if d == 4 {
        "4"
    } else if d == 5 {
        "5"
    } else if d == 6 {
        "6"
    } else if d == 7 {
        "7"
    } else if d == 8 {
        "8"
    } else {
        "9"
    };
    assert(r@ =~= seq![digit_char(d as nat)]);
    r
}

/// The number `n` written in decimal.
pub fn decimal_text(n: u64) -> (r: String)
    ensures
        r@ == decimal(n as nat),
    decreases n,
{
    if n < 10 {
        String::from_str(digit_text(n))
    } else {
        let mut text = decimal_text(n / 10);
        text.append(digit_text(n % 10));
        assert(text@ =~= decimal((n / 10) as nat).push(digit_char((n % 10) as nat)));
        text
    }
}

/// The load of the client to one peer: the sends that wait and those under
/// way.
#[derive(Clone, Copy, Debug, PartialEq, Eq, Structural)]
pub struct ClientStats {
    pub node_id: NodeId,
    pub channel_tasks: usize,
    pub active_tasks: usize,
}

/// The report of one peer's client.
pub open spec fn stats_model(stats: ClientStats) -> JsonModel {
    JsonModel::Object(
        seq![
            ("channel_tasks"@, JsonModel::Num(stats.channel_tasks as int)),
            ("active_tasks"@, JsonModel::Num(stats.active_tasks as int)),
        ],
    )
}

/// The reports of the first `n` clients, each under its node's id in
/// decimal. A node that is listed again replaces its earlier report.
pub open spec fn clients_model(clients: Seq<ClientStats>, n: int) -> Seq<(Seq<char>, JsonModel)>
    decreases n,
{
    if n <= 0 {
        Seq::empty()
    } else {
        put(
            clients_model(clients, n - 1),
            decimal(clients[n - 1].node_id as nat),
            stats_model(clients[n - 1]),
        )
    }
}

/// An optional report, or null where there is none.
pub open spec fn status_model(status: Option<Json>) -> JsonModel {
    match status {
        Some(j) => j@,
        None => JsonModel::Null,
    }
}

/// What the cluster plug-in reports of itself: the load of the client to each
/// peer, by node id, and the status of the Raft engine, null where it gave
/// none.
pub fn cluster_attrs(clients: &Vec<ClientStats>, raft_status: Option<Json>) -> (r: Json)
    ensures
        r@ == JsonModel::Object(
            seq![
                (
                    "grpc_clients"@,
                    JsonModel::Object(clients_model(clients@, clients@.len() as int)),
                ),
                ("raft_status"@, status_model(raft_status)),
            ],
        ),
{
    let mut nodes = Json::object();
    let mut i: usize = 0;
    while i < clients.len()
        invariant
            i <= clients.len(),
            nodes@ == JsonModel::Object(clients_model(clients@, i as int)),
        decreases clients.len() - i,
    {
        let mut stats: Vec<(String, Json)> = Vec::new();
        stats.push(Json::entry("channel_tasks", Json::Num(clients[i].channel_tasks as i128)));
        stats.push(Json::entry("active_tasks", Json::Num(clients[i].active_tasks as i128)));
        assert(members_model(stats@) =~= seq![
            ("channel_tasks"@, JsonModel::Num(clients@[i as int].channel_tasks as int)),
            ("active_tasks"@, JsonModel::Num(clients@[i as int].active_tasks as int)),
        ]);
        let key = decimal_text(clients[i].node_id);
        nodes = nodes.with_member(key.as_str(), Json::from_members(stats));
        i += 1;
    }
    let status = match raft_status {
        Some(j) => j,
        None => Json::Null,
    };
    let mut members: Vec<(String, Json)> = Vec::new();
    members.push(Json::entry("grpc_clients", nodes));
    members.push(Json::entry("raft_status", status));
    assert(members_model(members@) =~= seq![
        ("grpc_clients"@, JsonModel::Object(clients_model(clients@, clients@.len() as int))),
        ("raft_status"@, status_model(raft_status)),
    ]);
    Json::from_members(members)
}

/// The cluster plug-in of one node.
#[derive(Clone, Debug, PartialEq, Eq)]
pub struct ClusterPlugin {
    pub name: String,
    pub descr: String,
    pub node_id: NodeId,
    pub cfg: ClusterConfig,
    /// The peers that this node keeps a client to.
    pub peers: Vec<NodeAddr>,
}

impl ClusterPlugin {
    /// The plug-in of the node `node_id`: it keeps a client to every other
    /// node that the configuration lists.
    pub fn new(name: String, descr: String, node_id: NodeId, cfg: ClusterConfig) -> (r:
        ClusterPlugin)
        ensures
            r.name == name,
            r.descr == descr,
            r.node_id == node_id,
            r.cfg == cfg,
            nodes_model(r.peers@) == others(cfg.node_grpc_addrs@, node_id),
    {
        let peers = peers_except(&cfg.node_grpc_addrs, node_id);
        ClusterPlugin { name, descr, node_id, cfg, peers }
    }

    /// The peers of this node, each once: the nodes that a broadcast visits.
    pub fn peer_ids(&self) -> (r: Vec<NodeId>)
        ensures
            distinct_nodes(r@),
            forall|id: NodeId|
                r@.contains(id) == exists|i: int|
                    0 <= i < self.peers@.len() && (#[trigger] self.peers@[i]).id == id,
    {
        let mut ids: Vec<NodeId> = Vec::new();
        let mut i: usize = 0;
        while i < self.peers.len()
            invariant
                i <= self.peers.len(),
                ids@.len() == i,
                forall|j: int| 0 <= j < i ==> ids@[j] == (#[trigger] self.peers@[j]).id,
            decreases self.peers.len() - i,
        {
            ids.push(self.peers[i].id);
            i += 1;
        }
        let unique = unique_nodes(&ids);
        proof {
            assert forall|id: NodeId|
                unique@.contains(id) == exists|i: int|
                    0 <= i < self.peers@.len() && (#[trigger] self.peers@[i]).id == id by {
                if ids@.contains(id) {
                    let k = choose|k: int| 0 <= k < ids@.len() && ids@[k] == id;
                    assert(self.peers@[k].id == id);
                }
                if exists|i: int| 0 <= i < self.peers@.len() && (#[trigger] self.peers@[i]).id == id {
                    let k = choose|k: int|
                        0 <= k < self.peers@.len() && (#[trigger] self.peers@[k]).id == id;
                    assert(ids@[k] == id);
                }
            }
        }
        unique
    }

    /// The kinds of event to register the handler for, in the order of
    /// registration.
    pub fn init(&self) -> (r: Vec<HookType>)
        ensures
            r@ == cluster_hook_types(),
    {
        let mut kinds: Vec<HookType> = Vec::new();
        kinds.push(HookType::ClientConnected);
        kinds.push(HookType::ClientDisconnected);
        kinds.push(HookType::SessionTerminated);
        kinds.push(HookType::GrpcMessageReceived);
        assert(kinds@ =~= cluster_hook_types());
        kinds
    }

    /// The plan for the Raft engine of this node.
    pub fn start_raft(&self) -> (r: Result<RaftPlan, ConfigError>)
        ensures
            match r {
                Ok(plan) => addr_of(self.cfg.raft_peer_addrs@, self.node_id) == Some(
                    plan.listen_addr@,
                ) && texts_model(plan.peer_addrs@) == addresses(
                    others(self.cfg.raft_peer_addrs@, self.node_id),
                ),
                Err(e) => addr_of(self.cfg.raft_peer_addrs@, self.node_id).is_none() && e
                    == ConfigError::ListenAddrMissing,
            },
    {
        raft_plan(&self.cfg, self.node_id)
    }

    /// Once started, the cluster is not stopped: the answer is always `false`.
    pub fn stop(&self) -> (r: bool)
        ensures
            !r,
    {
        false
    }

    /// The name that the plug-in is registered under.
    pub fn name(&self) -> (r: &str)
        ensures
            r@ == self.name@,
    {
        self.name.as_str()
    }

    /// What the plug-in says of itself.
    pub fn descr(&self) -> (r: &str)
        ensures
            r@ == self.descr@,
    {
        self.descr.as_str()
    }

    /// The plug-in's version.
    pub fn version(&self) -> (r: &'static str)
        ensures
            r@ == "0.1.1"@,
    {
        "0.1.1"
    }
}

} // verus!
