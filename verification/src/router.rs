//! Who owns which session and which subscription, cluster-wide, and what the
//! cluster handler does with an event or a peer's message.

use crate::assoc::{distinct_keys, key_index, lemma_key_index, lemma_put_distinct, put, value_of};
use crate::peers::{distinct_nodes, has_node, Outbound};
use crate::topic::{filter_matches, matches_spec};
use crate::types::{
    Dropped, Id, MessageType, NodeId, Parameter, Publish, RpcMessage, RpcMessageModel, RpcReply,
};
use vstd::prelude::*;

verus! {

/// An entry of the replicated log.
#[derive(Clone, Debug, PartialEq, Eq)]
pub enum Proposal {
    /// The client is now connected to the node.
    ClientAdd(String, NodeId),
    /// The client is no longer connected to the node.
    ClientRemove(String, NodeId),
}

/// The mathematical model of a log entry.
pub enum ProposalModel {
    ClientAdd(Seq<char>, NodeId),
    ClientRemove(Seq<char>, NodeId),
}

impl View for Proposal {
    type V = ProposalModel;

    open spec fn view(&self) -> ProposalModel {
        match self {
            Proposal::ClientAdd(client_id, node) => ProposalModel::ClientAdd(client_id@, *node),
            Proposal::ClientRemove(client_id, node) => ProposalModel::ClientRemove(
                client_id@,
                *node,
            ),
        }
    }
}

/// The entries without the first one named `key`.
pub open spec fn without<V>(entries: Seq<(Seq<char>, V)>, key: Seq<char>) -> Seq<(Seq<char>, V)> {
    let at = key_index(entries, key);
    if at < entries.len() {
        entries.remove(at)
    } else {
        entries
    }
}

/// The owners after a log entry is applied. A client that connects is owned
/// by the node it connected to, whoever owned it before. A client that left
/// a node is owned by none, unless another node has taken it over meanwhile.
pub open spec fn applied(owners: Seq<(Seq<char>, NodeId)>, proposal: ProposalModel) -> Seq<
    (Seq<char>, NodeId),
> {
    match proposal {
        ProposalModel::ClientAdd(client_id, node) => put(owners, client_id, node),
        ProposalModel::ClientRemove(client_id, node) => if value_of(owners, client_id) == Some(
            node,
        ) {
            without(owners, client_id)
        } else {
            owners
        },
    }
}

/// The node that owned the client before a log entry is applied, where the
/// entry connects the client.
pub open spec fn displaced(owners: Seq<(Seq<char>, NodeId)>, proposal: ProposalModel) -> Option<
    NodeId,
> {
    match proposal {
        ProposalModel::ClientAdd(client_id, node) => value_of(owners, client_id),
        ProposalModel::ClientRemove(..) => None,
    }
}

/// Where each connected client's session lives.
pub struct SessionLocator {
    pub owners: Vec<(String, NodeId)>,
}

impl View for SessionLocator {
    type V = Seq<(Seq<char>, NodeId)>;

    open spec fn view(&self) -> Seq<(Seq<char>, NodeId)> {
        Seq::new(self.owners@.len(), |i: int| (self.owners@[i].0@, self.owners@[i].1))
    }
}

impl SessionLocator {
    /// Every client has one owner: no client id stands twice.
    pub open spec fn wf(&self) -> bool {
        distinct_keys(self@)
    }

    /// A locator that knows no client.
    pub fn new() -> (r: SessionLocator)
        ensures
            r.wf(),
            r@ == Seq::<(Seq<char>, NodeId)>::empty(),
    {
        let r = SessionLocator { owners: Vec::new() };
        assert(r@ =~= Seq::<(Seq<char>, NodeId)>::empty());
        r
    }

    /// The position of the client, or the number of clients where it is not
    /// known.
    fn find(&self, client_id: &String) -> (i: usize)
        ensures
            i == key_index(self@, client_id@),
            i <= self.owners@.len(),
    {
        let mut i: usize = 0;
        while i < self.owners.len() && self.owners[i].0 != *client_id
            invariant
                i <= self.owners.len(),
                forall|j: int| 0 <= j < i ==> self.owners@[j].0@ != client_id@,
            decreases self.owners.len() - i,
        {
            i += 1;
        }
        proof {
            assert forall|j: int| 0 <= j < i implies self@[j].0 != client_id@ by {
                assert(self@[j].0 == self.owners@[j].0@);
            }
            lemma_key_index(self@, client_id@, i as int);
        }
        i
    }

    /// The node that owns the client, if it is connected anywhere.
    pub fn owner(&self, client_id: &String) -> (r: Option<NodeId>)
        ensures
            r == value_of(self@, client_id@),
    {
        let i = self.find(client_id);
        if i < self.owners.len() {
            Some(self.owners[i].1)
        } else {
            None
        }
    }

    /// Applies a log entry and tells which node owned the client before,
    /// where the entry connects it.
    pub fn apply(&mut self, proposal: &Proposal) -> (r: Option<NodeId>)
        requires
            old(self).wf(),
        ensures
            final(self).wf(),
            final(self)@ == applied(old(self)@, proposal@),
            r == displaced(old(self)@, proposal@),
    {
        let ghost before = self@;
        match proposal {
            Proposal::ClientAdd(client_id, node) => {
                let i = self.find(client_id);
                proof {
                    lemma_put_distinct(before, client_id@, *node);
                }
                if i < self.owners.len() {
                    let previous = self.owners[i].1;
                    self.owners.set(i, (client_id.clone(), *node));
                    assert(self@ =~= put(before, client_id@, *node));
                    Some(previous)
                } else {
                    self.owners.push((client_id.clone(), *node));
                    assert(self@ =~= put(before, client_id@, *node));
                    None
                }
            },
            Proposal::ClientRemove(client_id, node) => {
                let i = self.find(client_id);
                if i < self.owners.len() && self.owners[i].1 == *node {
                    self.owners.remove(i);
                    assert(self@ =~= before.remove(i as int));
                    assert(distinct_keys(self@)) by {
                        assert forall|a: int, b: int| 0 <= a < b < self@.len() implies (
                        #[trigger] self@[a]).0 != (#[trigger] self@[b]).0 by {
                            let a0 = if a < i { a } else { a + 1 };
                            let b0 = if b < i { b } else { b + 1 };
                            assert(before[a0].0 != before[b0].0);
                        }
                    }
                }
                None
            },
        }
    }
}

/// The reason given to a session that is evicted because its client
/// connected again elsewhere.
pub open spec fn kick_reason() -> Seq<char> {
    "duplicated connection"@
}

/// The log entry that the cluster handler proposes for an event on the node
/// `node`: a connection adds the client, a disconnection or the end of a
/// session removes it, and no other event proposes anything.
pub open spec fn proposal_spec(node: NodeId, param: Parameter) -> Option<ProposalModel> {
    match param {
        Parameter::ClientConnected { connect_info, .. } => Some(
            ProposalModel::ClientAdd(connect_info.id_spec().client_id@, node),
        ),
        Parameter::ClientDisconnected { id, .. } => Some(
            ProposalModel::ClientRemove(id.client_id@, node),
        ),
        Parameter::SessionTerminated { id, .. } => Some(
            ProposalModel::ClientRemove(id.client_id@, node),
        ),
        _ => None,
    }
}

/// The log entry to propose for an event on the node `node`, if any.
pub fn proposal_for(node: NodeId, param: &Parameter) -> (r: Option<Proposal>)
    ensures
        match r {
            Some(p) => proposal_spec(node, *param) == Some(p@),
            None => proposal_spec(node, *param).is_none(),
        },
{
    match param {
        Parameter::ClientConnected { connect_info, .. } => Some(
            Proposal::ClientAdd(connect_info.id().client_id.clone(), node),
        ),
        Parameter::ClientDisconnected { id, .. } => Some(
            Proposal::ClientRemove(id.client_id.clone(), node),
        ),
        Parameter::SessionTerminated { id, .. } => Some(
            Proposal::ClientRemove(id.client_id.clone(), node),
        ),
        _ => None,
    }
}

/// What follows the acknowledgement of a connection's log entry on the node
/// `node`: where another node owned the client before, that node is told to
/// evict the session; where none did, or this node did, nothing is sent.
pub fn kick_for(
    node: NodeId,
    msg_type: MessageType,
    client_id: &String,
    previous: Option<NodeId>,
) -> (r: Option<Outbound>)
    ensures
        match r {
            Some(out) => previous == Some(out.node) && out.node != node && out.msg_type == msg_type
                && out.msg@ == RpcMessageModel::Kick(client_id@, kick_reason()),
            None => previous.is_none() || previous == Some(node),
        },
{
    match previous {
        Some(owner) => {
            if owner != node {
                Some(
                    Outbound {
                        node: owner,
                        msg_type,
                        msg: RpcMessage::Kick(
                            client_id.clone(),
                            String::from_str("duplicated connection"),
                        ),
                    },
                )
            } else {
                None
            }
        },
        None => None,
    }
}

/// A subscription as the cluster knows it: the filter, the node that owns
/// the subscriber's session, and the subscriber.
#[derive(Clone, Debug, PartialEq, Eq)]
pub struct RouteEntry {
    pub topic_filter: String,
    pub node_id: NodeId,
    pub client_id: String,
}

/// Among the first `n` routes, the peers of the node `this` that own a
/// subscription matching `topic`: each once, in the order in which the
/// routes first name them.
pub open spec fn owners_upto(routes: Seq<RouteEntry>, topic: Seq<char>, this: NodeId, n: int) -> Seq<
    NodeId,
>
    decreases n,
{
    if n <= 0 {
        Seq::empty()
    } else {
        let before = owners_upto(routes, topic, this, n - 1);
        let route = routes[n - 1];
        if n <= routes.len() && route.node_id != this && matches_spec(route.topic_filter@, topic)
            && !before.contains(route.node_id) {
            before.push(route.node_id)
        } else {
            before
        }
    }
}

/// The peers to forward a publish on `topic` to.
pub open spec fn owners_spec(routes: Seq<RouteEntry>, topic: Seq<char>, this: NodeId) -> Seq<
    NodeId,
> {
    owners_upto(routes, topic, this, routes.len() as int)
}

/// Among the first `n` routes, the subscribers on the node `node` whose
/// filter matches `topic`, in the routes' order.
pub open spec fn recipients_upto(routes: Seq<RouteEntry>, topic: Seq<char>, node: NodeId, n: int) -> Seq<
    Seq<char>,
>
    decreases n,
{
    if n <= 0 {
        Seq::empty()
    } else {
        let before = recipients_upto(routes, topic, node, n - 1);
        let route = routes[n - 1];
        if n <= routes.len() && route.node_id == node && matches_spec(route.topic_filter@, topic) {
            before.push(route.client_id@)
        } else {
            before
        }
    }
}

/// The peers of the node `this` that own a subscription matching `topic`,
/// each once.
pub fn peer_owners(routes: &Vec<RouteEntry>, topic: &str, this: NodeId) -> (r: Vec<NodeId>)
    ensures
        r@ == owners_spec(routes@, topic@, this),
        distinct_nodes(r@),
        !r@.contains(this),
{
    let mut owners: Vec<NodeId> = Vec::new();
    let mut i: usize = 0;
    while i < routes.len()
        invariant
            i <= routes.len(),
            owners@ == owners_upto(routes@, topic@, this, i as int),
            distinct_nodes(owners@),
            !owners@.contains(this),
        decreases routes.len() - i,
    {
        if routes[i].node_id != this && !has_node(&owners, routes[i].node_id) && filter_matches(
            routes[i].topic_filter.as_str(),
            topic,
        ) {
            owners.push(routes[i].node_id);
        }
        i += 1;
    }
    owners
}

/// The sends that forward a publish to every peer that owns a subscription
/// matching its topic: one per peer, each with the publish and its sender.
pub fn forwards(
    routes: &Vec<RouteEntry>,
    this: NodeId,
    msg_type: MessageType,
    from: &Id,
    publish: &Publish,
) -> (r: Vec<Outbound>)
    ensures
        r@.len() == owners_spec(routes@, publish.topic@, this).len(),
        distinct_nodes(owners_spec(routes@, publish.topic@, this)),
        forall|i: int|
            0 <= i < r@.len() ==> (#[trigger] r@[i]).node == owners_spec(
                routes@,
                publish.topic@,
                this,
            )[i] && r@[i].msg_type == msg_type && r@[i].msg@ == RpcMessageModel::Forwards(
                *from,
                publish@,
            ),
{
    let owners = peer_owners(routes, publish.topic.as_str(), this);
    let mut sends: Vec<Outbound> = Vec::new();
    let mut i: usize = 0;
    while i < owners.len()
        invariant
            i <= owners.len(),
            sends@.len() == i,
            forall|j: int|
                0 <= j < i ==> (#[trigger] sends@[j]).node == owners@[j] && sends@[j].msg_type
                    == msg_type && sends@[j].msg@ == RpcMessageModel::Forwards(*from, publish@),
        decreases owners.len() - i,
    {
        sends.push(
            Outbound {
                node: owners[i],
                msg_type,
                msg: RpcMessage::Forwards(from.duplicate(), publish.duplicate()),
            },
        );
        i += 1;
    }
    sends
}

/// What is reported as dropped when the peer `node` could not be reached
/// with a publish: one entry per subscriber on that peer whose filter
/// matches the topic, each with the publish, its sender and the reason.
pub fn undelivered(
    routes: &Vec<RouteEntry>,
    node: NodeId,
    from: &Id,
    publish: &Publish,
    reason: &str,
) -> (r: Vec<Dropped>)
    ensures
        r@.len() == recipients_upto(routes@, publish.topic@, node, routes@.len() as int).len(),
        forall|i: int|
            0 <= i < r@.len() ==> (#[trigger] r@[i]).to.node_id == node && r@[i].to.client_id@
                == recipients_upto(routes@, publish.topic@, node, routes@.len() as int)[i]
                && r@[i].to.remote_addr.is_none() && r@[i].to.username.is_none() && r@[i].from
                == *from && r@[i].publish@ == publish@ && r@[i].reason@ == reason@,
{
    let mut dropped: Vec<Dropped> = Vec::new();
    let mut i: usize = 0;
    while i < routes.len()
        invariant
            i <= routes.len(),
            dropped@.len() == recipients_upto(routes@, publish.topic@, node, i as int).len(),
            forall|j: int|
                0 <= j < dropped@.len() ==> (#[trigger] dropped@[j]).to.node_id == node
                    && dropped@[j].to.client_id@ == recipients_upto(
                    routes@,
                    publish.topic@,
                    node,
                    i as int,
                )[j] && dropped@[j].to.remote_addr.is_none() && dropped@[j].to.username.is_none()
                    && dropped@[j].from == *from && dropped@[j].publish@ == publish@
                    && dropped@[j].reason@ == reason@,
        decreases routes.len() - i,
    {
        if routes[i].node_id == node && filter_matches(
            routes[i].topic_filter.as_str(),
            publish.topic.as_str(),
        ) {
            dropped.push(
                Dropped {
                    to: Id {
                        node_id: node,
                        remote_addr: None,
                        client_id: routes[i].client_id.clone(),
                        username: None,
                    },
                    from: from.duplicate(),
                    publish: publish.duplicate(),
                    reason: String::from_str(reason),
                },
            );
        }
        i += 1;
    }
    dropped
}

/// What a node does with a message of a peer.
#[derive(Debug, PartialEq, Eq)]
pub enum PeerAction {
    /// Answer at once.
    Reply(RpcReply),
    /// Read the retained messages that the filter matches from the store of
    /// this node and answer with them.
    ReadRetains(String),
    /// Hand the publish to the local delivery and answer with what could not
    /// be delivered.
    Deliver(Id, Publish),
    /// End the local session of the client, with the reason, and answer
    /// whether there was one.
    Terminate(String, String),
    /// Hand the bytes to whoever they are for.
    Passthrough(Vec<u8>),
}

/// Decides what to do with the message `msg` of a peer. The counters are
/// answered from `clients` and `sessions`; a question for retained messages
/// is to be answered from the store of this node, a forwarded publish to be
/// delivered here and an eviction to be carried out here.
pub fn on_message(msg: RpcMessage, clients: u64, sessions: u64) -> (r: PeerAction)
    ensures
        match msg {
            RpcMessage::Forwards(from, publish) => r == PeerAction::Deliver(from, publish),
            RpcMessage::Kick(client_id, reason) => r == PeerAction::Terminate(client_id, reason),
            RpcMessage::GetRetains(filter) => r == PeerAction::ReadRetains(filter),
            RpcMessage::NumberOfClients => r == PeerAction::Reply(
                RpcReply::NumberOfClients(clients),
            ),
            RpcMessage::NumberOfSessions => r == PeerAction::Reply(
                RpcReply::NumberOfSessions(sessions),
            ),
            RpcMessage::Data(bytes) => r == PeerAction::Passthrough(bytes),
        },
{
    match msg {
        RpcMessage::Forwards(from, publish) => PeerAction::Deliver(from, publish),
        RpcMessage::Kick(client_id, reason) => PeerAction::Terminate(client_id, reason),
        RpcMessage::GetRetains(filter) => PeerAction::ReadRetains(filter),
        RpcMessage::NumberOfClients => PeerAction::Reply(RpcReply::NumberOfClients(clients)),
        RpcMessage::NumberOfSessions => PeerAction::Reply(RpcReply::NumberOfSessions(sessions)),
        RpcMessage::Data(bytes) => PeerAction::Passthrough(bytes),
    }
}

} // verus!
