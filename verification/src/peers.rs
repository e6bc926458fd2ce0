//! Messaging between the nodes of the cluster: what a broadcast sends and how
//! its answers line up with the peers, and when a failed send is tried again.

use crate::types::{MessageType, NodeId, RpcMessage, RpcReply};
use vstd::prelude::*;

verus! {

/// A send to a peer failed in transport: the peer is down or the network is.
/// Such a failure may be tried again.
#[derive(Clone, Debug, PartialEq, Eq)]
pub struct TransportError {
    pub reason: String,
}

/// How one send to a peer ended.
pub type SendResult = Result<RpcReply, TransportError>;

/// One message to send to one peer.
#[derive(Debug, PartialEq, Eq)]
pub struct Outbound {
    pub node: NodeId,
    pub msg_type: MessageType,
    pub msg: RpcMessage,
}

/// Sends one message to every peer and reports each peer's answer by itself.
pub struct MessageBroadcaster {
    pub peers: Vec<NodeId>,
    pub msg_type: MessageType,
    pub msg: Option<RpcMessage>,
}

/// No node stands twice in the list.
pub open spec fn distinct_nodes(nodes: Seq<NodeId>) -> bool {
    forall|i: int, j: int| 0 <= i < j < nodes.len() ==> nodes[i] != nodes[j]
}

/// Whether `id` is among `nodes`.
pub fn has_node(nodes: &Vec<NodeId>, id: NodeId) -> (r: bool)
    ensures
        r == nodes@.contains(id),
{
    let mut i: usize = 0;
    while i < nodes.len()
        invariant
            i <= nodes.len(),
            forall|j: int| 0 <= j < i ==> nodes@[j] != id,
        decreases nodes.len() - i,
    {
        if nodes[i] == id {
            return true;
        }
        i += 1;
    }
    false
}

/// The nodes of a list, each once, in the order in which they first stand
/// in it.
pub open spec fn first_seen(nodes: Seq<NodeId>) -> Seq<NodeId>
    decreases nodes.len(),
{
    if nodes.len() == 0 {
        Seq::empty()
    } else {
        let before = first_seen(nodes.drop_last());
        if before.contains(nodes.last()) {
            before
        } else {
            before.push(nodes.last())
        }
    }
}

/// The nodes of the list, each once, in the order in which they first stand.
pub fn unique_nodes(nodes: &Vec<NodeId>) -> (r: Vec<NodeId>)
    ensures
        r@ == first_seen(nodes@),
        distinct_nodes(r@),
        forall|id: NodeId| r@.contains(id) == nodes@.contains(id),
{
    let mut unique: Vec<NodeId> = Vec::new();
    let mut i: usize = 0;
    while i < nodes.len()
        invariant
            i <= nodes.len(),
            unique@ == first_seen(nodes@.take(i as int)),
            distinct_nodes(unique@),
            forall|id: NodeId| unique@.contains(id) == nodes@.take(i as int).contains(id),
        decreases nodes.len() - i,
    {
        let ghost before = unique@;
        let node = nodes[i];
        let seen = has_node(&unique, node);
        if !seen {
            unique.push(node);
        }
        proof {
            let prev = nodes@.take(i as int);
            let upto = nodes@.take(i + 1);
            assert(upto =~= prev.push(node));
            assert(upto.drop_last() =~= prev);
            assert forall|id: NodeId| unique@.contains(id) == upto.contains(id) by {
                if upto.contains(id) {
                    let k = choose|k: int| 0 <= k < upto.len() && upto[k] == id;
                    if k < i {
                        assert(prev[k] == id);
                        assert(before.contains(id));
                        let m = choose|m: int| 0 <= m < before.len() && before[m] == id;
                        assert(unique@[m] == id);
                    } else if seen {
                        let m = choose|m: int| 0 <= m < before.len() && before[m] == id;
                        assert(unique@[m] == id);
                    } else {
                        assert(unique@[before.len() as int] == id);
                    }
                }
                if unique@.contains(id) {
                    let m = choose|m: int| 0 <= m < unique@.len() && unique@[m] == id;
                    if m < before.len() {
                        assert(before[m] == id);
                        assert(before.contains(id));
                        assert(prev.contains(id));
                        let k = choose|k: int| 0 <= k < prev.len() && prev[k] == id;
                        assert(upto[k] == id);
                    } else {
                        assert(upto[i as int] == id);
                    }
                }
            }
        }
        i += 1;
    }
    assert(nodes@.take(i as int) =~= nodes@);
    unique
}

/// The answers of a broadcast lined up with the peers they came from.
pub open spec fn aligned(peers: Seq<NodeId>, outcomes: Seq<SendResult>) -> Seq<
    (NodeId, SendResult),
>
    recommends
        peers.len() == outcomes.len(),
{
    Seq::new(peers.len(), |i: int| (peers[i], outcomes[i]))
}

impl MessageBroadcaster {
    /// A broadcast of `msg` to `peers`, in their order.
    pub fn new(peers: Vec<NodeId>, msg_type: MessageType, msg: RpcMessage) -> (r:
        MessageBroadcaster)
        ensures
            r.peers == peers,
            r.msg_type == msg_type,
            r.msg == Some(msg),
    {
        MessageBroadcaster { peers, msg_type, msg: Some(msg) }
    }

    /// The sends of the broadcast: one per peer, in the peers' order, each
    /// with the message and its type. The last peer gets the message itself,
    /// the others a copy each. The message is spent by this. Where no peer
    /// stands twice in the list, no peer is sent to twice.
    pub fn sends(&mut self) -> (r: Vec<Outbound>)
        requires
            old(self).msg.is_some(),
        ensures
            final(self).peers == old(self).peers,
            final(self).msg_type == old(self).msg_type,
            final(self).msg.is_none(),
            r@.len() == old(self).peers@.len(),
            forall|i: int|
                0 <= i < r@.len() ==> (#[trigger] r@[i]).node == old(self).peers@[i] && r@[i].msg_type
                    == old(self).msg_type && r@[i].msg@ == old(self).msg.unwrap()@,
            distinct_nodes(old(self).peers@) ==> forall|i: int, j: int|
                0 <= i < j < r@.len() ==> (#[trigger] r@[i]).node != (#[trigger] r@[j]).node,
    {
        let msg = self.msg.take().unwrap();
        let mut sends: Vec<Outbound> = Vec::new();
        let n = self.peers.len();
        if n == 0 {
            return sends;
        }
        let mut i: usize = 0;
        while i < n - 1
            invariant
                n == self.peers.len(),
                n > 0,
                i <= n - 1,
                self.peers == old(self).peers,
                self.msg_type == old(self).msg_type,
                self.msg.is_none(),
                msg@ == old(self).msg.unwrap()@,
                sends@.len() == i,
                forall|j: int|
                    0 <= j < i ==> (#[trigger] sends@[j]).node == self.peers@[j]
                        && sends@[j].msg_type == self.msg_type && sends@[j].msg@ == msg@,
            decreases n - 1 - i,
        {
            sends.push(
                Outbound { node: self.peers[i], msg_type: self.msg_type, msg: msg.duplicate() },
            );
            i += 1;
        }
        sends.push(Outbound { node: self.peers[n - 1], msg_type: self.msg_type, msg });
        sends
    }

    /// Lines the answers up with the peers: the i-th result is the i-th peer
    /// with its own answer, a failure beside a success. Answers that are not
    /// one per peer cannot be lined up.
    pub fn join_all(&self, outcomes: Vec<SendResult>) -> (r: Option<Vec<(NodeId, SendResult)>>)
        ensures
            r.is_some() == (outcomes@.len() == self.peers@.len()),
            r matches Some(results) ==> results@ == aligned(self.peers@, outcomes@),
    {
        if outcomes.len() != self.peers.len() {
            return None;
        }
        let mut results: Vec<(NodeId, SendResult)> = Vec::new();
        for outcome in it: outcomes
            invariant
                it.seq() == outcomes@,
                outcomes@.len() == self.peers@.len(),
                results@.len() == it.index(),
                forall|j: int|
                    0 <= j < it.index() ==> #[trigger] results@[j] == (
                        self.peers@[j],
                        outcomes@[j],
                    ),
        {
            let ghost at = it.index();
            let i = results.len();
            results.push((self.peers[i], outcome));
        }
        assert(results@ =~= aligned(self.peers@, outcomes@));
        Some(results)
    }
}

/// The results of a broadcast are as many as the peers, and the i-th result
/// is the i-th peer with the answer to the i-th send.
pub proof fn lemma_results_aligned(peers: Seq<NodeId>, outcomes: Seq<SendResult>, i: int)
    requires
        peers.len() == outcomes.len(),
        0 <= i < peers.len(),
    ensures
        aligned(peers, outcomes).len() == peers.len(),
        aligned(peers, outcomes)[i] == (peers[i], outcomes[i]),
{
}

/// Whichever peers fail, the answer of a peer that succeeded is in the
/// results, at that peer's place.
pub proof fn lemma_successes_kept(peers: Seq<NodeId>, outcomes: Seq<SendResult>, i: int)
    requires
        peers.len() == outcomes.len(),
        0 <= i < peers.len(),
        outcomes[i] is Ok,
    ensures
        aligned(peers, outcomes).contains((peers[i], outcomes[i])),
        aligned(peers, outcomes)[i].1 is Ok,
{
    assert(aligned(peers, outcomes)[i] == (peers[i], outcomes[i]));
}

/// Sends one message to one peer and tries again after a failure, up to a
/// number of further tries. The message is copied for each try; nothing
/// keeps the peer from seeing it more than once.
pub struct MessageSender {
    pub node: NodeId,
    pub msg_type: MessageType,
    pub msg: RpcMessage,
    pub max_retries: usize,
    pub retry_interval_ms: u64,
    pub current_retry: usize,
}

/// What the sender does after one try.
#[derive(Debug, PartialEq, Eq)]
pub enum SendStep {
    /// The send is over, with the peer's answer or the last failure.
    Done(SendResult),
    /// Wait the given milliseconds, then make the given send.
    RetryAfter(u64, Outbound),
}

/// Whether a try ends the send: it does where it succeeds, and where it fails
/// with no further try left.
pub open spec fn ends_send(retry: nat, max: nat, ok: bool) -> bool {
    ok || retry >= max
}

/// How many tries a sender makes that has used `retry` of its `max` further
/// tries, where `outcomes` tells of each coming try whether it succeeds. The
/// count ends with the first success, with the failure that finds no further
/// try left, or with the outcomes.
pub open spec fn attempts_made(retry: nat, max: nat, outcomes: Seq<bool>) -> nat
    decreases outcomes.len(),
{
    if outcomes.len() == 0 {
        0
    } else if ends_send(retry, max, outcomes[0]) {
        1
    } else {
        1 + attempts_made(retry + 1, max, outcomes.drop_first())
    }
}

impl MessageSender {
    /// The sender has used no more than its further tries.
    pub open spec fn wf(&self) -> bool {
        self.current_retry <= self.max_retries
    }

    /// A sender that has made no try yet.
    pub fn new(
        node: NodeId,
        msg_type: MessageType,
        msg: RpcMessage,
        max_retries: usize,
        retry_interval_ms: u64,
    ) -> (r: MessageSender)
        ensures
            r.wf(),
            r.node == node,
            r.msg_type == msg_type,
            r.msg == msg,
            r.max_retries == max_retries,
            r.retry_interval_ms == retry_interval_ms,
            r.current_retry == 0,
    {
        MessageSender { node, msg_type, msg, max_retries, retry_interval_ms, current_retry: 0 }
    }

    /// The send to make: the message, copied, for the sender's peer.
    pub fn attempt(&self) -> (r: Outbound)
        ensures
            r.node == self.node,
            r.msg_type == self.msg_type,
            r.msg@ == self.msg@,
    {
        Outbound { node: self.node, msg_type: self.msg_type, msg: self.msg.duplicate() }
    }

    /// Takes the outcome of one try. An answer ends the send. A failure is
    /// followed, after the interval, by a further try while one is left, and
    /// ends the send with that failure when none is.
    pub fn send(&mut self, outcome: SendResult) -> (r: SendStep)
        requires
            old(self).wf(),
        ensures
            final(self).wf(),
            final(self).node == old(self).node,
            final(self).msg_type == old(self).msg_type,
            final(self).msg == old(self).msg,
            final(self).max_retries == old(self).max_retries,
            final(self).retry_interval_ms == old(self).retry_interval_ms,
            r is Done == ends_send(
                old(self).current_retry as nat,
                old(self).max_retries as nat,
                outcome is Ok,
            ),
            match outcome {
                Ok(reply) => r == SendStep::Done(outcome) && final(self).current_retry == old(
                    self,
                ).current_retry,
                Err(e) => if old(self).current_retry < old(self).max_retries {
                    &&& final(self).current_retry == old(self).current_retry + 1
                    &&& r matches SendStep::RetryAfter(wait_ms, next)
                    &&& wait_ms == old(self).retry_interval_ms
                    &&& next.node == old(self).node
                    &&& next.msg_type == old(self).msg_type
                    &&& next.msg@ == old(self).msg@
                } else {
                    r == SendStep::Done(outcome) && final(self).current_retry == old(
                        self,
                    ).current_retry
                },
            },
    {
        match outcome {
            Ok(reply) => SendStep::Done(Ok(reply)),
            Err(e) => {
                if self.current_retry < self.max_retries {
                    self.current_retry = self.current_retry + 1;
                    SendStep::RetryAfter(self.retry_interval_ms, self.attempt())
                } else {
                    SendStep::Done(Err(e))
                }
            },
        }
    }
}

/// A sender whose tries all fail makes one try and then each of its further
/// tries, and no more: `1 + max` tries for a fresh sender.
pub proof fn lemma_attempts_on_failure(retry: nat, max: nat, outcomes: Seq<bool>)
    requires
        retry <= max,
        outcomes.len() >= 1 + max - retry,
        forall|i: int| 0 <= i < outcomes.len() ==> !outcomes[i],
    ensures
        attempts_made(retry, max, outcomes) == 1 + max - retry,
    decreases outcomes.len(),
{
    if retry < max {
        let rest = outcomes.drop_first();
        assert forall|i: int| 0 <= i < rest.len() implies !rest[i] by {
            assert(rest[i] == outcomes[i + 1]);
        }
        lemma_attempts_on_failure(retry + 1, max, rest);
    }
}

/// A sender whose first try succeeds makes that one try.
pub proof fn lemma_attempts_on_success(max: nat, outcomes: Seq<bool>)
    requires
        outcomes.len() > 0,
        outcomes[0],
    ensures
        attempts_made(0, max, outcomes) == 1,
{
}

} // verus!
