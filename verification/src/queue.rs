//! The bounded hand-off queue between the hook path and the web-hook worker.
//!
//! The queue is a bounded channel whose two ends are held together, so that
//! whoever holds the queue is the only one to fill and to drain it.

use crate::json::{Json, JsonModel};
use crate::types::HookType;
use vstd::prelude::*;

verus! {

/// What is handed to the web-hook worker.
#[derive(Debug, PartialEq, Eq)]
pub enum Message {
    /// The body of one event of the given kind, with the topic it is about.
    Body(HookType, Option<String>, Json),
    /// Asks the worker to stop.
    Exit,
}

/// Declares `crossbeam::channel::Sender`, the sending end of a channel.
/// Nothing is known of what is inside a value of it.
#[verifier::external_type_specification]
#[verifier::external_body]
#[verifier::reject_recursive_types(T)]
pub struct ExSender<T>(crossbeam::channel::Sender<T>);

/// Declares `crossbeam::channel::Receiver`, the receiving end of a channel.
/// Nothing is known of what is inside a value of it.
#[verifier::external_type_specification]
#[verifier::external_body]
#[verifier::reject_recursive_types(T)]
pub struct ExReceiver<T>(crossbeam::channel::Receiver<T>);

/// The largest capacity that a queue can be made with on this machine. The
/// channel numbers its slots in a `usize` and needs twice the next power of
/// two above the capacity there, and its buffer of slots must fit the
/// address space; a capacity up to this bound meets both.
pub const MAX_QUEUE_CAPACITY: usize = usize::MAX / 1024;

/// A bounded queue of messages, oldest first.
pub struct HookQueue {
    tx: crossbeam::channel::Sender<Message>,
    rx: crossbeam::channel::Receiver<Message>,
}

/// The messages that wait in the channel of a sending end, oldest first.
pub uninterp spec fn channel_items(tx: crossbeam::channel::Sender<Message>) -> Seq<Message>;

/// The capacity that the channel of a sending end was made with.
pub uninterp spec fn channel_bound(tx: crossbeam::channel::Sender<Message>) -> nat;

/// The messages that wait in the queue, oldest first.
pub closed spec fn queued(q: HookQueue) -> Seq<Message> {
    channel_items(q.tx)
}

/// The capacity that the queue was made with.
pub closed spec fn queue_limit(q: HookQueue) -> nat {
    channel_bound(q.tx)
}

/// Makes the channel with `crossbeam::channel::bounded` and keeps both of its
/// ends. The channel starts empty and holds at most `capacity` messages.
/// `bounded` panics where the capacity is too large for its slot numbers or
/// for the layout of its buffer, which the bound leaves out; like any
/// allocation it does not return where the machine has no memory left.
#[verifier::external_body]
fn channel(capacity: usize) -> (q: HookQueue)
    requires
        capacity <= MAX_QUEUE_CAPACITY,
    ensures
        channel_items(q.tx) == Seq::<Message>::empty(),
        channel_bound(q.tx) == capacity,
{
    let (tx, rx) = crossbeam::channel::bounded(capacity);
    HookQueue { tx, rx }
}

/// The answer to a message that found the queue full: the message itself.
pub open spec fn rejected(msg: Message) -> Result<(), Message> {
    Err(msg)
}

/// Calls `Sender::try_send`, which never blocks. With both ends held here it
/// fails only on a full channel: below the capacity the message is added
/// behind those that wait, else it comes back and nothing changes.
#[verifier::external_body]
fn try_send(q: &mut HookQueue, msg: Message) -> (r: Result<(), Message>)
    ensures
        channel_bound(final(q).tx) == channel_bound(old(q).tx),
        channel_items(old(q).tx).len() < channel_bound(old(q).tx) ==> r is Ok && channel_items(
            final(q).tx,
        ) == channel_items(old(q).tx).push(msg),
        channel_items(old(q).tx).len() >= channel_bound(old(q).tx) ==> r == rejected(msg)
            && channel_items(final(q).tx) == channel_items(old(q).tx),
{
    match q.tx.try_send(msg) {
        Ok(()) => Ok(()),
        Err(e) => Err(e.into_inner()),
    }
}

/// Calls `Receiver::try_recv`, which never blocks and takes the oldest
/// message out of the channel, or gives nothing where none waits.
#[verifier::external_body]
fn try_recv(q: &mut HookQueue) -> (r: Option<Message>)
    ensures
        channel_bound(final(q).tx) == channel_bound(old(q).tx),
        channel_items(old(q).tx).len() > 0 ==> r == Some(channel_items(old(q).tx)[0])
            && channel_items(final(q).tx) == channel_items(old(q).tx).drop_first(),
        channel_items(old(q).tx).len() == 0 ==> r.is_none() && channel_items(final(q).tx)
            == channel_items(old(q).tx),
{
    match q.rx.try_recv() {
        Ok(msg) => Some(msg),
        Err(_) => None,
    }
}

/// Calls `Sender::len`: the number of messages in the channel.
#[verifier::external_body]
fn channel_len(q: &HookQueue) -> (r: usize)
    ensures
        r == channel_items(q.tx).len(),
{
    q.tx.len()
}

/// The mathematical model of a message.
pub enum MessageModel {
    Body(HookType, Option<Seq<char>>, JsonModel),
    Exit,
}

impl View for Message {
    type V = MessageModel;

    open spec fn view(&self) -> MessageModel {
        match self {
            Message::Body(typ, topic, body) => MessageModel::Body(
                *typ,
                match topic {
                    Some(t) => Some(t@),
                    None => None,
                },
                body@,
            ),
            Message::Exit => MessageModel::Exit,
        }
    }
}

/// The models of the messages that wait in the queue, oldest first.
pub closed spec fn waiting(q: HookQueue) -> Seq<MessageModel> {
    Seq::new(queued(q).len(), |i: int| queued(q)[i]@)
}

/// The queue after `msgs` were offered to it one after the other with nothing
/// taken out in between: those that fit are added, in their order.
pub open spec fn after_offers(items: Seq<MessageModel>, limit: nat, msgs: Seq<MessageModel>) -> Seq<
    MessageModel,
> {
    items + msgs.take(accepted_count(items.len(), limit, msgs.len()) as int)
}

/// How many of `offered` messages a queue of `held` messages accepts.
pub open spec fn accepted_count(held: nat, limit: nat, offered: nat) -> nat {
    if held >= limit {
        0
    } else if offered <= limit - held {
        offered
    } else {
        (limit - held) as nat
    }
}

/// How many of `offered` messages a queue of `held` messages drops.
pub open spec fn dropped_count(held: nat, limit: nat, offered: nat) -> nat {
    (offered - accepted_count(held, limit, offered)) as nat
}

impl HookQueue {
    /// The queue is within its capacity.
    pub open spec fn wf(&self) -> bool {
        waiting(*self).len() <= queue_limit(*self)
    }

    /// An empty queue that holds at most `capacity` messages.
    pub fn with_capacity(capacity: usize) -> (q: HookQueue)
        requires
            capacity <= MAX_QUEUE_CAPACITY,
        ensures
            q.wf(),
            waiting(q) == Seq::<MessageModel>::empty(),
            queue_limit(q) == capacity,
    {
        let q = channel(capacity);
        assert(waiting(q) =~= Seq::<MessageModel>::empty());
        q
    }

    /// An empty queue of the given capacity, or nothing where the capacity is
    /// beyond what a queue can be made with on this machine
    /// ([`MAX_QUEUE_CAPACITY`]).
    pub fn new(capacity: usize) -> (r: Option<HookQueue>)
        ensures
            r.is_some() == (capacity <= MAX_QUEUE_CAPACITY),
            r matches Some(q) ==> q.wf() && waiting(q) == Seq::<MessageModel>::empty()
                && queue_limit(q) == capacity,
    {
        if capacity <= MAX_QUEUE_CAPACITY {
            Some(HookQueue::with_capacity(capacity))
        } else {
            None
        }
    }

    /// Offers `msg` without ever waiting. Below the capacity the message is
    /// queued behind the others; on a full queue it is handed back and the
    /// queue stays as it was.
    pub fn offer(&mut self, msg: Message) -> (r: Result<(), Message>)
        requires
            old(self).wf(),
        ensures
            final(self).wf(),
            queue_limit(*final(self)) == queue_limit(*old(self)),
            r is Ok == (waiting(*old(self)).len() < queue_limit(*old(self))),
            r is Ok ==> waiting(*final(self)) == waiting(*old(self)).push(msg@),
            r is Err ==> r == rejected(msg) && waiting(*final(self)) == waiting(*old(self)),
    {
        let r = try_send(self, msg);
        assert(r is Ok ==> waiting(*self) =~= waiting(*old(self)).push(msg@));
        r
    }

    /// Takes the oldest message out of the queue, if one waits.
    pub fn take(&mut self) -> (r: Option<Message>)
        requires
            old(self).wf(),
        ensures
            final(self).wf(),
            queue_limit(*final(self)) == queue_limit(*old(self)),
            r.is_some() == (waiting(*old(self)).len() > 0),
            r matches Some(m) ==> m@ == waiting(*old(self))[0] && waiting(*final(self)) == waiting(
                *old(self),
            ).drop_first(),
            r.is_none() ==> waiting(*final(self)) == waiting(*old(self)),
    {
        let r = try_recv(self);
        assert(r.is_some() ==> waiting(*self) =~= waiting(*old(self)).drop_first());
        r
    }

    /// The number of messages that wait.
    pub fn len(&self) -> (r: usize)
        ensures
            r == waiting(*self).len(),
    {
        channel_len(self)
    }
}

/// On a queue that starts empty, offering as many messages as it holds and
/// `k` more, with nothing taken out in between, fills the queue and drops
/// exactly `k`: the first ones are kept, in their order.
pub proof fn lemma_overflow_drops(limit: nat, k: nat, msgs: Seq<MessageModel>)
    requires
        msgs.len() == limit + k,
    ensures
        dropped_count(0, limit, msgs.len()) == k,
        accepted_count(0, limit, msgs.len()) == limit,
        after_offers(Seq::empty(), limit, msgs) == msgs.take(limit as int),
        after_offers(Seq::empty(), limit, msgs).len() == limit,
{
    assert(after_offers(Seq::empty(), limit, msgs) =~= msgs.take(limit as int));
}

/// Offering one message more to a queue that took a run of offers is taking
/// the run with that message at its end.
pub proof fn lemma_offer_step(
    items: Seq<MessageModel>,
    limit: nat,
    msgs: Seq<MessageModel>,
    msg: MessageModel,
)
    requires
        items.len() <= limit,
    ensures
        after_offers(items, limit, msgs.push(msg)) == if after_offers(items, limit, msgs).len()
            < limit {
            after_offers(items, limit, msgs).push(msg)
        } else {
            after_offers(items, limit, msgs)
        },
        dropped_count(items.len(), limit, msgs.len() + 1) == if after_offers(
            items,
            limit,
            msgs,
        ).len() < limit {
            dropped_count(items.len(), limit, msgs.len())
        } else {
            dropped_count(items.len(), limit, msgs.len()) + 1
        },
{
    let n = accepted_count(items.len(), limit, msgs.len());
    if after_offers(items, limit, msgs).len() < limit {
        assert(n == msgs.len());
        assert(msgs.push(msg).take(n as int + 1) =~= msgs.take(n as int).push(msg));
        assert(after_offers(items, limit, msgs.push(msg)) =~= after_offers(
            items,
            limit,
            msgs,
        ).push(msg));
    } else {
        assert(msgs.push(msg).take(n as int) =~= msgs.take(n as int));
    }
}

} // verus!
