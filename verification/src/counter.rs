//! The counter plug-in: which broker counters an event advances.

use crate::types::{HookResult, HookType, Parameter, ReturnType};
use vstd::prelude::*;

verus! {

/// A broker counter.
#[derive(Clone, Copy, Debug, PartialEq, Eq, Hash, Structural)]
pub enum Metric {
    ClientConnect,
    ClientAuthAnonymous,
    ClientAuthenticate,
    ClientConnack,
    ClientConnected,
    SessionResumed,
    ClientDisconnected,
    ClientSubscribeCheckAcl,
    ClientPublishCheckAcl,
    ClientSubscribe,
    ClientUnsubscribe,
    SessionCreated,
    SessionTerminated,
    SessionSubscribed,
    SessionUnsubscribed,
    MessagesPublish,
    MessagesDelivered,
    MessagesAcked,
    MessagesDropped,
}

/// The counters that an event advances by one, in the order in which they
/// are advanced. A connection attempt without a user name also counts as
/// anonymous, and a connection that found its session also as a resumed
/// session; a message from a peer advances none.
pub open spec fn counted(param: Parameter) -> Seq<Metric> {
    match param {
        Parameter::ClientConnect(info) => if info.username_spec().is_none() {
            seq![Metric::ClientConnect, Metric::ClientAuthAnonymous]
        } else {
            seq![Metric::ClientConnect]
        },
        Parameter::ClientAuthenticate(..) => seq![Metric::ClientAuthenticate],
        Parameter::ClientConnack(..) => seq![Metric::ClientConnack],
        Parameter::ClientConnected { session_present, .. } => if session_present {
            seq![Metric::ClientConnected, Metric::SessionResumed]
        } else {
            seq![Metric::ClientConnected]
        },
        Parameter::ClientDisconnected { .. } => seq![Metric::ClientDisconnected],
        Parameter::ClientSubscribeCheckAcl { .. } => seq![Metric::ClientSubscribeCheckAcl],
        Parameter::ClientSubscribe { .. } => seq![Metric::ClientSubscribe],
        Parameter::ClientUnsubscribe { .. } => seq![Metric::ClientUnsubscribe],
        Parameter::SessionCreated { .. } => seq![Metric::SessionCreated],
        Parameter::SessionTerminated { .. } => seq![Metric::SessionTerminated],
        Parameter::SessionSubscribed { .. } => seq![Metric::SessionSubscribed],
        Parameter::SessionUnsubscribed { .. } => seq![Metric::SessionUnsubscribed],
        Parameter::MessagePublishCheckAcl { .. } => seq![Metric::ClientPublishCheckAcl],
        Parameter::MessagePublish { .. } => seq![Metric::MessagesPublish],
        Parameter::MessageDelivered { .. } => seq![Metric::MessagesDelivered],
        Parameter::MessageAcked { .. } => seq![Metric::MessagesAcked],
        Parameter::MessageDropped { .. } => seq![Metric::MessagesDropped],
        Parameter::GrpcMessageReceived { .. } => Seq::empty(),
    }
}

/// The kinds of event that the counter plug-in registers a handler for.
pub open spec fn counter_hook_types() -> Seq<HookType> {
    seq![
        HookType::ClientConnect,
        HookType::ClientAuthenticate,
        HookType::ClientConnack,
        HookType::ClientConnected,
        HookType::ClientDisconnected,
        HookType::ClientSubscribe,
        HookType::ClientUnsubscribe,
        HookType::ClientSubscribeCheckAcl,
        HookType::MessagePublishCheckAcl,
        HookType::SessionCreated,
        HookType::SessionTerminated,
        HookType::SessionSubscribed,
        HookType::SessionUnsubscribed,
        HookType::MessagePublish,
        HookType::MessageDelivered,
        HookType::MessageAcked,
        HookType::MessageDropped,
    ]
}

/// A list of one counter.
fn one(metric: Metric) -> (r: Vec<Metric>)
    ensures
        r@ == seq![metric],
{
    let mut metrics: Vec<Metric> = Vec::new();
    metrics.push(metric);
    assert(metrics@ =~= seq![metric]);
    metrics
}

/// A list of two counters.
fn two(first: Metric, second: Metric) -> (r: Vec<Metric>)
    ensures
        r@ == seq![first, second],
{
    let mut metrics: Vec<Metric> = Vec::new();
    metrics.push(first);
    metrics.push(second);
    assert(metrics@ =~= seq![first, second]);
    metrics
}

/// The handler of the counter plug-in.
#[derive(Clone, Copy, Debug, PartialEq, Eq, Structural)]
pub struct CounterHandler {}

impl CounterHandler {
    /// The handler. It keeps nothing of its own.
    pub fn new() -> (r: CounterHandler)
        ensures
            r == (CounterHandler {  }),
    {
        CounterHandler {  }
    }

    /// Handles the event `param`: names the counters to advance, lets the
    /// chain go on and hands the accumulated result through.
    pub fn hook(&self, param: &Parameter, acc: Option<HookResult>) -> (r: (Vec<Metric>, ReturnType))
        ensures
            r.0@ == counted(*param),
            r.1 == (true, acc),
    {
        let metrics = match param {
            Parameter::ClientConnect(info) => {
                if info.username().is_none() {
                    two(Metric::ClientConnect, Metric::ClientAuthAnonymous)
                } else {
                    one(Metric::ClientConnect)
                }
            },
            Parameter::ClientAuthenticate(..) => one(Metric::ClientAuthenticate),
            Parameter::ClientConnack(..) => one(Metric::ClientConnack),
            Parameter::ClientConnected { session_present, .. } => {
                if *session_present {
                    two(Metric::ClientConnected, Metric::SessionResumed)
                } else {
                    one(Metric::ClientConnected)
                }
            },
            Parameter::ClientDisconnected { .. } => one(Metric::ClientDisconnected),
            Parameter::ClientSubscribeCheckAcl { .. } => one(Metric::ClientSubscribeCheckAcl),
            Parameter::ClientSubscribe { .. } => one(Metric::ClientSubscribe),
            Parameter::ClientUnsubscribe { .. } => one(Metric::ClientUnsubscribe),
            Parameter::SessionCreated { .. } => one(Metric::SessionCreated),
            Parameter::SessionTerminated { .. } => one(Metric::SessionTerminated),
            Parameter::SessionSubscribed { .. } => one(Metric::SessionSubscribed),
            Parameter::SessionUnsubscribed { .. } => one(Metric::SessionUnsubscribed),
            Parameter::MessagePublishCheckAcl { .. } => one(Metric::ClientPublishCheckAcl),
            Parameter::MessagePublish { .. } => one(Metric::MessagesPublish),
            Parameter::MessageDelivered { .. } => one(Metric::MessagesDelivered),
            Parameter::MessageAcked { .. } => one(Metric::MessagesAcked),
            Parameter::MessageDropped { .. } => one(Metric::MessagesDropped),
            Parameter::GrpcMessageReceived { .. } => Vec::new(),
        };
        (metrics, (true, acc))
    }
}

/// The counter plug-in as the broker lists it.
#[derive(Clone, Debug, PartialEq, Eq)]
pub struct CounterPlugin {
    pub name: String,
    pub descr: String,
}

impl CounterPlugin {
    /// The plug-in under the given name and description.
    pub fn new(name: &str, descr: &str) -> (r: CounterPlugin)
        ensures
            r.name@ == name@,
            r.descr@ == descr@,
    {
        CounterPlugin { name: String::from_str(name), descr: String::from_str(descr) }
    }

    /// The kinds of event to register a handler for, in the order of
    /// registration.
    pub fn init(&self) -> (r: Vec<HookType>)
        ensures
            r@ == counter_hook_types(),
    {
        let mut kinds: Vec<HookType> = Vec::new();
        kinds.push(HookType::ClientConnect);
        kinds.push(HookType::ClientAuthenticate);
        kinds.push(HookType::ClientConnack);
        kinds.push(HookType::ClientConnected);
        kinds.push(HookType::ClientDisconnected);
        kinds.push(HookType::ClientSubscribe);
        kinds.push(HookType::ClientUnsubscribe);
        kinds.push(HookType::ClientSubscribeCheckAcl);
        kinds.push(HookType::MessagePublishCheckAcl);
        kinds.push(HookType::SessionCreated);
        kinds.push(HookType::SessionTerminated);
        kinds.push(HookType::SessionSubscribed);
        kinds.push(HookType::SessionUnsubscribed);
        kinds.push(HookType::MessagePublish);
        kinds.push(HookType::MessageDelivered);
        kinds.push(HookType::MessageAcked);
        kinds.push(HookType::MessageDropped);
        assert(kinds@ =~= counter_hook_types());
        kinds
    }

    /// The plug-in cannot be stopped: the answer is always `false`.
    pub fn stop(&self) -> (r: bool)
        ensures
            !r,
    {
        false
    }

    /// The name that the plug-in is registered under.
    pub fn name(&self) -> (r: &str)
        ensures
            r@ == self.name@,
    {
        self.name.as_str()
    }

    /// What the plug-in says of itself.
    pub fn descr(&self) -> (r: &str)
        ensures
            r@ == self.descr@,
    {
        self.descr.as_str()
    }

    /// The plug-in's version.
    pub fn version(&self) -> (r: &'static str)
        ensures
            r@ == "0.1.0"@,
    {
        "0.1.0"
    }
}

} // verus!
