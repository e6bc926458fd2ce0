//! The web-hook dispatcher: events are turned into bodies and offered to a
//! bounded queue on the hook path; a worker takes them out and plans the HTTP
//! requests that the rules ask for; the configuration can be replaced while
//! the dispatcher runs.

use crate::body::{
    bodies_at, bodies_model, bodies_spec, now_millis, TopicBody, TopicBodyModel,
};
use crate::json::{members_model, Json, JsonModel};
use crate::queue::{
    after_offers, dropped_count, lemma_offer_step, queue_limit, waiting, HookQueue, Message,
    MessageModel, MAX_QUEUE_CAPACITY,
};
use crate::rules::{plan_requests, plan_spec, requests_model, HttpRequest, PluginConfig};
use crate::types::{HookResult, HookType, Millis, Parameter, ReturnType};
use vstd::prelude::*;

verus! {

/// The messages that carry the bodies of one event of the kind `typ`.
pub open spec fn body_messages(typ: HookType, bodies: Seq<TopicBodyModel>) -> Seq<MessageModel> {
    Seq::new(bodies.len(), |i: int| MessageModel::Body(typ, bodies[i].0, bodies[i].1))
}

/// Offers each body of one event to the queue, in their order, and counts
/// those that found it full. No offer waits.
pub fn submit(queue: &mut HookQueue, typ: HookType, bodies: Vec<TopicBody>) -> (dropped: usize)
    requires
        old(queue).wf(),
    ensures
        final(queue).wf(),
        queue_limit(*final(queue)) == queue_limit(*old(queue)),
        waiting(*final(queue)) == after_offers(
            waiting(*old(queue)),
            queue_limit(*old(queue)),
            body_messages(typ, bodies_model(bodies@)),
        ),
        dropped == dropped_count(
            waiting(*old(queue)).len(),
            queue_limit(*old(queue)),
            bodies@.len(),
        ),
{
    let ghost before = waiting(*queue);
    let ghost limit = queue_limit(*queue);
    let ghost msgs = body_messages(typ, bodies_model(bodies@));
    let total = bodies.len();
    let mut dropped: usize = 0;
    assert(after_offers(before, limit, msgs.take(0)) =~= before);
    for item in it: bodies
        invariant
            queue.wf(),
            queue_limit(*queue) == limit,
            before.len() <= limit,
            it.seq() == bodies@,
            total == bodies@.len(),
            msgs == body_messages(typ, bodies_model(bodies@)),
            waiting(*queue) == after_offers(before, limit, msgs.take(it.index() as int)),
            dropped == dropped_count(before.len(), limit, it.index() as nat),
            dropped <= it.index(),
    {
        let ghost i = it.index() as int;
        let (topic, body) = item;
        let msg = Message::Body(typ, topic, body);
        proof {
            assert(msg@ == msgs[i]);
            assert(msgs.take(i + 1) =~= msgs.take(i).push(msgs[i]));
            lemma_offer_step(before, limit, msgs.take(i), msgs[i]);
        }
        match queue.offer(msg) {
            Ok(()) => {},
            Err(_) => {
                dropped += 1;
            },
        }
    }
    assert(msgs.take(total as int) =~= msgs);
    dropped
}

/// How one HTTP request ended, as the dispatcher records it. Nothing is tried
/// again and nothing reaches the broker.
#[derive(Clone, Copy, Debug, PartialEq, Eq, Structural)]
pub enum HttpOutcome {
    /// The receiver answered with a status from 200 to 299.
    Delivered,
    /// The receiver answered with another status: worth a warning.
    Rejected(u16),
    /// No answer came: the request failed in transport or timed out.
    Failed,
}

/// Judges the end of one HTTP request by the status of the answer, if one
/// came.
pub fn http_outcome(status: Option<u16>) -> (r: HttpOutcome)
    ensures
        r == match status {
            Some(code) => if 200 <= code <= 299 {
                HttpOutcome::Delivered
            } else {
                HttpOutcome::Rejected(code)
            },
            None => HttpOutcome::Failed,
        },
{
    match status {
        Some(code) => {
            if 200 <= code && code <= 299 {
                HttpOutcome::Delivered
            } else {
                HttpOutcome::Rejected(code)
            }
        },
        None => HttpOutcome::Failed,
    }
}

/// What the worker does next.
#[derive(Debug, PartialEq, Eq)]
pub enum WorkerStep {
    /// Nothing waits.
    Idle,
    /// The worker was asked to stop.
    Exit,
    /// The requests of one body, to be run together.
    Run(Vec<HttpRequest>),
}

/// Why a new configuration was not taken up.
#[derive(Clone, Copy, Debug, PartialEq, Eq, Structural)]
pub enum ReloadError {
    /// The new queue capacity is beyond what a queue is made with.
    CapacityTooLarge,
    /// The old worker could not be asked to stop: its queue is full.
    ExitNotDelivered,
}

/// The web-hook dispatcher: its configuration, its queue and the number of
/// bodies whose requests are under way.
pub struct WebHookPlugin {
    pub name: String,
    pub descr: String,
    pub cfg: PluginConfig,
    pub queue: HookQueue,
    pub processings: isize,
}

/// How a reload ended.
pub enum Reloaded {
    /// The configuration was replaced; queue and worker stay.
    Swapped(WebHookPlugin),
    /// A new queue took over. The retired one holds what waited, and behind
    /// it the request to stop, for the old worker to drain.
    Restarted { plugin: WebHookPlugin, retired: HookQueue },
    /// Nothing changed.
    Refused { plugin: WebHookPlugin, error: ReloadError },
}

/// A reload replaces queue and worker when the number of worker threads or
/// the queue capacity changes.
pub open spec fn needs_restart(old_cfg: PluginConfig, new_cfg: PluginConfig) -> bool {
    old_cfg.worker_threads != new_cfg.worker_threads || old_cfg.async_queue_capacity
        != new_cfg.async_queue_capacity
}

/// How a reload of `before` with `new_cfg` ends. Only the configuration is
/// replaced where neither the number of worker threads nor the capacity
/// changes. Else a fresh, empty queue of the new capacity takes over and the
/// retired queue gets the request to stop behind what waited in it; the
/// reload is refused, and nothing changes, where the new capacity is too
/// large or the retired queue is full.
pub open spec fn reload_outcome(before: WebHookPlugin, new_cfg: PluginConfig, r: Reloaded) -> bool {
    match r {
        Reloaded::Swapped(p) => {
            &&& !needs_restart(before.cfg, new_cfg)
            &&& p.wf()
            &&& p.cfg == new_cfg
            &&& p.queue == before.queue
            &&& p.processings == before.processings
            &&& p.name == before.name
            &&& p.descr == before.descr
        },
        Reloaded::Restarted { plugin, retired } => {
            &&& needs_restart(before.cfg, new_cfg)
            &&& new_cfg.async_queue_capacity <= MAX_QUEUE_CAPACITY
            &&& waiting(before.queue).len() < queue_limit(before.queue)
            &&& plugin.wf()
            &&& plugin.cfg == new_cfg
            &&& plugin.processings == before.processings
            &&& plugin.name == before.name
            &&& plugin.descr == before.descr
            &&& waiting(plugin.queue) == Seq::<MessageModel>::empty()
            &&& queue_limit(plugin.queue) == new_cfg.async_queue_capacity
            &&& retired.wf()
            &&& waiting(retired) == waiting(before.queue).push(MessageModel::Exit)
            &&& queue_limit(retired) == queue_limit(before.queue)
        },
        Reloaded::Refused { plugin, error } => {
            &&& needs_restart(before.cfg, new_cfg)
            &&& plugin.wf()
            &&& plugin.cfg == before.cfg
            &&& plugin.processings == before.processings
            &&& plugin.name == before.name
            &&& plugin.descr == before.descr
            &&& waiting(plugin.queue) == waiting(before.queue)
            &&& queue_limit(plugin.queue) == queue_limit(before.queue)
            &&& if new_cfg.async_queue_capacity > MAX_QUEUE_CAPACITY {
                error == ReloadError::CapacityTooLarge
            } else {
                error == ReloadError::ExitNotDelivered && waiting(before.queue).len()
                    >= queue_limit(before.queue)
            }
        },
    }
}

/// The counter of bodies under way after one more was begun. It wraps at the
/// end of its range.
pub open spec fn begun(processings: isize) -> isize {
    if processings == isize::MAX {
        isize::MIN
    } else {
        (processings + 1) as isize
    }
}

/// The counter of bodies under way after one was finished. It wraps at the
/// start of its range.
pub open spec fn finished(processings: isize) -> isize {
    if processings == isize::MIN {
        isize::MAX
    } else {
        (processings - 1) as isize
    }
}

/// The kinds of event that the web-hook registers a handler for.
pub open spec fn web_hook_types() -> Seq<HookType> {
    seq![
        HookType::SessionCreated,
        HookType::SessionTerminated,
        HookType::SessionSubscribed,
        HookType::SessionUnsubscribed,
        HookType::ClientConnect,
        HookType::ClientConnack,
        HookType::ClientConnected,
        HookType::ClientDisconnected,
        HookType::ClientSubscribe,
        HookType::ClientUnsubscribe,
        HookType::MessagePublish,
        HookType::MessageDelivered,
        HookType::MessageAcked,
        HookType::MessageDropped,
    ]
}

impl WebHookPlugin {
    /// The queue is within its capacity, and its capacity is the configured
    /// one.
    pub open spec fn wf(&self) -> bool {
        &&& self.queue.wf()
        &&& queue_limit(self.queue) == self.cfg.async_queue_capacity
    }

    /// A dispatcher with an empty queue of the configured capacity and nothing
    /// under way; nothing where the capacity is beyond what a queue can be
    /// made with on this machine ([`MAX_QUEUE_CAPACITY`]).
    pub fn new(name: String, descr: String, cfg: PluginConfig) -> (r: Option<WebHookPlugin>)
        ensures
            r.is_some() == (cfg.async_queue_capacity <= MAX_QUEUE_CAPACITY),
            r matches Some(p) ==> p.wf() && p.name == name && p.descr == descr && p.cfg == cfg
                && p.processings == 0 && waiting(p.queue) == Seq::<MessageModel>::empty()
                && queue_limit(p.queue) == cfg.async_queue_capacity,
    {
        match HookQueue::new(cfg.async_queue_capacity) {
            Some(queue) => Some(WebHookPlugin { name, descr, cfg, queue, processings: 0 }),
            None => None,
        }
    }

    /// The kinds of event to register the handler for, in the order of
    /// registration.
    pub fn init(&self) -> (r: Vec<HookType>)
        ensures
            r@ == web_hook_types(),
    {
        let mut kinds: Vec<HookType> = Vec::new();
        kinds.push(HookType::SessionCreated);
        kinds.push(HookType::SessionTerminated);
        kinds.push(HookType::SessionSubscribed);
        kinds.push(HookType::SessionUnsubscribed);
        kinds.push(HookType::ClientConnect);
        kinds.push(HookType::ClientConnack);
        kinds.push(HookType::ClientConnected);
        kinds.push(HookType::ClientDisconnected);
        kinds.push(HookType::ClientSubscribe);
        kinds.push(HookType::ClientUnsubscribe);
        kinds.push(HookType::MessagePublish);
        kinds.push(HookType::MessageDelivered);
        kinds.push(HookType::MessageAcked);
        kinds.push(HookType::MessageDropped);
        assert(kinds@ =~= web_hook_types());
        kinds
    }

    /// Handles the event `param` at the time `now`: its bodies are offered
    /// to the queue, those that find it full are dropped, and the chain goes
    /// on with the accumulated result untouched. Nothing here waits.
    pub fn hook_at(&mut self, param: &Parameter, acc: Option<HookResult>, now: Millis) -> (r:
        ReturnType)
        requires
            old(self).wf(),
        ensures
            final(self).wf(),
            r == (true, acc),
            final(self).cfg == old(self).cfg,
            final(self).name == old(self).name,
            final(self).descr == old(self).descr,
            final(self).processings == old(self).processings,
            queue_limit(final(self).queue) == queue_limit(old(self).queue),
            waiting(final(self).queue) == after_offers(
                waiting(old(self).queue),
                queue_limit(old(self).queue),
                body_messages(param.kind(), bodies_spec(*param, now as int)),
            ),
    {
        let typ = param.get_type();
        let bodies = bodies_at(param, now);
        let _dropped = submit(&mut self.queue, typ, bodies);
        (true, acc)
    }

    /// Handles the event `param` now: as [`WebHookPlugin::hook_at`] does for
    /// the time that the clock shows.
    pub fn hook(&mut self, param: &Parameter, acc: Option<HookResult>) -> (r: ReturnType)
        requires
            old(self).wf(),
        ensures
            final(self).wf(),
            r == (true, acc),
            final(self).cfg == old(self).cfg,
            final(self).name == old(self).name,
            final(self).descr == old(self).descr,
            final(self).processings == old(self).processings,
            queue_limit(final(self).queue) == queue_limit(old(self).queue),
            exists|now: Millis|
                waiting(final(self).queue) == after_offers(
                    waiting(old(self).queue),
                    queue_limit(old(self).queue),
                    body_messages(param.kind(), #[trigger] bodies_spec(*param, now as int)),
                ),
    {
        let now = now_millis();
        self.hook_at(param, acc, now)
    }

    /// Takes the next message for the worker. A body is turned into the
    /// requests that the rules ask for and counted as under way; the request
    /// to stop ends the worker; an empty queue leaves it idle.
    pub fn next_task(&mut self) -> (r: WorkerStep)
        requires
            old(self).wf(),
        ensures
            final(self).wf(),
            final(self).cfg == old(self).cfg,
            final(self).name == old(self).name,
            final(self).descr == old(self).descr,
            queue_limit(final(self).queue) == queue_limit(old(self).queue),
            waiting(old(self).queue).len() == 0 ==> r is Idle && waiting(final(self).queue)
                == waiting(old(self).queue) && final(self).processings == old(self).processings,
            waiting(old(self).queue).len() > 0 ==> waiting(final(self).queue) == waiting(
                old(self).queue,
            ).drop_first() && match waiting(old(self).queue)[0] {
                MessageModel::Exit => r is Exit && final(self).processings == old(
                    self,
                ).processings,
                MessageModel::Body(typ, topic, body) => r is Run && requests_model(r->Run_0@)
                    == plan_spec(
                    old(self).cfg.rules@,
                    old(self).cfg.http_urls@,
                    old(self).cfg.http_timeout_ms as int,
                    typ,
                    topic,
                    body,
                ) && final(self).processings == begun(old(self).processings),
            },
    {
        match self.queue.take() {
            None => WorkerStep::Idle,
            Some(Message::Exit) => WorkerStep::Exit,
            Some(Message::Body(typ, topic, body)) => {
                self.processings = self.processings.wrapping_add(1);
                WorkerStep::Run(plan_requests(&self.cfg, typ, &topic, &body))
            },
        }
    }

    /// Records that the requests of one body have ended.
    pub fn task_done(&mut self)
        ensures
            final(self).cfg == old(self).cfg,
            final(self).name == old(self).name,
            final(self).descr == old(self).descr,
            final(self).queue == old(self).queue,
            final(self).processings == finished(old(self).processings),
    {
        self.processings = self.processings.wrapping_sub(1);
    }

    /// Takes up a new configuration. Where the number of worker threads or
    /// the queue capacity changes, a fresh queue of the new capacity takes
    /// over, and the old worker is asked to stop behind what still waits in
    /// the old queue; where that request cannot be queued, or the new
    /// capacity is too large, nothing changes. Otherwise only the
    /// configuration is replaced.
    pub fn load_config(self, new_cfg: PluginConfig) -> (r: Reloaded)
        requires
            self.wf(),
        ensures
            reload_outcome(self, new_cfg, r),
    {
        let WebHookPlugin { name, descr, cfg, queue, processings } = self;
        if cfg.worker_threads != new_cfg.worker_threads || cfg.async_queue_capacity
            != new_cfg.async_queue_capacity {
            match HookQueue::new(new_cfg.async_queue_capacity) {
                None => Reloaded::Refused {
                    plugin: WebHookPlugin { name, descr, cfg, queue, processings },
                    error: ReloadError::CapacityTooLarge,
                },
                Some(fresh) => {
                    let mut retired = queue;
                    match retired.offer(Message::Exit) {
                        Err(_) => Reloaded::Refused {
                            plugin: WebHookPlugin { name, descr, cfg, queue: retired, processings },
                            error: ReloadError::ExitNotDelivered,
                        },
                        Ok(()) => Reloaded::Restarted {
                            plugin: WebHookPlugin {
                                name,
                                descr,
                                cfg: new_cfg,
                                queue: fresh,
                                processings,
                            },
                            retired,
                        },
                    }
                },
            }
        } else {
            Reloaded::Swapped(WebHookPlugin { name, descr, cfg: new_cfg, queue, processings })
        }
    }

    /// The dispatcher can be stopped: the answer is always `true`.
    pub fn stop(&self) -> (r: bool)
        ensures
            r,
    {
        true
    }

    /// The name that the dispatcher was registered under.
    pub fn name(&self) -> (r: &str)
        ensures
            r@ == self.name@,
    {
        self.name.as_str()
    }

    /// What the dispatcher says of itself.
    pub fn descr(&self) -> (r: &str)
        ensures
            r@ == self.descr@,
    {
        self.descr.as_str()
    }

    /// The dispatcher's version.
    pub fn version(&self) -> (r: &'static str)
        ensures
            r@ == "0.1.1"@,
    {
        "0.1.1"
    }

    /// What the dispatcher reports of itself: how many messages wait and how
    /// many bodies are under way.
    pub fn attrs(&self) -> (r: Json)
        ensures
            r@ == JsonModel::Object(
                seq![
                    ("queue_len"@, JsonModel::Num(waiting(self.queue).len() as int)),
                    ("active_tasks"@, JsonModel::Num(self.processings as int)),
                ],
            ),
    {
        let mut members: Vec<(String, Json)> = Vec::new();
        members.push(Json::entry("queue_len", Json::Num(self.queue.len() as i128)));
        members.push(Json::entry("active_tasks", Json::Num(self.processings as i128)));
        assert(members_model(members@) =~= seq![
            ("queue_len"@, JsonModel::Num(waiting(self.queue).len() as int)),
            ("active_tasks"@, JsonModel::Num(self.processings as int)),
        ]);
        Json::from_members(members)
    }
}

/// After a reload that replaced the queue, the dispatcher works with the new
/// configuration; whatever is offered from then on goes to the fresh queue,
/// which starts empty and keeps as many messages as the new capacity allows;
/// and the retired queue holds what waited before, in its order, and then the
/// request to stop, and nothing else.
pub proof fn lemma_reload_switches_queue(
    before: WebHookPlugin,
    new_cfg: PluginConfig,
    plugin: WebHookPlugin,
    retired: HookQueue,
    msgs: Seq<MessageModel>,
)
    requires
        before.wf(),
        reload_outcome(before, new_cfg, Reloaded::Restarted { plugin, retired }),
    ensures
        plugin.cfg.worker_threads == new_cfg.worker_threads,
        plugin.cfg.async_queue_capacity == new_cfg.async_queue_capacity,
        after_offers(waiting(plugin.queue), queue_limit(plugin.queue), msgs) == msgs.take(
            if msgs.len() <= new_cfg.async_queue_capacity {
                msgs.len() as int
            } else {
                new_cfg.async_queue_capacity as int
            },
        ),
        waiting(retired).len() == waiting(before.queue).len() + 1,
        waiting(retired).last() == MessageModel::Exit,
        forall|i: int|
            0 <= i < waiting(before.queue).len() ==> waiting(retired)[i] == waiting(
                before.queue,
            )[i],
{
    assert(after_offers(waiting(plugin.queue), queue_limit(plugin.queue), msgs) =~= msgs.take(
        if msgs.len() <= new_cfg.async_queue_capacity {
            msgs.len() as int
        } else {
            new_cfg.async_queue_capacity as int
        },
    ));
}

} // verus!
