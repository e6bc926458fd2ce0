use cluster_hooks::body::bodies_at;
use cluster_hooks::json::Json;
use cluster_hooks::queue::{HookQueue, Message, MAX_QUEUE_CAPACITY};
use cluster_hooks::rules::{HttpRequest, PluginConfig, Rule};
use cluster_hooks::types::{HookResult, HookType, Id, Parameter, QoS};
use cluster_hooks::webhook::{http_outcome, submit, HttpOutcome, ReloadError, Reloaded, WebHookPlugin, WorkerStep};

fn id() -> Id {
    Id { node_id: 1, remote_addr: None, client_id: "c1".to_string(), username: None }
}

fn cfg(worker_threads: usize, capacity: usize) -> PluginConfig {
    PluginConfig {
        worker_threads,
        async_queue_capacity: capacity,
        http_timeout_ms: 5000,
        http_urls: vec!["http://g".to_string()],
        rules: vec![(
            HookType::SessionCreated,
            Rule { action: "session_created".to_string(), topics: None, urls: vec!["http://h1".to_string(), "http://h2".to_string()] },
        )],
    }
}

fn plugin(worker_threads: usize, capacity: usize) -> WebHookPlugin {
    WebHookPlugin::new("web-hook".to_string(), "posts events".to_string(), cfg(worker_threads, capacity)).unwrap()
}

fn created(n: i64) -> Parameter {
    Parameter::SessionCreated { id: id(), created_at: n }
}

fn drain(q: &mut HookQueue) -> Vec<Message> {
    let mut all = Vec::new();
    while let Some(m) = q.take() {
        all.push(m);
    }
    all
}

#[test]
fn new_plugin_has_an_empty_queue() {
    let p = plugin(2, 4);
    assert_eq!(p.queue.len(), 0);
    assert_eq!(p.processings, 0);
    assert_eq!(p.name(), "web-hook");
    assert_eq!(p.descr(), "posts events");
    assert_eq!(p.version(), "0.1.1");
    assert!(p.stop());
    assert!(WebHookPlugin::new("n".to_string(), "d".to_string(), cfg(1, MAX_QUEUE_CAPACITY + 1)).is_none());
}

#[test]
fn registers_the_fourteen_kinds_in_order() {
    let kinds = plugin(1, 1).init();
    assert_eq!(
        kinds,
        vec![
            HookType::SessionCreated,
            HookType::SessionTerminated,
            HookType::SessionSubscribed,
            HookType::SessionUnsubscribed,
            HookType::ClientConnect,
            HookType::ClientConnack,
            HookType::ClientConnected,
            HookType::ClientDisconnected,
            HookType::ClientSubscribe,
            HookType::ClientUnsubscribe,
            HookType::MessagePublish,
            HookType::MessageDelivered,
            HookType::MessageAcked,
            HookType::MessageDropped,
        ]
    );
}

#[test]
fn submit_counts_the_dropped() {
    let mut q = HookQueue::with_capacity(2);
    let bodies = vec![(None, Json::Num(1)), (Some("t".to_string()), Json::Num(2)), (None, Json::Num(3))];
    assert_eq!(submit(&mut q, HookType::MessageAcked, bodies), 1);
    assert_eq!(
        drain(&mut q),
        vec![
            Message::Body(HookType::MessageAcked, None, Json::Num(1)),
            Message::Body(HookType::MessageAcked, Some("t".to_string()), Json::Num(2)),
        ]
    );
    assert_eq!(submit(&mut q, HookType::MessageAcked, Vec::new()), 0);
}

#[test]
fn hook_queues_the_bodies_and_lets_the_chain_go_on() {
    let mut p = plugin(1, 8);
    let acc = Some(HookResult::Allowed(false));
    let param = Parameter::ClientSubscribe {
        id: id(),
        topic_filters: vec![("a".to_string(), QoS::AtMostOnce), ("b".to_string(), QoS::AtLeastOnce)],
    };
    let r = p.hook_at(&param, acc.clone(), 3);
    assert_eq!(r, (true, acc));
    let want: Vec<Message> =
        bodies_at(&param, 3).into_iter().map(|(t, b)| Message::Body(HookType::ClientSubscribe, t, b)).collect();
    assert_eq!(want.len(), 2);
    assert_eq!(drain(&mut p.queue), want);
}

#[test]
fn hook_with_the_clock_queues_one_message_per_body() {
    let mut p = plugin(1, 8);
    assert_eq!(p.hook(&created(1), None), (true, None));
    assert_eq!(p.queue.len(), 1);
    assert_eq!(drain(&mut p.queue), vec![Message::Body(HookType::SessionCreated, None, bodies_at(&created(1), 0).remove(0).1)]);
}

#[test]
fn hook_on_a_full_queue_drops_and_still_goes_on() {
    let mut p = plugin(1, 2);
    for n in 0..4 {
        assert_eq!(p.hook_at(&created(n), None, 0), (true, None));
        assert!(p.queue.len() <= 2);
    }
    let got = drain(&mut p.queue);
    assert_eq!(
        got,
        vec![
            Message::Body(HookType::SessionCreated, None, bodies_at(&created(0), 0).remove(0).1),
            Message::Body(HookType::SessionCreated, None, bodies_at(&created(1), 0).remove(0).1),
        ]
    );
}

#[test]
fn hook_for_an_event_without_body_queues_nothing() {
    let mut p = plugin(1, 2);
    let param = Parameter::ClientSubscribeCheckAcl { id: id(), topic_filter: "a".to_string(), qos: QoS::AtMostOnce };
    assert_eq!(p.hook_at(&param, None, 0), (true, None));
    assert_eq!(p.queue.len(), 0);
}

#[test]
fn worker_is_idle_on_an_empty_queue() {
    let mut p = plugin(1, 2);
    assert_eq!(p.next_task(), WorkerStep::Idle);
    assert_eq!(p.processings, 0);
}

#[test]
fn worker_plans_the_requests_of_a_body() {
    let mut p = plugin(1, 4);
    p.hook_at(&created(7), None, 0);
    let body = bodies_at(&created(7), 0).remove(0).1.with_member("action", Json::text("session_created"));
    let step = p.next_task();
    assert_eq!(
        step,
        WorkerStep::Run(vec![
            HttpRequest { url: "http://h1".to_string(), body: body.duplicate(), timeout_ms: 5000 },
            HttpRequest { url: "http://h2".to_string(), body, timeout_ms: 5000 },
        ])
    );
    assert_eq!(p.processings, 1);
    assert_eq!(p.queue.len(), 0);
    p.task_done();
    assert_eq!(p.processings, 0);
}

#[test]
fn worker_counts_a_body_without_rules_too() {
    let mut p = plugin(1, 4);
    let param = Parameter::SessionTerminated { id: id(), reason: "r".to_string() };
    p.hook_at(&param, None, 0);
    assert_eq!(p.next_task(), WorkerStep::Run(Vec::new()));
    assert_eq!(p.processings, 1);
}

#[test]
fn worker_stops_on_exit_and_leaves_what_is_behind() {
    let mut p = plugin(1, 4);
    assert!(p.queue.offer(Message::Exit).is_ok());
    p.hook_at(&created(1), None, 0);
    assert_eq!(p.next_task(), WorkerStep::Exit);
    assert_eq!(p.processings, 0);
    assert_eq!(p.queue.len(), 1);
}

#[test]
fn counter_of_bodies_under_way_wraps() {
    let mut p = plugin(1, 4);
    p.task_done();
    assert_eq!(p.processings, -1);
    p.processings = isize::MIN;
    p.task_done();
    assert_eq!(p.processings, isize::MAX);
    p.hook_at(&created(1), None, 0);
    assert!(matches!(p.next_task(), WorkerStep::Run(_)));
    assert_eq!(p.processings, isize::MIN);
}

#[test]
fn reload_with_the_same_sizes_swaps_the_configuration() {
    let mut p = plugin(2, 4);
    p.hook_at(&created(1), None, 0);
    let mut new_cfg = cfg(2, 4);
    new_cfg.http_timeout_ms = 1;
    new_cfg.rules.clear();
    match p.load_config(new_cfg.clone()) {
        Reloaded::Swapped(p) => {
            assert_eq!(p.cfg, new_cfg);
            assert_eq!(p.queue.len(), 1);
            assert_eq!(p.name, "web-hook");
        }
        _ => panic!("the configuration was not swapped"),
    }
}

#[test]
fn reload_with_other_worker_threads_restarts() {
    let mut p = plugin(2, 4);
    p.hook_at(&created(1), None, 0);
    p.processings = 5;
    match p.load_config(cfg(8, 4)) {
        Reloaded::Restarted { mut plugin, mut retired } => {
            assert_eq!(plugin.cfg.worker_threads, 8);
            assert_eq!(plugin.queue.len(), 0);
            assert_eq!(plugin.processings, 5);
            let old = drain(&mut retired);
            assert_eq!(old.len(), 2);
            assert_eq!(old[0], Message::Body(HookType::SessionCreated, None, bodies_at(&created(1), 0).remove(0).1));
            assert_eq!(old[1], Message::Exit);
            plugin.hook_at(&created(2), None, 0);
            assert_eq!(plugin.queue.len(), 1);
            assert_eq!(retired.len(), 0);
        }
        _ => panic!("the dispatcher was not restarted"),
    }
}

#[test]
fn reload_with_another_capacity_gives_a_queue_of_that_capacity() {
    let p = plugin(2, 4);
    match p.load_config(cfg(2, 1)) {
        Reloaded::Restarted { mut plugin, mut retired } => {
            assert_eq!(plugin.cfg.async_queue_capacity, 1);
            plugin.hook_at(&created(1), None, 0);
            plugin.hook_at(&created(2), None, 0);
            assert_eq!(plugin.queue.len(), 1);
            assert_eq!(drain(&mut retired), vec![Message::Exit]);
        }
        _ => panic!("the dispatcher was not restarted"),
    }
}

#[test]
fn reload_is_refused_when_the_old_worker_cannot_be_told() {
    let mut p = plugin(2, 1);
    p.hook_at(&created(1), None, 0);
    match p.load_config(cfg(3, 1)) {
        Reloaded::Refused { plugin, error } => {
            assert_eq!(error, ReloadError::ExitNotDelivered);
            assert_eq!(plugin.cfg, cfg(2, 1));
            assert_eq!(plugin.queue.len(), 1);
        }
        _ => panic!("the reload was not refused"),
    }
}

#[test]
fn reload_is_refused_when_the_capacity_is_too_large() {
    let p = plugin(2, 1);
    match p.load_config(cfg(2, MAX_QUEUE_CAPACITY + 1)) {
        Reloaded::Refused { plugin, error } => {
            assert_eq!(error, ReloadError::CapacityTooLarge);
            assert_eq!(plugin.cfg, cfg(2, 1));
            assert_eq!(plugin.queue.len(), 0);
        }
        _ => panic!("the reload was not refused"),
    }
}

#[test]
fn attrs_report_queue_and_tasks() {
    let mut p = plugin(1, 4);
    p.hook_at(&created(1), None, 0);
    p.hook_at(&created(2), None, 0);
    p.processings = 3;
    assert_eq!(
        p.attrs(),
        Json::Object(vec![("queue_len".to_string(), Json::Num(2)), ("active_tasks".to_string(), Json::Num(3))])
    );
}

#[test]
fn http_outcomes() {
    assert_eq!(http_outcome(Some(200)), HttpOutcome::Delivered);
    assert_eq!(http_outcome(Some(204)), HttpOutcome::Delivered);
    assert_eq!(http_outcome(Some(299)), HttpOutcome::Delivered);
    assert_eq!(http_outcome(Some(199)), HttpOutcome::Rejected(199));
    assert_eq!(http_outcome(Some(300)), HttpOutcome::Rejected(300));
    assert_eq!(http_outcome(Some(404)), HttpOutcome::Rejected(404));
    assert_eq!(http_outcome(Some(500)), HttpOutcome::Rejected(500));
    assert_eq!(http_outcome(None), HttpOutcome::Failed);
}

#[test]
fn a_large_capacity_gives_a_queue_of_that_capacity() {
    let mut p = plugin(2, 1_200_000);
    assert_eq!(p.queue.len(), 0);
    assert_eq!(p.cfg.async_queue_capacity, 1_200_000);
    p.hook_at(&created(1), None, 0);
    assert_eq!(p.queue.len(), 1);
}

#[test]
fn reload_to_a_large_capacity_restarts() {
    let mut p = plugin(2, 4);
    p.hook_at(&created(1), None, 0);
    match p.load_config(cfg(5, 1_200_000)) {
        Reloaded::Restarted { mut plugin, mut retired } => {
            assert_eq!(plugin.cfg.worker_threads, 5);
            assert_eq!(plugin.cfg.async_queue_capacity, 1_200_000);
            assert_eq!(plugin.queue.len(), 0);
            for n in 0..10 {
                plugin.hook_at(&created(n), None, 0);
            }
            assert_eq!(plugin.queue.len(), 10);
            assert_eq!(drain(&mut retired).len(), 2);
        }
        _ => panic!("the dispatcher was not restarted"),
    }
}
