use cluster_hooks::counter::{CounterHandler, CounterPlugin, Metric};
use cluster_hooks::types::{ConnectInfo, HookResult, HookType, Id, Parameter, Publish, QoS, RpcMessage};

fn id(username: Option<&str>) -> Id {
    Id { node_id: 1, remote_addr: None, client_id: "c".to_string(), username: username.map(|u| u.to_string()) }
}

fn publish() -> Publish {
    Publish { dup: false, retain: false, qos: QoS::AtMostOnce, topic: "t".to_string(), packet_id: None, payload: vec![], create_time: 0 }
}

fn counted(param: Parameter) -> Vec<Metric> {
    let (metrics, ret) = CounterHandler::new().hook(&param, None);
    assert_eq!(ret, (true, None));
    metrics
}

#[test]
fn connect_with_user_name_counts_once() {
    let info = ConnectInfo::V3 { id: id(Some("u")), keep_alive: 1, level: 4, clean_session: true };
    assert_eq!(counted(Parameter::ClientConnect(info)), vec![Metric::ClientConnect]);
}

#[test]
fn anonymous_connect_counts_twice() {
    let info = ConnectInfo::V5 { id: id(None), keep_alive: 1, clean_start: true };
    assert_eq!(counted(Parameter::ClientConnect(info)), vec![Metric::ClientConnect, Metric::ClientAuthAnonymous]);
}

#[test]
fn connected_with_present_session_counts_a_resumed_session() {
    let info = ConnectInfo::V5 { id: id(None), keep_alive: 1, clean_start: true };
    assert_eq!(
        counted(Parameter::ClientConnected { connect_info: info.clone(), connected_at: 0, session_present: true }),
        vec![Metric::ClientConnected, Metric::SessionResumed]
    );
    assert_eq!(
        counted(Parameter::ClientConnected { connect_info: info, connected_at: 0, session_present: false }),
        vec![Metric::ClientConnected]
    );
}

#[test]
fn every_other_event_has_its_counter() {
    let info = ConnectInfo::V3 { id: id(None), keep_alive: 1, level: 4, clean_session: true };
    assert_eq!(counted(Parameter::ClientAuthenticate(info.clone())), vec![Metric::ClientAuthenticate]);
    assert_eq!(counted(Parameter::ClientConnack(info, "ok".to_string())), vec![Metric::ClientConnack]);
    assert_eq!(
        counted(Parameter::ClientDisconnected { id: id(None), disconnected_at: 0, reason: "r".to_string() }),
        vec![Metric::ClientDisconnected]
    );
    assert_eq!(
        counted(Parameter::ClientSubscribeCheckAcl { id: id(None), topic_filter: "t".to_string(), qos: QoS::AtMostOnce }),
        vec![Metric::ClientSubscribeCheckAcl]
    );
    assert_eq!(counted(Parameter::ClientSubscribe { id: id(None), topic_filters: vec![] }), vec![Metric::ClientSubscribe]);
    assert_eq!(counted(Parameter::ClientUnsubscribe { id: id(None), topic_filters: vec![] }), vec![Metric::ClientUnsubscribe]);
    assert_eq!(counted(Parameter::SessionCreated { id: id(None), created_at: 0 }), vec![Metric::SessionCreated]);
    assert_eq!(counted(Parameter::SessionTerminated { id: id(None), reason: "r".to_string() }), vec![Metric::SessionTerminated]);
    assert_eq!(
        counted(Parameter::SessionSubscribed { id: id(None), topic_filter: "t".to_string(), qos: QoS::AtMostOnce }),
        vec![Metric::SessionSubscribed]
    );
    assert_eq!(counted(Parameter::SessionUnsubscribed { id: id(None), topic_filter: "t".to_string() }), vec![Metric::SessionUnsubscribed]);
    assert_eq!(counted(Parameter::MessagePublishCheckAcl { id: id(None), publish: publish() }), vec![Metric::ClientPublishCheckAcl]);
    assert_eq!(counted(Parameter::MessagePublish { from: id(None), publish: publish() }), vec![Metric::MessagesPublish]);
    assert_eq!(counted(Parameter::MessageDelivered { to: id(None), from: id(None), publish: publish() }), vec![Metric::MessagesDelivered]);
    assert_eq!(counted(Parameter::MessageAcked { to: id(None), from: id(None), publish: publish() }), vec![Metric::MessagesAcked]);
    assert_eq!(
        counted(Parameter::MessageDropped { to: None, from: id(None), publish: publish(), reason: "r".to_string() }),
        vec![Metric::MessagesDropped]
    );
    assert_eq!(counted(Parameter::GrpcMessageReceived { message_type: 1, message: RpcMessage::NumberOfSessions }), Vec::new());
}

#[test]
fn counter_hands_the_accumulated_result_through() {
    let acc = Some(HookResult::Allowed(true));
    let (_, ret) = CounterHandler::new().hook(&Parameter::SessionCreated { id: id(None), created_at: 0 }, acc.clone());
    assert_eq!(ret, (true, acc));
}

#[test]
fn counter_plugin_as_listed() {
    let p = CounterPlugin::new("counter", "counts events");
    assert_eq!(p.name(), "counter");
    assert_eq!(p.descr(), "counts events");
    assert_eq!(p.version(), "0.1.0");
    assert!(!p.stop());
    let kinds = p.init();
    assert_eq!(kinds.len(), 17);
    assert_eq!(kinds[0], HookType::ClientConnect);
    assert_eq!(kinds[1], HookType::ClientAuthenticate);
    assert_eq!(kinds[7], HookType::ClientSubscribeCheckAcl);
    assert_eq!(kinds[8], HookType::MessagePublishCheckAcl);
    assert_eq!(kinds[16], HookType::MessageDropped);
    assert!(!kinds.contains(&HookType::GrpcMessageReceived));
}

#[test]
fn event_kinds() {
    assert_eq!(Parameter::SessionCreated { id: id(None), created_at: 0 }.get_type(), HookType::SessionCreated);
    assert_eq!(Parameter::MessagePublish { from: id(None), publish: publish() }.get_type(), HookType::MessagePublish);
    assert_eq!(
        Parameter::GrpcMessageReceived { message_type: 1, message: RpcMessage::NumberOfClients }.get_type(),
        HookType::GrpcMessageReceived
    );
    let info = ConnectInfo::V3 { id: id(Some("u")), keep_alive: 1, level: 4, clean_session: true };
    assert_eq!(info.username(), &Some("u".to_string()));
    assert_eq!(info.id(), &id(Some("u")));
    assert_eq!(Parameter::ClientConnack(info, "ok".to_string()).get_type(), HookType::ClientConnack);
}
