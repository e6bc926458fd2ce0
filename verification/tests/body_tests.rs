use cluster_hooks::body::{bodies, bodies_at, delivery_body, opts_body, subscribe_body, unsubscribe_body};
use cluster_hooks::json::Json;
use cluster_hooks::types::{ConnectInfo, Id, Parameter, Publish, QoS, RpcMessage};

fn obj(members: Vec<(&str, Json)>) -> Json {
    Json::Object(members.into_iter().map(|(k, v)| (k.to_string(), v)).collect())
}

fn s(t: &str) -> Json {
    Json::Str(t.to_string())
}

fn id() -> Id {
    Id {
        node_id: 1,
        remote_addr: Some("10.0.0.7:5001".to_string()),
        client_id: "c1".to_string(),
        username: Some("alice".to_string()),
    }
}

fn anon() -> Id {
    Id { node_id: 2, remote_addr: None, client_id: "c2".to_string(), username: None }
}

fn id_members() -> Vec<(&'static str, Json)> {
    vec![("node", Json::Num(1)), ("ipaddress", s("10.0.0.7:5001")), ("clientid", s("c1")), ("username", s("alice"))]
}

fn anon_json() -> Json {
    obj(vec![("node", Json::Num(2)), ("ipaddress", Json::Null), ("clientid", s("c2")), ("username", Json::Null)])
}

fn publish() -> Publish {
    Publish {
        dup: false,
        retain: true,
        qos: QoS::AtLeastOnce,
        topic: "a/b".to_string(),
        packet_id: Some(42),
        payload: b"hello".to_vec(),
        create_time: 1_700_000_000_123,
    }
}

fn publish_members() -> Vec<(&'static str, Json)> {
    vec![
        ("dup", Json::Bool(false)),
        ("retain", Json::Bool(true)),
        ("qos", Json::Num(1)),
        ("topic", s("a/b")),
        ("packet_id", Json::Num(42)),
        ("payload", s("aGVsbG8=")),
    ]
}

fn with(mut base: Vec<(&'static str, Json)>, more: Vec<(&'static str, Json)>) -> Json {
    base.extend(more);
    obj(base)
}

#[test]
fn id_to_json() {
    assert_eq!(id().to_json(), obj(id_members()));
    assert_eq!(anon().to_json(), anon_json());
}

#[test]
fn connect_info_v3_body() {
    let info = ConnectInfo::V3 { id: id(), keep_alive: 60, level: 4, clean_session: true };
    assert_eq!(
        info.to_body(),
        with(id_members(), vec![("keepalive", Json::Num(60)), ("proto_ver", Json::Num(4)), ("clean_session", Json::Bool(true))])
    );
}

#[test]
fn connect_info_v5_body() {
    let info = ConnectInfo::V5 { id: id(), keep_alive: 30, clean_start: false };
    assert_eq!(
        info.to_body(),
        with(id_members(), vec![("keepalive", Json::Num(30)), ("proto_ver", Json::Num(5)), ("clean_start", Json::Bool(false))])
    );
}

#[test]
fn client_connect_body() {
    let info = ConnectInfo::V5 { id: id(), keep_alive: 30, clean_start: true };
    let got = bodies_at(&Parameter::ClientConnect(info.clone()), 9);
    assert_eq!(got, vec![(None, info.to_body())]);
}

#[test]
fn client_connack_body_adds_reason() {
    let info = ConnectInfo::V3 { id: id(), keep_alive: 60, level: 3, clean_session: false };
    let got = bodies_at(&Parameter::ClientConnack(info, "success".to_string()), 9);
    assert_eq!(
        got,
        vec![(
            None,
            with(
                id_members(),
                vec![
                    ("keepalive", Json::Num(60)),
                    ("proto_ver", Json::Num(3)),
                    ("clean_session", Json::Bool(false)),
                    ("conn_ack", s("success")),
                ]
            )
        )]
    );
}

#[test]
fn client_connected_body() {
    let info = ConnectInfo::V5 { id: id(), keep_alive: 10, clean_start: true };
    let got = bodies_at(&Parameter::ClientConnected { connect_info: info, connected_at: 1234, session_present: true }, 9);
    assert_eq!(
        got,
        vec![(
            None,
            with(
                id_members(),
                vec![
                    ("keepalive", Json::Num(10)),
                    ("proto_ver", Json::Num(5)),
                    ("clean_start", Json::Bool(true)),
                    ("connected_at", Json::Num(1234)),
                    ("session_present", Json::Bool(true)),
                ]
            )
        )]
    );
}

#[test]
fn client_disconnected_body() {
    let got = bodies_at(&Parameter::ClientDisconnected { id: id(), disconnected_at: 55, reason: "bye".to_string() }, 9);
    assert_eq!(got, vec![(None, with(id_members(), vec![("disconnected_at", Json::Num(55)), ("reason", s("bye"))]))]);
}

#[test]
fn session_created_and_terminated_bodies() {
    let got = bodies_at(&Parameter::SessionCreated { id: id(), created_at: 77 }, 9);
    assert_eq!(got, vec![(None, with(id_members(), vec![("created_at", Json::Num(77))]))]);
    let got = bodies_at(&Parameter::SessionTerminated { id: id(), reason: "kicked".to_string() }, 9);
    assert_eq!(got, vec![(None, with(id_members(), vec![("reason", s("kicked"))]))]);
}

#[test]
fn client_subscribe_gives_one_body_per_filter() {
    let param = Parameter::ClientSubscribe {
        id: id(),
        topic_filters: vec![("a/+".to_string(), QoS::AtMostOnce), ("b/#".to_string(), QoS::ExactlyOnce)],
    };
    let got = bodies_at(&param, 9);
    assert_eq!(
        got,
        vec![
            (Some("a/+".to_string()), with(id_members(), vec![("topic", s("a/+")), ("opts", obj(vec![("qos", Json::Num(0))]))])),
            (Some("b/#".to_string()), with(id_members(), vec![("topic", s("b/#")), ("opts", obj(vec![("qos", Json::Num(2))]))])),
        ]
    );
}

#[test]
fn client_subscribe_without_filters_gives_nothing() {
    let got = bodies_at(&Parameter::ClientSubscribe { id: id(), topic_filters: Vec::new() }, 9);
    assert!(got.is_empty());
}

#[test]
fn client_unsubscribe_gives_one_body_per_filter() {
    let param = Parameter::ClientUnsubscribe { id: id(), topic_filters: vec!["a/+".to_string(), "c".to_string()] };
    let got = bodies_at(&param, 9);
    assert_eq!(
        got,
        vec![
            (Some("a/+".to_string()), with(id_members(), vec![("topic", s("a/+"))])),
            (Some("c".to_string()), with(id_members(), vec![("topic", s("c"))])),
        ]
    );
}

#[test]
fn session_subscribed_and_unsubscribed_bodies() {
    let got = bodies_at(&Parameter::SessionSubscribed { id: id(), topic_filter: "x/y".to_string(), qos: QoS::AtLeastOnce }, 9);
    assert_eq!(got, vec![(Some("x/y".to_string()), subscribe_body(&id(), &"x/y".to_string(), QoS::AtLeastOnce))]);
    assert_eq!(
        subscribe_body(&id(), &"x/y".to_string(), QoS::AtLeastOnce),
        with(id_members(), vec![("topic", s("x/y")), ("opts", opts_body(QoS::AtLeastOnce))])
    );
    let got = bodies_at(&Parameter::SessionUnsubscribed { id: id(), topic_filter: "x/y".to_string() }, 9);
    assert_eq!(got, vec![(Some("x/y".to_string()), unsubscribe_body(&id(), &"x/y".to_string()))]);
}

#[test]
fn message_publish_body_uses_create_time_and_base64() {
    let got = bodies_at(&Parameter::MessagePublish { from: id(), publish: publish() }, 9);
    let mut members = vec![("from", obj(id_members()))];
    members.extend(publish_members());
    members.push(("ts", Json::Num(1_700_000_000_123)));
    assert_eq!(got, vec![(Some("a/b".to_string()), obj(members))]);
}

#[test]
fn message_delivered_and_acked_bodies_use_the_time_of_handling() {
    let mut members = vec![("to", anon_json()), ("from", obj(id_members()))];
    members.extend(publish_members());
    members.push(("ts", Json::Num(999)));
    let want = obj(members);
    let got = bodies_at(&Parameter::MessageDelivered { to: anon(), from: id(), publish: publish() }, 999);
    assert_eq!(got, vec![(Some("a/b".to_string()), delivery_body(&anon(), &id(), &publish(), 999))]);
    assert_eq!(got[0].1, want);
    let got = bodies_at(&Parameter::MessageAcked { to: anon(), from: id(), publish: publish() }, 999);
    assert_eq!(got[0].1, want);
    assert_eq!(got[0].0, Some("a/b".to_string()));
}

#[test]
fn message_dropped_body_has_reason_and_nullable_receiver_and_no_topic() {
    let mut members = vec![("to", Json::Null), ("from", obj(id_members()))];
    members.extend(publish_members());
    members.push(("reason", s("queue full")));
    members.push(("ts", Json::Num(5)));
    let got = bodies_at(
        &Parameter::MessageDropped { to: None, from: id(), publish: publish(), reason: "queue full".to_string() },
        5,
    );
    assert_eq!(got, vec![(None, obj(members))]);
    let got = bodies_at(
        &Parameter::MessageDropped { to: Some(anon()), from: id(), publish: publish(), reason: "r".to_string() },
        5,
    );
    assert_eq!(got[0].1.member("to"), Some(&anon_json()));
}

#[test]
fn payload_is_base64_with_padding() {
    let mut p = publish();
    p.payload = vec![0xff, 0x00];
    p.packet_id = None;
    let got = bodies_at(&Parameter::MessagePublish { from: id(), publish: p }, 0);
    assert_eq!(got[0].1.member("payload"), Some(&s("/wA=")));
    assert_eq!(got[0].1.member("packet_id"), Some(&Json::Null));
    let mut p = publish();
    p.payload = Vec::new();
    let got = bodies_at(&Parameter::MessagePublish { from: id(), publish: p }, 0);
    assert_eq!(got[0].1.member("payload"), Some(&s("")));
}

#[test]
fn events_that_are_not_reported_give_no_body() {
    let info = ConnectInfo::V3 { id: id(), keep_alive: 1, level: 4, clean_session: true };
    assert!(bodies_at(&Parameter::ClientAuthenticate(info), 0).is_empty());
    assert!(bodies_at(&Parameter::ClientSubscribeCheckAcl { id: id(), topic_filter: "a".to_string(), qos: QoS::AtMostOnce }, 0).is_empty());
    assert!(bodies_at(&Parameter::MessagePublishCheckAcl { id: id(), publish: publish() }, 0).is_empty());
    assert!(bodies_at(&Parameter::GrpcMessageReceived { message_type: 1, message: RpcMessage::NumberOfClients }, 0).is_empty());
}

#[test]
fn bodies_now_differ_from_bodies_at_only_in_the_time() {
    let param = Parameter::MessageDelivered { to: anon(), from: id(), publish: publish() };
    let got = bodies(&param);
    assert_eq!(got.len(), 1);
    assert_eq!(got[0].0, Some("a/b".to_string()));
    let ts = match got[0].1.member("ts") {
        Some(Json::Num(n)) => *n,
        other => panic!("no time in the body: {:?}", other),
    };
    assert!(ts > 1_600_000_000_000);
    assert_eq!(got, bodies_at(&param, ts as i64));
    let param = Parameter::SessionCreated { id: id(), created_at: 77 };
    assert_eq!(bodies(&param), bodies_at(&param, 0));
}

#[test]
fn qos_values() {
    assert_eq!(QoS::AtMostOnce.value(), 0);
    assert_eq!(QoS::AtLeastOnce.value(), 1);
    assert_eq!(QoS::ExactlyOnce.value(), 2);
}
