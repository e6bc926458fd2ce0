use cluster_hooks::cluster::{
    addrs_of, cluster_attrs, decimal_text, peers_except, raft_plan, start_mode, ClientStats, ClusterConfig, ClusterPlugin,
    ConfigError, NodeAddr, ProbeStep, RaftPlan, StartMode, StartupProbe, PROBE_ATTEMPTS, PROBE_INTERVAL_MS,
};
use cluster_hooks::json::Json;
use cluster_hooks::types::HookType;

fn node(id: u64, addr: &str) -> NodeAddr {
    NodeAddr { id, addr: addr.to_string() }
}

fn cfg() -> ClusterConfig {
    ClusterConfig {
        node_grpc_addrs: vec![node(1, "10.0.0.1:5363"), node(2, "10.0.0.2:5363"), node(3, "10.0.0.3:5363")],
        raft_peer_addrs: vec![node(1, "10.0.0.1:6003"), node(2, "10.0.0.2:6003"), node(3, "10.0.0.3:6003")],
        message_type: 198,
    }
}

#[test]
fn peers_are_all_nodes_but_this_one() {
    assert_eq!(peers_except(&cfg().node_grpc_addrs, 2), vec![node(1, "10.0.0.1:5363"), node(3, "10.0.0.3:5363")]);
    assert_eq!(peers_except(&cfg().node_grpc_addrs, 9), cfg().node_grpc_addrs);
    assert_eq!(peers_except(&Vec::new(), 1), Vec::new());
    assert_eq!(peers_except(&vec![node(1, "a")], 1), Vec::new());
}

#[test]
fn addresses_of_nodes() {
    assert_eq!(addrs_of(&vec![node(1, "a"), node(2, "b")]), vec!["a".to_string(), "b".to_string()]);
}

#[test]
fn raft_plan_listens_on_own_address_and_asks_the_others() {
    assert_eq!(
        raft_plan(&cfg(), 2),
        Ok(RaftPlan { listen_addr: "10.0.0.2:6003".to_string(), peer_addrs: vec!["10.0.0.1:6003".to_string(), "10.0.0.3:6003".to_string()] })
    );
    assert_eq!(
        raft_plan(&cfg(), 1),
        Ok(RaftPlan { listen_addr: "10.0.0.1:6003".to_string(), peer_addrs: vec!["10.0.0.2:6003".to_string(), "10.0.0.3:6003".to_string()] })
    );
}

#[test]
fn raft_plan_fails_without_own_address() {
    assert_eq!(raft_plan(&cfg(), 7), Err(ConfigError::ListenAddrMissing));
    let mut c = cfg();
    c.raft_peer_addrs.clear();
    assert_eq!(raft_plan(&c, 1), Err(ConfigError::ListenAddrMissing));
}

#[test]
fn raft_plan_of_a_single_node_has_no_peers() {
    let mut c = cfg();
    c.raft_peer_addrs = vec![node(1, "a")];
    assert_eq!(raft_plan(&c, 1), Ok(RaftPlan { listen_addr: "a".to_string(), peer_addrs: vec![] }));
}

#[test]
fn raft_plan_takes_the_first_address_of_a_node_listed_twice() {
    let mut c = cfg();
    c.raft_peer_addrs = vec![node(2, "x"), node(1, "first"), node(1, "second")];
    assert_eq!(raft_plan(&c, 1), Ok(RaftPlan { listen_addr: "first".to_string(), peer_addrs: vec!["x".to_string()] }));
}

#[test]
fn start_mode_joins_a_known_leader_and_leads_otherwise() {
    assert_eq!(start_mode(None), StartMode::Lead);
    assert_eq!(
        start_mode(Some((1, "10.0.0.1:6003".to_string()))),
        StartMode::Join { leader_id: 1, leader_addr: "10.0.0.1:6003".to_string() }
    );
}

#[test]
fn probe_is_ready_as_soon_as_the_engine_has_started() {
    let mut probe = StartupProbe::new();
    assert!(probe.may_ask());
    assert_eq!(probe.on_status(false), ProbeStep::Retry(500));
    assert_eq!(probe.on_status(true), ProbeStep::Ready);
    assert_eq!(probe.asked, 2);
}

#[test]
fn probe_asks_ten_times_and_then_goes_on_degraded() {
    assert_eq!(PROBE_ATTEMPTS, 10);
    assert_eq!(PROBE_INTERVAL_MS, 500);
    let mut probe = StartupProbe::new();
    let mut waited = 0;
    for _ in 0..9 {
        assert!(probe.may_ask());
        match probe.on_status(false) {
            ProbeStep::Retry(ms) => waited += ms,
            other => panic!("no retry: {:?}", other),
        }
    }
    assert!(probe.may_ask());
    match probe.on_status(false) {
        ProbeStep::Degraded(ms) => waited += ms,
        other => panic!("not degraded: {:?}", other),
    }
    assert!(!probe.may_ask());
    assert_eq!(probe.asked, 10);
    assert_eq!(waited, 5000);
}

#[test]
fn probe_is_ready_on_the_last_question_too() {
    let mut probe = StartupProbe { asked: 9 };
    assert_eq!(probe.on_status(true), ProbeStep::Ready);
    assert!(!probe.may_ask());
}

#[test]
fn decimal_texts() {
    assert_eq!(decimal_text(0), "0");
    assert_eq!(decimal_text(7), "7");
    assert_eq!(decimal_text(10), "10");
    assert_eq!(decimal_text(1234567890), "1234567890");
    assert_eq!(decimal_text(u64::MAX), "18446744073709551615");
}

#[test]
fn attrs_list_the_clients_by_node_id() {
    let clients = vec![
        ClientStats { node_id: 2, channel_tasks: 4, active_tasks: 1 },
        ClientStats { node_id: 13, channel_tasks: 0, active_tasks: 0 },
    ];
    let stats = |c: i128, a: i128| {
        Json::Object(vec![("channel_tasks".to_string(), Json::Num(c)), ("active_tasks".to_string(), Json::Num(a))])
    };
    assert_eq!(
        cluster_attrs(&clients, Some(Json::text("leader"))),
        Json::Object(vec![
            ("grpc_clients".to_string(), Json::Object(vec![("2".to_string(), stats(4, 1)), ("13".to_string(), stats(0, 0))])),
            ("raft_status".to_string(), Json::Str("leader".to_string())),
        ])
    );
    assert_eq!(
        cluster_attrs(&Vec::new(), None),
        Json::Object(vec![("grpc_clients".to_string(), Json::Object(vec![])), ("raft_status".to_string(), Json::Null)])
    );
}

#[test]
fn attrs_keep_the_last_report_of_a_node() {
    let clients = vec![
        ClientStats { node_id: 2, channel_tasks: 4, active_tasks: 1 },
        ClientStats { node_id: 3, channel_tasks: 5, active_tasks: 5 },
        ClientStats { node_id: 2, channel_tasks: 9, active_tasks: 8 },
    ];
    let got = cluster_attrs(&clients, None);
    let nodes = got.member("grpc_clients").unwrap();
    assert_eq!(
        nodes.member("2"),
        Some(&Json::Object(vec![("channel_tasks".to_string(), Json::Num(9)), ("active_tasks".to_string(), Json::Num(8))]))
    );
    match nodes {
        Json::Object(members) => assert_eq!(members.len(), 2),
        _ => panic!("no object"),
    }
}

#[test]
fn cluster_plugin_as_listed() {
    let p = ClusterPlugin::new("cluster".to_string(), "raft cluster".to_string(), 2, cfg());
    assert_eq!(p.name(), "cluster");
    assert_eq!(p.descr(), "raft cluster");
    assert_eq!(p.version(), "0.1.1");
    assert!(!p.stop());
    assert_eq!(p.peers, vec![node(1, "10.0.0.1:5363"), node(3, "10.0.0.3:5363")]);
    assert_eq!(
        p.init(),
        vec![HookType::ClientConnected, HookType::ClientDisconnected, HookType::SessionTerminated, HookType::GrpcMessageReceived]
    );
    assert_eq!(p.start_raft(), raft_plan(&cfg(), 2));
    let stranger = ClusterPlugin::new("c".to_string(), "d".to_string(), 9, cfg());
    assert_eq!(stranger.start_raft(), Err(ConfigError::ListenAddrMissing));
}

#[test]
fn peer_ids_are_distinct() {
    let mut c = cfg();
    c.node_grpc_addrs.push(node(3, "10.0.0.3:9999"));
    c.node_grpc_addrs.push(node(1, "10.0.0.1:9999"));
    let p = ClusterPlugin::new("c".to_string(), "d".to_string(), 2, c);
    assert_eq!(p.peers.len(), 4);
    assert_eq!(p.peer_ids(), vec![1, 3]);
}
