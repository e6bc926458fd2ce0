use cluster_hooks::hookbus::{Dispatch, HookBus};
use cluster_hooks::types::{HookResult, HookType, ReturnType};

fn run(bus: &mut HookBus<Vec<u32>>, kind: HookType, answers: &[ReturnType]) -> (ReturnType, Vec<usize>) {
    let mut dispatch = bus.dispatch(kind);
    let mut called = Vec::new();
    while let Some(i) = dispatch.next() {
        let acc = dispatch.take_acc();
        let seen = match acc {
            Some(HookResult::Allowed(true)) => 1,
            Some(_) => 2,
            None => 0,
        };
        bus.handler_mut(i).push(seen);
        dispatch.record(answers[called.len()].clone());
        called.push(i);
    }
    (dispatch.finish(), called)
}

fn bus_of(kinds: &[HookType]) -> (HookBus<Vec<u32>>, usize) {
    let mut bus = HookBus::new();
    let token = bus.register();
    for kind in kinds {
        assert!(bus.add(token, *kind, Vec::new()));
    }
    bus.start(token);
    (bus, token)
}

fn go() -> ReturnType {
    (true, None)
}

#[test]
fn handlers_are_called_in_registration_order() {
    let (mut bus, _) = bus_of(&[HookType::MessagePublish, HookType::ClientConnect, HookType::MessagePublish, HookType::MessagePublish]);
    let (ret, called) = run(&mut bus, HookType::MessagePublish, &[go(), go(), go()]);
    assert_eq!(called, vec![0, 2, 3]);
    assert_eq!(ret, (true, None));
    let (_, called) = run(&mut bus, HookType::ClientConnect, &[go()]);
    assert_eq!(called, vec![1]);
}

#[test]
fn empty_chain_goes_on_with_nothing() {
    let (mut bus, _) = bus_of(&[HookType::MessagePublish]);
    let (ret, called) = run(&mut bus, HookType::MessageAcked, &[]);
    assert_eq!(ret, (true, None));
    assert!(called.is_empty());
}

#[test]
fn a_handler_that_stops_keeps_the_rest_from_seeing_the_event() {
    let (mut bus, _) = bus_of(&[HookType::ClientConnect, HookType::ClientConnect, HookType::ClientConnect]);
    let stop = (false, Some(HookResult::Allowed(false)));
    let (ret, called) = run(&mut bus, HookType::ClientConnect, &[go(), stop.clone(), go()]);
    assert_eq!(called, vec![0, 1]);
    assert_eq!(ret, stop);
    assert_eq!(bus.entries[0].handler.len(), 1);
    assert_eq!(bus.entries[1].handler.len(), 1);
    assert!(bus.entries[2].handler.is_empty());
}

#[test]
fn a_first_handler_that_stops_is_the_only_one_called() {
    let (mut bus, _) = bus_of(&[HookType::ClientConnect, HookType::ClientConnect]);
    let (ret, called) = run(&mut bus, HookType::ClientConnect, &[(false, None), go()]);
    assert_eq!(called, vec![0]);
    assert_eq!(ret, (false, None));
}

#[test]
fn the_accumulated_result_is_threaded_through() {
    let (mut bus, _) = bus_of(&[HookType::ClientConnect, HookType::ClientConnect, HookType::ClientConnect]);
    let answers = [(true, Some(HookResult::Allowed(true))), (true, Some(HookResult::Allowed(false))), (true, None)];
    let (ret, called) = run(&mut bus, HookType::ClientConnect, &answers);
    assert_eq!(called, vec![0, 1, 2]);
    assert_eq!(ret, (true, None));
    assert_eq!(bus.entries[0].handler, vec![0]);
    assert_eq!(bus.entries[1].handler, vec![1]);
    assert_eq!(bus.entries[2].handler, vec![2]);
}

#[test]
fn a_registration_that_is_not_started_is_passed_by() {
    let mut bus: HookBus<Vec<u32>> = HookBus::new();
    let first = bus.register();
    let second = bus.register();
    assert_eq!((first, second), (0, 1));
    assert!(bus.add(first, HookType::ClientConnect, Vec::new()));
    assert!(bus.add(second, HookType::ClientConnect, Vec::new()));
    assert!(bus.add(first, HookType::ClientConnect, Vec::new()));
    assert!(run(&mut bus, HookType::ClientConnect, &[]).1.is_empty());
    bus.start(second);
    assert_eq!(run(&mut bus, HookType::ClientConnect, &[go()]).1, vec![1]);
    bus.start(first);
    bus.start(first);
    assert_eq!(run(&mut bus, HookType::ClientConnect, &[go(), go(), go()]).1, vec![0, 1, 2]);
    bus.stop(second);
    bus.stop(second);
    assert_eq!(run(&mut bus, HookType::ClientConnect, &[go(), go()]).1, vec![0, 2]);
    bus.stop(first);
    assert!(run(&mut bus, HookType::ClientConnect, &[]).1.is_empty());
}

#[test]
fn a_token_that_was_not_given_adds_nothing() {
    let mut bus: HookBus<Vec<u32>> = HookBus::new();
    assert!(!bus.add(0, HookType::ClientConnect, Vec::new()));
    let token = bus.register();
    assert!(!bus.add(token + 1, HookType::ClientConnect, Vec::new()));
    bus.start(token + 1);
    bus.stop(token + 1);
    assert!(bus.entries.is_empty());
    assert_eq!(bus.started, vec![false]);
}

#[test]
fn dispatch_steps() {
    let mut d = Dispatch { chain: vec![4, 9], pos: 0, going: true, acc: None };
    assert_eq!(d.next(), Some(4));
    d.record((true, Some(HookResult::Allowed(true))));
    assert_eq!(d.next(), Some(9));
    assert_eq!(d.take_acc(), Some(HookResult::Allowed(true)));
    assert_eq!(d.acc, None);
    d.record((false, None));
    assert_eq!(d.next(), None);
    assert_eq!(d.pos, 2);
    assert_eq!(d.finish(), (false, None));
}
