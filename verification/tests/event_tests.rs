use fuzz_core::event::{
    Broker, BrokerAction, Event, spawn_plan, should_restart,
};

#[test]
fn broker_relays_new_testcases() {
    let mut b = Broker::new(2);
    let a = b.on_event(0, Event::NewTestcase { input: b"abc".to_vec(), corpus_count: 3 });
    match a {
        BrokerAction::Relay(bytes) => assert_eq!(bytes, b"abc".to_vec()),
        _ => panic!("a new test case must be relayed"),
    }
    assert_eq!(b.clients[0].corpus_count, 3);
    assert_eq!(b.clients[1].corpus_count, 0);
}

#[test]
fn broker_records_stats() {
    let mut b = Broker::new(2);
    let a = b.on_event(1, Event::Stats { executions: 500, corpus_count: 12, solutions: 2 });
    assert!(matches!(a, BrokerAction::Quiet));
    assert_eq!(b.clients[1].executions, 500);
    assert_eq!(b.clients[1].corpus_count, 12);
    assert_eq!(b.clients[1].solutions, 2);
    assert_eq!(b.clients[0].executions, 0);
}

#[test]
fn broker_finishes_when_all_clients_stopped() {
    let mut b = Broker::new(3);
    assert!(matches!(b.on_event(0, Event::ClientStopped), BrokerAction::Quiet));
    assert!(matches!(b.on_event(2, Event::ClientStopped), BrokerAction::Quiet));
    assert!(matches!(b.on_event(1, Event::ClientStopped), BrokerAction::Finished));
}

#[test]
fn broker_totals_are_exact_until_saturation() {
    let mut b = Broker::new(3);
    assert_eq!(b.total_executions(), 0);
    b.on_event(0, Event::Stats { executions: 100, corpus_count: 1, solutions: 0 });
    b.on_event(2, Event::Stats { executions: 250, corpus_count: 1, solutions: 0 });
    assert_eq!(b.total_executions(), 350);
    b.on_event(1, Event::Stats { executions: u64::MAX, corpus_count: 1, solutions: 0 });
    assert_eq!(b.total_executions(), u64::MAX);
}

#[test]
fn interrupt_sets_shutdown_flag() {
    let mut b = Broker::new(1);
    assert!(!b.shutting_down);
    b.on_interrupt();
    assert!(b.shutting_down);
}

#[test]
fn one_client_is_planned_per_core() {
    let cores: Vec<u64> = vec![1, 2, 4, 6];
    let plan = spawn_plan(&cores);
    assert_eq!(plan.len(), 4);
    for (i, p) in plan.iter().enumerate() {
        assert_eq!(p.core, cores[i]);
        assert_eq!(p.client_id, i as u64);
    }
}

#[test]
fn restart_only_abnormal_exits_while_running() {
    assert!(should_restart(false, false));
    assert!(!should_restart(true, false));
    assert!(!should_restart(false, true));
    assert!(!should_restart(true, true));
}
