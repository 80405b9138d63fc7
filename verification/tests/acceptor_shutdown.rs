use echo_server::acceptor::AcceptAction;
use echo_server::acceptor::AcceptEvent;
use echo_server::acceptor::Acceptor;

#[test]
fn every_connection_spawns_a_handler() {
    let mut ac = Acceptor::new();
    assert!(ac.is_accepting());
    // Unbounded acceptance: acceptance never wanes with the number of
    // connections already handed out.
    for _ in 0..10_000 {
        let act = ac.on_event(AcceptEvent::Connected);
        assert_eq!(act, AcceptAction::SpawnHandler);
        assert!(ac.is_accepting());
    }
}

#[test]
fn accept_failure_is_absorbed() {
    let mut ac = Acceptor::new();
    let act = ac.on_event(AcceptEvent::Connected);
    assert_eq!(act, AcceptAction::SpawnHandler);

    let act = ac.on_event(AcceptEvent::AcceptFailed);
    assert_eq!(act, AcceptAction::ContinueAccepting);
    assert!(ac.is_accepting());

    // The failure does not prevent later connections from being accepted.
    let act = ac.on_event(AcceptEvent::Connected);
    assert_eq!(act, AcceptAction::SpawnHandler);
    let act = ac.on_event(AcceptEvent::Connected);
    assert_eq!(act, AcceptAction::SpawnHandler);
}

#[test]
fn repeated_accept_failures_are_absorbed() {
    let mut ac = Acceptor::new();
    for _ in 0..100 {
        let act = ac.on_event(AcceptEvent::AcceptFailed);
        assert_eq!(act, AcceptAction::ContinueAccepting);
    }
    let act = ac.on_event(AcceptEvent::Connected);
    assert_eq!(act, AcceptAction::SpawnHandler);
}

#[test]
fn shutdown_stops_acceptance_for_good() {
    let mut ac = Acceptor::new();
    let act = ac.on_event(AcceptEvent::Connected);
    assert_eq!(act, AcceptAction::SpawnHandler);

    let act = ac.on_event(AcceptEvent::ShutdownSignal);
    assert_eq!(act, AcceptAction::StopAccepting);
    assert!(!ac.is_accepting());

    // No event whatsoever revives acceptance after the signal.
    let act = ac.on_event(AcceptEvent::Connected);
    assert_eq!(act, AcceptAction::StopAccepting);
    let act = ac.on_event(AcceptEvent::AcceptFailed);
    assert_eq!(act, AcceptAction::StopAccepting);
    let act = ac.on_event(AcceptEvent::ShutdownSignal);
    assert_eq!(act, AcceptAction::StopAccepting);
    assert!(!ac.is_accepting());
}

#[test]
fn shutdown_on_a_fresh_acceptor_stops_it() {
    let mut ac = Acceptor::new();
    let act = ac.on_event(AcceptEvent::ShutdownSignal);
    assert_eq!(act, AcceptAction::StopAccepting);
    assert!(!ac.is_accepting());
}
