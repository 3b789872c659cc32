use netweather::connection::{
    ConnectionError, ConnectionManager, LinkAction, LinkEvent, LinkState,
};
use netweather::supervisor::{Phase, Supervisor, SupervisorAction, SupervisorEvent};

#[test]
fn supervisor_connects_first() {
    let sup = Supervisor::new(3000);
    assert_eq!(sup.start(), SupervisorAction::Connect);
    assert_eq!(sup.phase(), Phase::Connecting);
    assert_eq!(sup.delay_ms(), 3000);
}

#[test]
fn every_failure_waits_once_then_restarts() {
    for (lead, failure) in [
        (None, SupervisorEvent::LinkFailed),
        (Some(SupervisorEvent::LinkUp), SupervisorEvent::RunFailed),
    ] {
        let mut sup = Supervisor::new(3000);
        if let Some(e) = lead {
            assert_eq!(sup.step(e), SupervisorAction::StartSampling);
        }
        assert_eq!(sup.step(failure), SupervisorAction::Sleep(3000));
        for e in [
            SupervisorEvent::LinkUp,
            SupervisorEvent::LinkFailed,
            SupervisorEvent::RunFailed,
        ] {
            assert_eq!(sup.step(e), SupervisorAction::Ignore);
            assert_eq!(sup.phase(), Phase::Waiting);
        }
        assert_eq!(sup.step(SupervisorEvent::DelayElapsed), SupervisorAction::Restart);
        assert_eq!(sup.phase(), Phase::Connecting);
    }
}

#[test]
fn no_wait_without_failure() {
    let mut sup = Supervisor::new(5);
    assert_eq!(sup.step(SupervisorEvent::DelayElapsed), SupervisorAction::Ignore);
    assert_eq!(sup.step(SupervisorEvent::RunFailed), SupervisorAction::Ignore);
    assert_eq!(sup.step(SupervisorEvent::LinkUp), SupervisorAction::StartSampling);
    assert_eq!(sup.step(SupervisorEvent::LinkFailed), SupervisorAction::Ignore);
    assert_eq!(sup.phase(), Phase::Sampling);
}

#[test]
fn address_wait_failure_restarts_from_scan() {
    let delay = 3000;
    let mut sup = Supervisor::new(delay);
    let mut actions = vec![sup.start()];
    let mut link = ConnectionManager::new("home".to_string(), "pw".to_string());
    link.step(LinkEvent::Succeeded);
    link.step(LinkEvent::Scanned(Ok(Vec::new())));
    link.step(LinkEvent::Succeeded);
    assert_eq!(link.step(LinkEvent::Succeeded), LinkAction::AwaitAddress);
    assert_eq!(
        link.step(LinkEvent::OperationFailed),
        LinkAction::Abort(ConnectionError::AddressWait)
    );
    actions.push(sup.step(SupervisorEvent::LinkFailed));
    actions.push(sup.step(SupervisorEvent::DelayElapsed));
    assert_eq!(
        actions,
        vec![
            SupervisorAction::Connect,
            SupervisorAction::Sleep(delay),
            SupervisorAction::Restart
        ]
    );
    assert!(!actions.contains(&SupervisorAction::StartSampling));
    let mut again = ConnectionManager::new("home".to_string(), "pw".to_string());
    assert_eq!(again.state(), LinkState::Idle);
    assert_eq!(again.action(), LinkAction::StartRadio);
    assert_eq!(again.step(LinkEvent::Succeeded), LinkAction::Scan);
}
