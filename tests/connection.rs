use netweather::connection::{
    auth_from_list, choose_auth, ADDRESS_READ_STAGE, guess_auth, progress_stage, AuthMode, ConnectionError,
    ConnectionManager, LinkAction, LinkEvent, LinkState, ScanEntry, ScanFailure,
};

fn ap(ssid: &str, auth: Option<AuthMode>) -> ScanEntry {
    ScanEntry { ssid: ssid.to_string(), auth }
}

fn s(x: &str) -> String {
    x.to_string()
}

#[test]
fn password_decides_guess() {
    assert_eq!(guess_auth(&s("")), AuthMode::Open);
    assert_eq!(guess_auth(&s("secret")), AuthMode::Wpa2Personal);
}

#[test]
fn reported_mode_wins_over_password() {
    let scan = Ok(vec![ap("other", Some(AuthMode::Wep)), ap("home", Some(AuthMode::Wpa3Personal))]);
    assert_eq!(choose_auth(&scan, &s("home"), &s("")), AuthMode::Wpa3Personal);
    assert_eq!(choose_auth(&scan, &s("home"), &s("pw")), AuthMode::Wpa3Personal);
    let open = Ok(vec![ap("cafe", Some(AuthMode::Open))]);
    assert_eq!(choose_auth(&open, &s("cafe"), &s("pw")), AuthMode::Open);
}

#[test]
fn first_matching_entry_decides() {
    let aps = vec![ap("home", Some(AuthMode::Wpa)), ap("home", Some(AuthMode::Wep))];
    assert_eq!(auth_from_list(&aps, &s("home"), &s("pw")), AuthMode::Wpa);
    let aps = vec![ap("home", None), ap("home", Some(AuthMode::Wep))];
    assert_eq!(auth_from_list(&aps, &s("home"), &s("pw")), AuthMode::Wpa2Personal);
}

#[test]
fn unknown_or_missing_network_is_guessed() {
    let scan = Ok(vec![ap("home", None)]);
    assert_eq!(choose_auth(&scan, &s("home"), &s("")), AuthMode::Open);
    assert_eq!(choose_auth(&scan, &s("home"), &s("pw")), AuthMode::Wpa2Personal);
    let scan = Ok(vec![ap("elsewhere", Some(AuthMode::Wep))]);
    assert_eq!(choose_auth(&scan, &s("home"), &s("pw")), AuthMode::Wpa2Personal);
    assert_eq!(choose_auth(&Ok(Vec::new()), &s("home"), &s("")), AuthMode::Open);
}

#[test]
fn failed_scan_is_open_iff_no_password() {
    assert_eq!(choose_auth(&Err(ScanFailure), &s("home"), &s("")), AuthMode::Open);
    assert_eq!(choose_auth(&Err(ScanFailure), &s("home"), &s("x")), AuthMode::Wpa2Personal);
}

#[test]
fn successful_attempt_walks_every_state() {
    let mut m = ConnectionManager::new(s("home"), s("pw"));
    assert_eq!(m.state(), LinkState::Idle);
    assert_eq!(m.action(), LinkAction::StartRadio);
    assert_eq!(m.step(LinkEvent::Succeeded), LinkAction::Scan);
    let scan = Ok(vec![ap("home", Some(AuthMode::WpaWpa2Personal))]);
    assert_eq!(m.step(LinkEvent::Scanned(scan)), LinkAction::Configure(AuthMode::WpaWpa2Personal));
    assert_eq!(m.state(), LinkState::Configuring);
    assert_eq!(m.step(LinkEvent::Succeeded), LinkAction::Associate);
    assert_eq!(m.step(LinkEvent::Succeeded), LinkAction::AwaitAddress);
    assert_eq!(m.step(LinkEvent::Succeeded), LinkAction::Finish);
    assert_eq!(m.state(), LinkState::Connected);
    assert_eq!(m.step(LinkEvent::OperationFailed), LinkAction::Finish);
    assert_eq!(m.ssid(), "home");
    assert_eq!(m.password(), "pw");
}

#[test]
fn failed_scan_still_configures() {
    let mut m = ConnectionManager::new(s("home"), s(""));
    m.step(LinkEvent::Succeeded);
    assert_eq!(m.step(LinkEvent::Scanned(Err(ScanFailure))), LinkAction::Configure(AuthMode::Open));
    let mut m = ConnectionManager::new(s("home"), s("pw"));
    m.step(LinkEvent::Succeeded);
    assert_eq!(m.step(LinkEvent::OperationFailed), LinkAction::Configure(AuthMode::Wpa2Personal));
}

#[test]
fn each_stage_fails_with_its_error() {
    let cases = [
        (0, ConnectionError::Start),
        (2, ConnectionError::Configure),
        (3, ConnectionError::Associate),
        (4, ConnectionError::AddressWait),
    ];
    for (successes, err) in cases {
        let mut m = ConnectionManager::new(s("home"), s(""));
        for k in 0..successes {
            if k == 1 {
                m.step(LinkEvent::Scanned(Ok(Vec::new())));
            } else {
                m.step(LinkEvent::Succeeded);
            }
        }
        assert_eq!(m.step(LinkEvent::OperationFailed), LinkAction::Abort(err));
        assert_eq!(m.state(), LinkState::Failed(err));
        assert_eq!(m.step(LinkEvent::Succeeded), LinkAction::Abort(err));
    }
}

#[test]
fn stray_scan_result_is_ignored() {
    let mut m = ConnectionManager::new(s("home"), s(""));
    assert_eq!(m.step(LinkEvent::Scanned(Ok(Vec::new()))), LinkAction::StartRadio);
    assert_eq!(m.state(), LinkState::Idle);
}

#[test]
fn stages_follow_progress() {
    assert_eq!(progress_stage(LinkState::Idle), Some(2));
    assert_eq!(progress_stage(LinkState::Scanning), Some(2));
    assert_eq!(progress_stage(LinkState::Configuring), Some(2));
    assert_eq!(progress_stage(LinkState::Connecting), Some(3));
    assert_eq!(progress_stage(LinkState::WaitingForAddress), Some(4));
    assert_eq!(progress_stage(LinkState::Connected), Some(5));
    assert_eq!(progress_stage(LinkState::Failed(ConnectionError::Start)), None);
    assert_eq!(ADDRESS_READ_STAGE, 6);
}

#[test]
fn attempt_shows_stages_two_to_five_in_order() {
    let mut m = ConnectionManager::new(s("home"), s("pw"));
    let mut shown = vec![progress_stage(m.state())];
    m.step(LinkEvent::Succeeded);
    shown.push(progress_stage(m.state()));
    m.step(LinkEvent::Scanned(Err(ScanFailure)));
    shown.push(progress_stage(m.state()));
    for _ in 0..3 {
        m.step(LinkEvent::Succeeded);
        shown.push(progress_stage(m.state()));
    }
    assert_eq!(shown, vec![Some(2), Some(2), Some(2), Some(3), Some(4), Some(5)]);
}
