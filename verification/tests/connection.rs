use provisioner::creds::WifiCredentials;
use provisioner::wifi::{ConnAction, ConnEvent, ConnState, ConnectionMachine};

fn creds(ssid: &[u8], password: &[u8]) -> WifiCredentials {
    WifiCredentials::new(ssid.to_vec(), password.to_vec()).expect("within bounds")
}

#[test]
fn provisioning_happy_path() {
    let mut m = ConnectionMachine::new();
    assert_eq!(m.state, ConnState::ApProvisioning);
    assert_eq!(m.action(), ConnAction::StartAccessPoint);

    m.step(ConnEvent::ApStarted);
    assert_eq!(m.state, ConnState::AwaitingCredentials);
    assert_eq!(m.action(), ConnAction::ReceiveCredentials);

    m.step(ConnEvent::CredentialsReceived(creds(b"MyNet", b"Secret 1")));
    assert_eq!(m.state, ConnState::ApShuttingDown);
    assert_eq!(m.action(), ConnAction::GraceThenStopAccessPoint);

    m.step(ConnEvent::ApStopped);
    assert_eq!(m.state, ConnState::StaConfiguring);
    assert_eq!(m.action(), ConnAction::ConfigureStation);

    m.step(ConnEvent::StaStarted);
    assert_eq!(m.state, ConnState::StaConnecting);
    assert_eq!(m.action(), ConnAction::AttemptConnect);

    m.step(ConnEvent::ConnectSucceeded);
    assert_eq!(m.state, ConnState::StaConnected);
    assert_eq!(m.action(), ConnAction::WaitForDisconnect);

    let held = m.creds.as_ref().expect("credentials kept");
    assert_eq!(held.ssid, b"MyNet".to_vec());
    assert_eq!(held.password, b"Secret 1".to_vec());
}

#[test]
fn reconnect_liveness_second_attempt_succeeds() {
    let mut m = ConnectionMachine::new();
    m.step(ConnEvent::ApStarted);
    m.step(ConnEvent::CredentialsReceived(creds(b"net", b"pw")));
    m.step(ConnEvent::ApStopped);
    m.step(ConnEvent::StaStarted);
    assert_eq!(m.state, ConnState::StaConnecting);

    // First attempt fails; the machine backs off and retries by itself.
    m.step(ConnEvent::ConnectFailed);
    assert_eq!(m.state, ConnState::StaReconnecting);
    assert_eq!(m.action(), ConnAction::WaitBackoff);
    m.step(ConnEvent::BackoffElapsed);
    assert_eq!(m.state, ConnState::StaConnecting);
    m.step(ConnEvent::ConnectSucceeded);
    assert_eq!(m.state, ConnState::StaConnected);

    // The retry used the very credentials the portal delivered.
    let held = m.creds.as_ref().expect("credentials kept");
    assert_eq!(held.ssid, b"net".to_vec());
    assert_eq!(held.password, b"pw".to_vec());
}

#[test]
fn disconnect_reconnects_without_new_credentials() {
    let mut m = ConnectionMachine::new();
    m.step(ConnEvent::ApStarted);
    m.step(ConnEvent::CredentialsReceived(creds(b"net", b"pw")));
    m.step(ConnEvent::ApStopped);
    m.step(ConnEvent::StaStarted);
    m.step(ConnEvent::ConnectSucceeded);
    m.step(ConnEvent::Disconnected);
    assert_eq!(m.state, ConnState::StaConnecting);
    assert!(m.creds.is_some());
}

#[test]
fn events_out_of_place_are_ignored() {
    let mut m = ConnectionMachine::new();
    m.step(ConnEvent::ConnectSucceeded);
    assert_eq!(m.state, ConnState::ApProvisioning);
    m.step(ConnEvent::Disconnected);
    assert_eq!(m.state, ConnState::ApProvisioning);
    m.step(ConnEvent::ApStarted);
    m.step(ConnEvent::ApStopped);
    assert_eq!(m.state, ConnState::AwaitingCredentials);
}
