//! The WiFi connection state machine.
//!
//! The machine owns the provisioning choreography: start as an access
//! point, wait for credentials from the portal, shut the access point down
//! after a grace interval (so the form's confirmation page finishes
//! transmitting), then drive station mode - connect, hold the link, and on
//! failure or disconnect retry forever with the same credentials. The
//! machine only decides; the radio driver performs each state's action and
//! reports the resulting event.

use vstd::prelude::*;

use crate::creds::WifiCredentials;

verus! {

/// The grace interval between receiving credentials and stopping the
/// access point, in milliseconds: long enough for the confirmation page
/// to finish transmitting. Stopping earlier can truncate the client's
/// response.
pub const AP_SHUTDOWN_GRACE_MILLIS: u64 = 2000;

/// The settling pause between stopping the access point and configuring
/// station mode, in milliseconds.
pub const STA_START_SETTLE_MILLIS: u64 = 1000;

/// The fixed back-off after a failed association attempt, in
/// milliseconds; retried forever, with no escalation.
pub const RECONNECT_BACKOFF_MILLIS: u64 = 5000;

/// The fixed SSID the provisioning access point announces.
pub fn access_point_ssid() -> (s: &'static str)
    ensures
        s@ == "esp-radio"@,
{
    "esp-radio"
}

/// The provisioning and connection states.
#[derive(Clone, Copy, PartialEq, Eq, Debug, Structural)]
pub enum ConnState {
    /// Configuring and starting the access point.
    ApProvisioning,
    /// Access point up; blocked on the credential slot, without timeout.
    AwaitingCredentials,
    /// Credentials taken; waiting out the grace interval, then stopping
    /// the access point.
    ApShuttingDown,
    /// Applying the received SSID and password and starting station mode.
    StaConfiguring,
    /// Attempting to associate.
    StaConnecting,
    /// Associated; blocked on a disconnect event.
    StaConnected,
    /// Association failed; waiting out the fixed back-off.
    StaReconnecting,
}

/// What the radio driver reports back to the machine.
pub enum ConnEvent {
    /// The access point is up and accepting associations.
    ApStarted,
    /// The portal delivered one credential set.
    CredentialsReceived(WifiCredentials),
    /// The grace interval passed and the access point stopped.
    ApStopped,
    /// Station mode is configured and started.
    StaStarted,
    /// Association succeeded.
    ConnectSucceeded,
    /// Association failed.
    ConnectFailed,
    /// The held link dropped.
    Disconnected,
    /// The reconnect back-off elapsed.
    BackoffElapsed,
}

/// What the driver must do next for each state.
#[derive(Clone, Copy, PartialEq, Eq, Debug, Structural)]
pub enum ConnAction {
    /// Configure the radio as an access point with the fixed SSID and
    /// start it.
    StartAccessPoint,
    /// Block on the credential slot.
    ReceiveCredentials,
    /// Wait the grace interval, then stop the access point.
    GraceThenStopAccessPoint,
    /// Apply the held credentials to station mode and start it.
    ConfigureStation,
    /// Attempt to associate.
    AttemptConnect,
    /// Block until a disconnect event.
    WaitForDisconnect,
    /// Wait the fixed back-off before retrying.
    WaitBackoff,
}

/// The connection state machine: the current state plus the credentials
/// received from the portal, if any.
pub struct ConnectionMachine {
    pub state: ConnState,
    pub creds: Option<WifiCredentials>,
}

impl ConnectionMachine {
    /// Credentials are held exactly from the moment the portal delivers
    /// them; the machine never invents or forgets them.
    pub open spec fn well_formed(self) -> bool {
        match self.state {
            ConnState::ApProvisioning => self.creds is None,
            ConnState::AwaitingCredentials => self.creds is None,
            _ => self.creds is Some,
        }
    }

    /// The transition relation: which state follows `state` on `event`.
    /// An event that does not belong to the current state is ignored.
    pub open spec fn spec_next_state(state: ConnState, event: ConnEvent) -> ConnState {
        match (state, event) {
            (ConnState::ApProvisioning, ConnEvent::ApStarted) => ConnState::AwaitingCredentials,
            (
                ConnState::AwaitingCredentials,
                ConnEvent::CredentialsReceived(_),
            ) => ConnState::ApShuttingDown,
            (ConnState::ApShuttingDown, ConnEvent::ApStopped) => ConnState::StaConfiguring,
            (ConnState::StaConfiguring, ConnEvent::StaStarted) => ConnState::StaConnecting,
            (ConnState::StaConnecting, ConnEvent::ConnectSucceeded) => ConnState::StaConnected,
            (ConnState::StaConnecting, ConnEvent::ConnectFailed) => ConnState::StaReconnecting,
            (ConnState::StaConnected, ConnEvent::Disconnected) => ConnState::StaConnecting,
            (ConnState::StaReconnecting, ConnEvent::BackoffElapsed) => ConnState::StaConnecting,
            (s, _) => s,
        }
    }

    /// The credentials after `event`: set once on delivery, then kept.
    pub open spec fn spec_next_creds(
        state: ConnState,
        creds: Option<WifiCredentials>,
        event: ConnEvent,
    ) -> Option<WifiCredentials> {
        match (state, event) {
            (ConnState::AwaitingCredentials, ConnEvent::CredentialsReceived(c)) => Some(c),
            _ => creds,
        }
    }

    /// A fresh machine about to stand up the access point.
    pub fn new() -> (m: ConnectionMachine)
        ensures
            m.state == ConnState::ApProvisioning,
            m.creds is None,
            m.well_formed(),
    {
        ConnectionMachine { state: ConnState::ApProvisioning, creds: None }
    }

    /// The action the driver must perform in the current state.
    pub fn action(&self) -> (a: ConnAction)
        ensures
            a == Self::spec_action(self.state),
    {
        match self.state {
            ConnState::ApProvisioning => ConnAction::StartAccessPoint,
            ConnState::AwaitingCredentials => ConnAction::ReceiveCredentials,
            ConnState::ApShuttingDown => ConnAction::GraceThenStopAccessPoint,
            ConnState::StaConfiguring => ConnAction::ConfigureStation,
            ConnState::StaConnecting => ConnAction::AttemptConnect,
            ConnState::StaConnected => ConnAction::WaitForDisconnect,
            ConnState::StaReconnecting => ConnAction::WaitBackoff,
        }
    }

    /// The action owed in each state.
    pub open spec fn spec_action(state: ConnState) -> ConnAction {
        match state {
            ConnState::ApProvisioning => ConnAction::StartAccessPoint,
            ConnState::AwaitingCredentials => ConnAction::ReceiveCredentials,
            ConnState::ApShuttingDown => ConnAction::GraceThenStopAccessPoint,
            ConnState::StaConfiguring => ConnAction::ConfigureStation,
            ConnState::StaConnecting => ConnAction::AttemptConnect,
            ConnState::StaConnected => ConnAction::WaitForDisconnect,
            ConnState::StaReconnecting => ConnAction::WaitBackoff,
        }
    }

    /// Feeds one event into the machine.
    pub fn step(&mut self, event: ConnEvent)
        requires
            old(self).well_formed(),
        ensures
            final(self).state == Self::spec_next_state(old(self).state, event),
            final(self).creds == Self::spec_next_creds(old(self).state, old(self).creds, event),
            final(self).well_formed(),
    {
        match (self.state, event) {
            (ConnState::ApProvisioning, ConnEvent::ApStarted) => {
                self.state = ConnState::AwaitingCredentials;
            },
            (ConnState::AwaitingCredentials, ConnEvent::CredentialsReceived(c)) => {
                self.creds = Some(c);
                self.state = ConnState::ApShuttingDown;
            },
            (ConnState::ApShuttingDown, ConnEvent::ApStopped) => {
                self.state = ConnState::StaConfiguring;
            },
            (ConnState::StaConfiguring, ConnEvent::StaStarted) => {
                self.state = ConnState::StaConnecting;
            },
            (ConnState::StaConnecting, ConnEvent::ConnectSucceeded) => {
                self.state = ConnState::StaConnected;
            },
            (ConnState::StaConnecting, ConnEvent::ConnectFailed) => {
                self.state = ConnState::StaReconnecting;
            },
            (ConnState::StaConnected, ConnEvent::Disconnected) => {
                self.state = ConnState::StaConnecting;
            },
            (ConnState::StaReconnecting, ConnEvent::BackoffElapsed) => {
                self.state = ConnState::StaConnecting;
            },
            _ => {},
        }
    }
}

/// Once delivered, the credentials never change: every later transition
/// carries them through untouched, so the station associates with exactly
/// the SSID and password the portal collected.
pub proof fn lemma_credentials_pinned(state: ConnState, creds: Option<WifiCredentials>, event: ConnEvent)
    requires
        !(state is AwaitingCredentials),
    ensures
        ConnectionMachine::spec_next_creds(state, creds, event) == creds,
{
}

/// Reconnect liveness: from an association attempt that fails, the machine
/// waits out the back-off, retries, and on the second attempt's success
/// stands connected - with the same credentials, and without any outside
/// intervention beyond the driver reporting events.
pub proof fn lemma_reconnect_liveness(m: ConnectionMachine)
    requires
        m.well_formed(),
        m.state is StaConnecting,
    ensures
        ({
            let s1 = ConnectionMachine::spec_next_state(m.state, ConnEvent::ConnectFailed);
            let s2 = ConnectionMachine::spec_next_state(s1, ConnEvent::BackoffElapsed);
            let s3 = ConnectionMachine::spec_next_state(s2, ConnEvent::ConnectSucceeded);
            &&& s1 is StaReconnecting
            &&& s2 is StaConnecting
            &&& s3 is StaConnected
        }),
        ConnectionMachine::spec_next_creds(m.state, m.creds, ConnEvent::ConnectFailed) == m.creds,
{
}

} // verus!
