//! Bringing up the wireless link: scan, choose the authentication mode,
//! configure, associate, and wait for an address.
//!
//! The manager decides and the caller acts: `action` names the operation that
//! the current state asks of the wireless stack, and `step` takes its outcome.
use vstd::prelude::*;

verus! {

/// The authentication modes that a wireless network can report.
#[derive(Clone, Copy, Debug, PartialEq, Eq, Structural)]
pub enum AuthMode {
    Open,
    Wep,
    Wpa,
    Wpa2Personal,
    WpaWpa2Personal,
    Wpa2Enterprise,
    Wpa3Personal,
    Wpa2Wpa3Personal,
    WapiPersonal,
}

/// One network seen by a scan: its name, and its authentication mode where
/// the scan reported one.
#[derive(Debug)]
pub struct ScanEntry {
    pub ssid: String,
    pub auth: Option<AuthMode>,
}

/// The scan itself failed; the connection goes on with a guessed mode.
#[derive(Clone, Copy, Debug, PartialEq, Eq, Structural)]
pub struct ScanFailure;

/// The stage at which a connection attempt failed.
#[derive(Clone, Copy, Debug, PartialEq, Eq, Structural)]
pub enum ConnectionError {
    Start,
    Configure,
    Associate,
    AddressWait,
}

/// The mode assumed when the scan gives none: open without a password,
/// WPA2 with a pre-shared key otherwise.
pub open spec fn guessed_auth(password: Seq<char>) -> AuthMode {
    if password.len() == 0 {
        AuthMode::Open
    } else {
        AuthMode::Wpa2Personal
    }
}

/// The mode chosen from a list of scanned networks: that reported by the first
/// entry named `ssid`, or the guessed one if that entry reports none or no
/// entry has that name.
pub open spec fn scan_auth(aps: Seq<ScanEntry>, ssid: Seq<char>, password: Seq<char>) -> AuthMode
    decreases aps.len(),
{
    if aps.len() == 0 {
        guessed_auth(password)
    } else if aps[0].ssid@ == ssid {
        match aps[0].auth {
            Some(m) => m,
            None => guessed_auth(password),
        }
    } else {
        scan_auth(aps.drop_first(), ssid, password)
    }
}

/// The mode chosen from the outcome of a scan; a failed scan degrades to the
/// guessed mode.
pub open spec fn chosen_auth(
    scan: Result<Vec<ScanEntry>, ScanFailure>,
    ssid: Seq<char>,
    password: Seq<char>,
) -> AuthMode {
    match scan {
        Ok(aps) => scan_auth(aps@, ssid, password),
        Err(_) => guessed_auth(password),
    }
}

/// The mode assumed without a usable scan result.
pub fn guess_auth(password: &String) -> (r: AuthMode)
    ensures
        r == guessed_auth(password@),
{
    if password.as_str().is_empty() {
        AuthMode::Open
    } else {
        AuthMode::Wpa2Personal
    }
}

/// Chooses the authentication mode from a list of scanned networks.
pub fn auth_from_list(aps: &Vec<ScanEntry>, ssid: &String, password: &String) -> (r: AuthMode)
    ensures
        r == scan_auth(aps@, ssid@, password@),
{
    let mut i: usize = 0;
    assert(aps@.subrange(0, aps@.len() as int) =~= aps@);
    while i < aps.len()
        invariant
            i <= aps@.len(),
            scan_auth(aps@, ssid@, password@) == scan_auth(
                aps@.subrange(i as int, aps@.len() as int),
                ssid@,
                password@,
            ),
        decreases aps@.len() - i,
    {
        proof {
            let rest = aps@.subrange(i as int, aps@.len() as int);
            assert(rest[0] == aps@[i as int]);
            assert(rest.drop_first() =~= aps@.subrange(i + 1, aps@.len() as int));
        }
        if aps[i].ssid == *ssid {
            return match aps[i].auth {
                Some(m) => m,
                None => guess_auth(password),
            };
        }
        i = i + 1;
    }
    guess_auth(password)
}

/// Chooses the authentication mode for the network `ssid` from the outcome of
/// a scan and from whether a password was supplied.
pub fn choose_auth(
    scan: &Result<Vec<ScanEntry>, ScanFailure>,
    ssid: &String,
    password: &String,
) -> (r: AuthMode)
    ensures
        r == chosen_auth(*scan, ssid@, password@),
{
    match scan {
        Ok(aps) => auth_from_list(aps, ssid, password),
        Err(_) => guess_auth(password),
    }
}

/// A network that the scan reports with an explicit mode is joined with that
/// mode, whatever the password; when the scan fails, the network is taken as
/// open exactly when the password is empty.
pub proof fn lemma_scan_decides_auth(
    aps: Seq<ScanEntry>,
    ssid: Seq<char>,
    password: Seq<char>,
    i: int,
    m: AuthMode,
)
    requires
        0 <= i < aps.len(),
        aps[i].ssid@ == ssid,
        aps[i].auth == Some(m),
        forall|j: int| 0 <= j < i ==> #[trigger] aps[j].ssid@ != ssid,
    ensures
        scan_auth(aps, ssid, password) == m,
        chosen_auth(Err(ScanFailure), ssid, password) == AuthMode::Open <==> password.len() == 0,
    decreases i,
{
    if i > 0 {
        assert(aps[0].ssid@ != ssid);
        let rest = aps.drop_first();
        assert forall|j: int| 0 <= j < i - 1 implies #[trigger] rest[j].ssid@ != ssid by {
            assert(rest[j] == aps[j + 1]);
        }
        lemma_scan_decides_auth(rest, ssid, password, i - 1, m);
    }
}

/// The states of one connection attempt.
#[derive(Clone, Copy, Debug, PartialEq, Eq, Structural)]
pub enum LinkState {
    Idle,
    Scanning,
    Configuring,
    Connecting,
    WaitingForAddress,
    Connected,
    Failed(ConnectionError),
}

/// The operation that a state asks of the wireless stack.
#[derive(Clone, Copy, Debug, PartialEq, Eq, Structural)]
pub enum LinkAction {
    /// Start the radio.
    StartRadio,
    /// Scan for visible networks.
    Scan,
    /// Apply the network name, password and this mode.
    Configure(AuthMode),
    /// Request association with the network.
    Associate,
    /// Block until the network assigns an address.
    AwaitAddress,
    /// The link is up; nothing more to do.
    Finish,
    /// The attempt failed at this stage.
    Abort(ConnectionError),
}

/// The outcome of the operation last asked for.
#[derive(Debug)]
pub enum LinkEvent {
    /// The operation succeeded.
    Succeeded,
    /// The scan finished, with its result or its failure.
    Scanned(Result<Vec<ScanEntry>, ScanFailure>),
    /// The operation failed.
    OperationFailed,
}

/// The operation asked for in a state, with the chosen mode.
pub open spec fn action_of(state: LinkState, auth: AuthMode) -> LinkAction {
    match state {
        LinkState::Idle => LinkAction::StartRadio,
        LinkState::Scanning => LinkAction::Scan,
        LinkState::Configuring => LinkAction::Configure(auth),
        LinkState::Connecting => LinkAction::Associate,
        LinkState::WaitingForAddress => LinkAction::AwaitAddress,
        LinkState::Connected => LinkAction::Finish,
        LinkState::Failed(e) => LinkAction::Abort(e),
    }
}

/// The state after an event. A scan never fails the attempt; a failure of any
/// other operation does; `Connected` and `Failed` are final.
pub open spec fn next_state(state: LinkState, event: LinkEvent) -> LinkState {
    match state {
        LinkState::Scanning => LinkState::Configuring,
        LinkState::Connected => state,
        LinkState::Failed(_) => state,
        _ => match event {
            LinkEvent::Succeeded => match state {
                LinkState::Idle => LinkState::Scanning,
                LinkState::Configuring => LinkState::Connecting,
                LinkState::Connecting => LinkState::WaitingForAddress,
                _ => LinkState::Connected,
            },
            LinkEvent::OperationFailed => LinkState::Failed(
                match state {
                    LinkState::Idle => ConnectionError::Start,
                    LinkState::Configuring => ConnectionError::Configure,
                    LinkState::Connecting => ConnectionError::Associate,
                    _ => ConnectionError::AddressWait,
                },
            ),
            LinkEvent::Scanned(_) => state,
        },
    }
}

/// The mode after an event in a state: chosen from the scan when one ends,
/// with a missing result taken as a failed scan.
pub open spec fn next_auth(
    state: LinkState,
    event: LinkEvent,
    auth: AuthMode,
    ssid: Seq<char>,
    password: Seq<char>,
) -> AuthMode {
    match state {
        LinkState::Scanning => match event {
            LinkEvent::Scanned(r) => chosen_auth(r, ssid, password),
            _ => guessed_auth(password),
        },
        _ => auth,
    }
}

/// One connection attempt for a network name and an optional password
/// (empty for none).
pub struct ConnectionManager {
    ssid: String,
    password: String,
    state: LinkState,
    auth: AuthMode,
}

impl ConnectionManager {
    pub closed spec fn ssid_spec(&self) -> Seq<char> {
        self.ssid@
    }

    pub closed spec fn password_spec(&self) -> Seq<char> {
        self.password@
    }

    pub closed spec fn state_spec(&self) -> LinkState {
        self.state
    }

    pub closed spec fn auth_spec(&self) -> AuthMode {
        self.auth
    }

    /// A fresh attempt, in `Idle`.
    pub fn new(ssid: String, password: String) -> (r: ConnectionManager)
        ensures
            r.ssid_spec() == ssid@,
            r.password_spec() == password@,
            r.state_spec() == LinkState::Idle,
            r.auth_spec() == guessed_auth(password@),
    {
        let auth = guess_auth(&password);
        ConnectionManager { ssid, password, state: LinkState::Idle, auth }
    }

    /// The network name.
    pub fn ssid(&self) -> (r: &String)
        ensures
            r@ == self.ssid_spec(),
    {
        &self.ssid
    }

    /// The password, empty for an open network.
    pub fn password(&self) -> (r: &String)
        ensures
            r@ == self.password_spec(),
    {
        &self.password
    }

    /// The current state.
    pub fn state(&self) -> (r: LinkState)
        ensures
            r == self.state_spec(),
    {
        self.state
    }

    /// The operation that the current state asks for.
    pub fn action(&self) -> (r: LinkAction)
        ensures
            r == action_of(self.state_spec(), self.auth_spec()),
    {
        match self.state {
            LinkState::Idle => LinkAction::StartRadio,
            LinkState::Scanning => LinkAction::Scan,
            LinkState::Configuring => LinkAction::Configure(self.auth),
            LinkState::Connecting => LinkAction::Associate,
            LinkState::WaitingForAddress => LinkAction::AwaitAddress,
            LinkState::Connected => LinkAction::Finish,
            LinkState::Failed(e) => LinkAction::Abort(e),
        }
    }

    /// Takes the outcome of the operation last asked for and returns the next
    /// operation.
    pub fn step(&mut self, event: LinkEvent) -> (r: LinkAction)
        ensures
            final(self).ssid_spec() == old(self).ssid_spec(),
            final(self).password_spec() == old(self).password_spec(),
            final(self).state_spec() == next_state(old(self).state_spec(), event),
            final(self).auth_spec() == next_auth(
                old(self).state_spec(),
                event,
                old(self).auth_spec(),
                old(self).ssid_spec(),
                old(self).password_spec(),
            ),
            r == action_of(final(self).state_spec(), final(self).auth_spec()),
    {
        match self.state {
            LinkState::Scanning => {
                self.auth = match &event {
                    LinkEvent::Scanned(r) => choose_auth(r, &self.ssid, &self.password),
                    _ => guess_auth(&self.password),
                };
                self.state = LinkState::Configuring;
            },
            LinkState::Connected => {},
            LinkState::Failed(_) => {},
            _ => match event {
                LinkEvent::Succeeded => {
                    self.state = match self.state {
                        LinkState::Idle => LinkState::Scanning,
                        LinkState::Configuring => LinkState::Connecting,
                        LinkState::Connecting => LinkState::WaitingForAddress,
                        _ => LinkState::Connected,
                    };
                },
                LinkEvent::OperationFailed => {
                    self.state = LinkState::Failed(
                        match self.state {
                            LinkState::Idle => ConnectionError::Start,
                            LinkState::Configuring => ConnectionError::Configure,
                            LinkState::Connecting => ConnectionError::Associate,
                            _ => ConnectionError::AddressWait,
                        },
                    );
                },
                LinkEvent::Scanned(_) => {},
            },
        }
        self.action()
    }
}

/// How many pixels of the progress display a state lights: two while the
/// radio starts, scans and is configured, three while associating, four while
/// waiting for an address, five while the address is read. A failed attempt
/// changes the display no further.
pub open spec fn stage_of(state: LinkState) -> Option<u32> {
    match state {
        LinkState::Idle => Some(2),
        LinkState::Scanning => Some(2),
        LinkState::Configuring => Some(2),
        LinkState::Connecting => Some(3),
        LinkState::WaitingForAddress => Some(4),
        LinkState::Connected => Some(5),
        LinkState::Failed(_) => None,
    }
}

/// Pixels lit once the assigned address has been read.
pub const ADDRESS_READ_STAGE: u32 = 6;

/// The progress stage shown for a state, if any.
pub fn progress_stage(state: LinkState) -> (r: Option<u32>)
    ensures
        r == stage_of(state),
{
    match state {
        LinkState::Idle => Some(2),
        LinkState::Scanning => Some(2),
        LinkState::Configuring => Some(2),
        LinkState::Connecting => Some(3),
        LinkState::WaitingForAddress => Some(4),
        LinkState::Connected => Some(5),
        LinkState::Failed(_) => None,
    }
}

} // verus!
