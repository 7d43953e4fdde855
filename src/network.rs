//! The network step's decisions: whether the network screen is shown at all,
//! and how a Wi-Fi connection attempt goes from the password prompt to
//! internet access. The caller performs the device operations and reports
//! what they returned, with the time of a monotonic clock in milliseconds.
use vstd::prelude::*;
use crate::events::{copy_opt_text, opt_text};
use crate::text::lower_of;
use crate::validation::{auth_keyword_in, is_wifi_auth_error};

verus! {

/// How long a connection attempt may take before it counts as failed.
pub const CONNECT_TIMEOUT_MS: u64 = 8000;

/// How often the device is asked whether it has associated.
pub const POLL_INTERVAL_MS: u64 = 200;

/// How long after a connection a scan that still shows no network in use is
/// taken for a stale scan.
pub const RECONNECT_GRACE_MS: u64 = 5000;

pub const INCORRECT_PASSWORD: &'static str = "Incorrect password.";

pub const OPEN_CONNECT_FAILED: &'static str = "Connection failed. Please try again.";

pub const NO_INTERNET: &'static str = "Connected to Wi-Fi but no internet access.";

/// The label used when internet access works but no connection name is known.
pub const CONNECTED_LABEL: &'static str = "Connected";

/// What the network step does when it is entered.
#[derive(Clone, Copy, Debug, PartialEq, Eq, Structural)]
pub enum NetworkEntry {
    /// The connection is ready: go on without showing the network screen.
    Proceed,
    /// Show the Wi-Fi screen.
    Edit,
    /// No wireless device: show the screen that asks for a network.
    DeviceRequired,
}

pub open spec fn entry_of(force: bool, wifi_present: bool, internet_ready: bool) -> NetworkEntry {
    let editing = force && wifi_present;
    if !editing && internet_ready {
        NetworkEntry::Proceed
    } else if !wifi_present {
        NetworkEntry::DeviceRequired
    } else {
        NetworkEntry::Edit
    }
}

/// `force` asks for the network screen even where the connection looks
/// ready; it has no effect without a wireless device.
pub fn network_entry(force: bool, wifi_present: bool, internet_ready: bool) -> (r: NetworkEntry)
    ensures
        r == entry_of(force, wifi_present, internet_ready),
{
    let editing = force && wifi_present;
    if !editing && internet_ready {
        NetworkEntry::Proceed
    } else if !wifi_present {
        NetworkEntry::DeviceRequired
    } else {
        NetworkEntry::Edit
    }
}

/// Where a Wi-Fi connection stands.
#[derive(Clone, Copy, Debug, PartialEq, Eq, Structural)]
pub enum LinkState {
    Searching,
    /// A connection was requested at `started_ms`; `secured` networks take a password.
    Connecting { started_ms: u64, secured: bool },
    /// The device associated at `connected_ms`; internet access is not known yet.
    Stabilizing { connected_ms: u64 },
    Ready,
}

/// What the caller does next.
#[derive(Clone, Copy, Debug, PartialEq, Eq, Structural)]
pub enum Reaction {
    /// Wait one poll interval, then report whether the device associated.
    Poll,
    /// Check internet access and report it.
    CheckInternet,
    /// Ask for the password again, showing the password error; where
    /// `forget_profile` holds, first remove the profile that was just tried.
    AskPassword { forget_profile: bool },
    /// Show the network list with the status message.
    ShowNetworks,
}

/// The state of the Wi-Fi screen.
#[derive(Debug)]
pub struct Connector {
    pub state: LinkState,
    /// The message shown on the network list.
    pub status: Option<String>,
    /// The message shown on the password prompt.
    pub password_error: Option<String>,
    /// When the last connection was made, while a scan may still lag behind it.
    pub last_connect_ms: Option<u64>,
    /// What the summary shows of the connection.
    pub label: Option<String>,
}

pub open spec fn elapsed(since: u64, now: u64) -> nat {
    if now >= since {
        (now - since) as nat
    } else {
        0
    }
}

pub open spec fn timed_out(started: u64, now: u64) -> bool {
    elapsed(started, now) >= CONNECT_TIMEOUT_MS
}

pub open spec fn within_grace(connected: u64, now: u64) -> bool {
    elapsed(connected, now) < RECONNECT_GRACE_MS
}

pub open spec fn connect_failed_message(device_state: Seq<char>) -> Seq<char> {
    "Connection failed (state: "@ + device_state + "). Please try again."@
}

fn elapsed_ms(since: u64, now: u64) -> (r: u64)
    ensures
        r == elapsed(since, now),
{
    if now >= since {
        now - since
    } else {
        0
    }
}

pub struct ConnectorView {
    pub state: LinkState,
    pub status: Option<Seq<char>>,
    pub password_error: Option<Seq<char>>,
    pub last_connect_ms: Option<u64>,
    pub label: Option<Seq<char>>,
}

impl View for Connector {
    type V = ConnectorView;

    open spec fn view(&self) -> ConnectorView {
        ConnectorView {
            state: self.state,
            status: opt_text(self.status),
            password_error: opt_text(self.password_error),
            last_connect_ms: self.last_connect_ms,
            label: opt_text(self.label),
        }
    }
}

pub open spec fn note_internet_step(c: ConnectorView, internet_ready: bool, active: Option<Seq<char>>) -> ConnectorView {
    if internet_ready && c.label is None {
        ConnectorView {
            label: Some(
                match active {
                    Some(a) => a,
                    None => CONNECTED_LABEL@,
                },
            ),
            ..c
        }
    } else {
        c
    }
}

/// Whether the screen shows the device as connected after a scan, and the
/// time of the last connection that is still kept.
pub open spec fn scan_step(c: ConnectorView, in_use: bool, now: u64) -> (ConnectorView, bool) {
    if in_use {
        (ConnectorView { last_connect_ms: None, ..c }, true)
    } else if c.last_connect_ms is Some && within_grace(c.last_connect_ms->0, now) {
        (c, true)
    } else {
        (ConnectorView { last_connect_ms: None, ..c }, false)
    }
}

pub open spec fn connect_step(c: ConnectorView, result: Result<(), String>) -> (ConnectorView, Reaction) {
    match result {
        Ok(()) => (c, Reaction::Poll),
        Err(msg) => if c.state->Connecting_secured && auth_keyword_in(lower_of(msg@)) {
            (
                ConnectorView {
                    state: LinkState::Searching,
                    password_error: Some(INCORRECT_PASSWORD@),
                    ..c
                },
                Reaction::AskPassword { forget_profile: true },
            )
        } else {
            (
                ConnectorView { state: LinkState::Searching, status: Some(msg@), ..c },
                Reaction::ShowNetworks,
            )
        },
    }
}

pub open spec fn poll_step(c: ConnectorView, associated: bool, device_state: Seq<char>, now: u64) -> (
    ConnectorView,
    Reaction,
) {
    let started = c.state->Connecting_started_ms;
    if timed_out(started, now) {
        if c.state->Connecting_secured {
            (
                ConnectorView {
                    state: LinkState::Searching,
                    password_error: Some(connect_failed_message(device_state)),
                    ..c
                },
                Reaction::AskPassword { forget_profile: false },
            )
        } else {
            (
                ConnectorView {
                    state: LinkState::Searching,
                    status: Some(OPEN_CONNECT_FAILED@),
                    ..c
                },
                Reaction::ShowNetworks,
            )
        }
    } else if associated {
        (
            ConnectorView {
                state: LinkState::Stabilizing { connected_ms: now },
                last_connect_ms: Some(now),
                ..c
            },
            Reaction::CheckInternet,
        )
    } else {
        (c, Reaction::Poll)
    }
}

pub open spec fn internet_step(c: ConnectorView, ready: bool, active: Option<Seq<char>>, ssid: Seq<char>) -> ConnectorView {
    if ready {
        ConnectorView {
            state: LinkState::Ready,
            status: None,
            label: Some(
                match active {
                    Some(a) => a,
                    None => ssid,
                },
            ),
            ..c
        }
    } else {
        ConnectorView { status: Some(NO_INTERNET@), ..c }
    }
}

impl Connector {
    /// The Wi-Fi screen when it is entered, keeping the connection label.
    pub fn new(label: Option<String>) -> (r: Connector)
        ensures
            r@ == (ConnectorView {
                state: LinkState::Searching,
                status: None,
                password_error: None,
                last_connect_ms: None,
                label: opt_text(label),
            }),
    {
        Connector {
            state: LinkState::Searching,
            status: None,
            password_error: None,
            last_connect_ms: None,
            label,
        }
    }

    /// Internet access was checked at the top of the screen's loop: where it
    /// works and no label is known, the active connection's name is taken, or
    /// a generic one.
    pub fn note_internet(&mut self, internet_ready: bool, active: Option<String>)
        ensures
            final(self)@ == note_internet_step(old(self)@, internet_ready, opt_text(active)),
    {
        if internet_ready && self.label.is_none() {
            self.label = match active {
                Some(a) => Some(a),
                None => Some(String::from_str(CONNECTED_LABEL)),
            };
        }
    }

    /// A scan came back: `in_use` tells whether it shows a network in use.
    /// Returns whether the screen shows the device as connected: a scan that
    /// lags behind a connection made less than the grace window ago counts as
    /// connected.
    pub fn scanned(&mut self, in_use: bool, now_ms: u64) -> (connected: bool)
        ensures
            (final(self)@, connected) == scan_step(old(self)@, in_use, now_ms),
    {
        if in_use {
            self.last_connect_ms = None;
            return true;
        }
        match self.last_connect_ms {
            Some(at) => {
                if elapsed_ms(at, now_ms) < RECONNECT_GRACE_MS {
                    true
                } else {
                    self.last_connect_ms = None;
                    false
                }
            },
            None => false,
        }
    }

    /// A scan failed: the list stays empty and the error becomes the status,
    /// nothing more.
    pub fn scan_failed(&mut self, message: String)
        ensures
            final(self)@ == (ConnectorView { status: Some(message@), ..old(self)@ }),
    {
        self.status = Some(message);
    }

    /// The user cleared the status by asking for a new scan.
    pub fn rescan(&mut self)
        ensures
            final(self)@ == (ConnectorView { status: None, ..old(self)@ }),
    {
        self.status = None;
    }

    /// A connection attempt starts: the caller disconnects the device, removes
    /// any profile of the network, then asks for the connection.
    pub fn begin_attempt(&mut self, secured: bool, now_ms: u64)
        ensures
            final(self)@ == (ConnectorView {
                state: LinkState::Connecting { started_ms: now_ms, secured },
                ..old(self)@
            }),
    {
        self.state = LinkState::Connecting { started_ms: now_ms, secured };
    }

    /// The request for a connection returned. A refusal that names an
    /// authentication failure on a secured network asks for the password
    /// again, after the profile is removed; any other refusal goes back to the
    /// network list with the error as status.
    pub fn connect_returned(&mut self, result: Result<(), String>) -> (r: Reaction)
        requires
            old(self).state is Connecting,
        ensures
            (final(self)@, r) == connect_step(old(self)@, result),
    {
        let secured = match self.state {
            LinkState::Connecting { secured, .. } => secured,
            _ => false,
        };
        match result {
            Ok(()) => Reaction::Poll,
            Err(msg) => {
                self.state = LinkState::Searching;
                if secured && is_wifi_auth_error(msg.as_str()) {
                    self.password_error = Some(String::from_str(INCORRECT_PASSWORD));
                    Reaction::AskPassword { forget_profile: true }
                } else {
                    self.status = Some(msg);
                    Reaction::ShowNetworks
                }
            },
        }
    }

    /// The device was polled at `now_ms`. Within the connection timeout an
    /// association moves on to the internet check; past it the attempt fails:
    /// a secured network asks for the password again, naming the device state,
    /// an open one goes back to the network list.
    pub fn polled(&mut self, associated: bool, device_state: String, now_ms: u64) -> (r: Reaction)
        requires
            old(self).state is Connecting,
        ensures
            (final(self)@, r) == poll_step(old(self)@, associated, device_state@, now_ms),
    {
        let (started, secured) = match self.state {
            LinkState::Connecting { started_ms, secured } => (started_ms, secured),
            _ => (now_ms, false),
        };
        if elapsed_ms(started, now_ms) >= CONNECT_TIMEOUT_MS {
            self.state = LinkState::Searching;
            if secured {
                let mut msg = String::from_str("Connection failed (state: ");
                msg.append(device_state.as_str());
                msg.append("). Please try again.");
                self.password_error = Some(msg);
                Reaction::AskPassword { forget_profile: false }
            } else {
                self.status = Some(String::from_str(OPEN_CONNECT_FAILED));
                Reaction::ShowNetworks
            }
        } else if associated {
            self.state = LinkState::Stabilizing { connected_ms: now_ms };
            self.last_connect_ms = Some(now_ms);
            Reaction::CheckInternet
        } else {
            Reaction::Poll
        }
    }

    /// Internet access was checked after an association. Where it works the
    /// label becomes the active connection's name, or the network's name.
    pub fn internet_checked(&mut self, ready: bool, active: Option<String>, ssid: &str) -> (r:
        Reaction)
        requires
            old(self).state is Stabilizing,
        ensures
            r == Reaction::ShowNetworks,
            final(self)@ == internet_step(old(self)@, ready, opt_text(active), ssid@),
    {
        if ready {
            self.state = LinkState::Ready;
            self.status = None;
            self.label = match active {
                Some(a) => Some(a),
                None => Some(String::from_str(ssid)),
            };
        } else {
            self.status = Some(String::from_str(NO_INTERNET));
        }
        Reaction::ShowNetworks
    }

    /// The user asked to go on: only with internet access, under the
    /// connection's label.
    pub fn continue_label(&self, internet_ready: bool) -> (r: Option<String>)
        ensures
            opt_text(r) == if internet_ready {
                Some(
                    match self@.label {
                        Some(l) => l,
                        None => CONNECTED_LABEL@,
                    },
                )
            } else {
                None
            },
    {
        if !internet_ready {
            return None;
        }
        match &self.label {
            Some(l) => Some(l.clone()),
            None => Some(String::from_str(CONNECTED_LABEL)),
        }
    }
}

/// With the right password: the request succeeds, the device associates
/// before the connection timeout, and internet access works, so the screen
/// reaches internet access under the connection's name. With a wrong one: a
/// refusal that names an authentication failure keeps the user on the
/// network screen, removes the tried profile, and asks for the password again.
pub proof fn lemma_wifi_connect(
    c: ConnectorView,
    started: u64,
    polled_at: u64,
    device_state: Seq<char>,
    active: Option<Seq<char>>,
    ssid: Seq<char>,
    refusal: String,
)
    requires
        started <= polled_at,
        polled_at - started < CONNECT_TIMEOUT_MS,
        auth_keyword_in(lower_of(refusal@)),
    ensures
        ({
            let attempt = ConnectorView {
                state: LinkState::Connecting { started_ms: started, secured: true },
                ..c
            };
            let (c1, r1) = connect_step(attempt, Ok(()));
            let (c2, r2) = poll_step(c1, true, device_state, polled_at);
            let c3 = internet_step(c2, true, active, ssid);
            &&& r1 == Reaction::Poll
            &&& r2 == Reaction::CheckInternet
            &&& c3.state == LinkState::Ready
            &&& c3.label == Some(
                match active {
                    Some(a) => a,
                    None => ssid,
                },
            )
        }),
        ({
            let attempt = ConnectorView {
                state: LinkState::Connecting { started_ms: started, secured: true },
                ..c
            };
            let (c1, r1) = connect_step(attempt, Err(refusal));
            &&& r1 == (Reaction::AskPassword { forget_profile: true })
            &&& c1.password_error == Some(INCORRECT_PASSWORD@)
            &&& c1.state == LinkState::Searching
        }),
{
}

/// The label kept when the network step finds the connection ready on
/// entry: the one already known, else the active connection's name, else a
/// generic one.
pub fn entry_label(current: &Option<String>, active: Option<String>) -> (r: String)
    ensures
        r@ == match opt_text(*current) {
            Some(c) => c,
            None => match active {
                Some(a) => a@,
                None => CONNECTED_LABEL@,
            },
        },
{
    match copy_opt_text(current) {
        Some(c) => c,
        None => match active {
            Some(a) => a,
            None => String::from_str(CONNECTED_LABEL),
        },
    }
}

} // verus!
