use kwimy::network::{
    entry_label, network_entry, Connector, LinkState, NetworkEntry, Reaction, INCORRECT_PASSWORD,
    NO_INTERNET, OPEN_CONNECT_FAILED,
};

#[test]
fn entry_decisions() {
    assert_eq!(network_entry(false, true, true), NetworkEntry::Proceed);
    assert_eq!(network_entry(false, false, true), NetworkEntry::Proceed);
    assert_eq!(network_entry(true, false, true), NetworkEntry::Proceed);
    assert_eq!(network_entry(true, true, true), NetworkEntry::Edit);
    assert_eq!(network_entry(false, true, false), NetworkEntry::Edit);
    assert_eq!(network_entry(false, false, false), NetworkEntry::DeviceRequired);
}

#[test]
fn correct_password_reaches_internet() {
    let mut c = Connector::new(None);
    c.begin_attempt(true, 1_000);
    assert_eq!(c.connect_returned(Ok(())), Reaction::Poll);
    assert_eq!(c.polled(false, "connecting".to_string(), 1_200), Reaction::Poll);
    assert_eq!(c.polled(true, "connected".to_string(), 1_400), Reaction::CheckInternet);
    assert_eq!(c.state, LinkState::Stabilizing { connected_ms: 1_400 });
    assert_eq!(c.last_connect_ms, Some(1_400));
    assert_eq!(c.internet_checked(true, None, "home"), Reaction::ShowNetworks);
    assert_eq!(c.state, LinkState::Ready);
    assert_eq!(c.label.as_deref(), Some("home"));
    assert!(c.status.is_none());
    assert_eq!(c.continue_label(true).as_deref(), Some("home"));
}

#[test]
fn wrong_password_asks_again_after_forgetting() {
    let mut c = Connector::new(None);
    c.begin_attempt(true, 0);
    let r = c.connect_returned(Err("Secrets were required, but not provided".to_string()));
    assert_eq!(r, Reaction::AskPassword { forget_profile: true });
    assert_eq!(c.password_error.as_deref(), Some(INCORRECT_PASSWORD));
    assert_eq!(c.state, LinkState::Searching);
    assert!(c.status.is_none());
}

#[test]
fn other_refusal_shows_status() {
    let mut c = Connector::new(None);
    c.begin_attempt(true, 0);
    let r = c.connect_returned(Err("No network with SSID found".to_string()));
    assert_eq!(r, Reaction::ShowNetworks);
    assert_eq!(c.status.as_deref(), Some("No network with SSID found"));
    assert!(c.password_error.is_none());
}

#[test]
fn open_network_auth_words_are_not_password_errors() {
    let mut c = Connector::new(None);
    c.begin_attempt(false, 0);
    let r = c.connect_returned(Err("auth timeout".to_string()));
    assert_eq!(r, Reaction::ShowNetworks);
}

#[test]
fn timeout_on_secured_network() {
    let mut c = Connector::new(None);
    c.begin_attempt(true, 0);
    assert_eq!(c.polled(false, "config".to_string(), 7_999), Reaction::Poll);
    let r = c.polled(true, "config".to_string(), 8_000);
    assert_eq!(r, Reaction::AskPassword { forget_profile: false });
    assert_eq!(
        c.password_error.as_deref(),
        Some("Connection failed (state: config). Please try again.")
    );
}

#[test]
fn timeout_on_open_network() {
    let mut c = Connector::new(None);
    c.begin_attempt(false, 100);
    assert_eq!(c.polled(false, "x".to_string(), 9_000), Reaction::ShowNetworks);
    assert_eq!(c.status.as_deref(), Some(OPEN_CONNECT_FAILED));
}

#[test]
fn no_internet_after_association() {
    let mut c = Connector::new(Some("old".to_string()));
    c.begin_attempt(false, 0);
    c.polled(true, "connected".to_string(), 10);
    c.internet_checked(false, Some("active".to_string()), "ssid");
    assert_eq!(c.status.as_deref(), Some(NO_INTERNET));
    assert_eq!(c.label.as_deref(), Some("old"));
    assert!(c.continue_label(false).is_none());
}

#[test]
fn grace_window_after_connect() {
    let mut c = Connector::new(None);
    c.begin_attempt(false, 0);
    c.polled(true, "connected".to_string(), 1_000);
    assert!(c.scanned(false, 5_999));
    assert_eq!(c.last_connect_ms, Some(1_000));
    assert!(!c.scanned(false, 6_000));
    assert_eq!(c.last_connect_ms, None);
    assert!(c.scanned(true, 7_000));
}

#[test]
fn labels_on_ready_connection() {
    let mut c = Connector::new(None);
    c.note_internet(true, None);
    assert_eq!(c.label.as_deref(), Some("Connected"));
    let mut c = Connector::new(None);
    c.note_internet(true, Some("wired".to_string()));
    assert_eq!(c.label.as_deref(), Some("wired"));
    c.note_internet(true, Some("other".to_string()));
    assert_eq!(c.label.as_deref(), Some("wired"));
    assert_eq!(entry_label(&Some("kept".to_string()), Some("a".to_string())), "kept");
    assert_eq!(entry_label(&None, Some("a".to_string())), "a");
    assert_eq!(entry_label(&None, None), "Connected");
    let mut c = Connector::new(None);
    c.status = Some("x".to_string());
    c.rescan();
    assert!(c.status.is_none());
}

#[test]
fn failed_scan_sets_status_only() {
    let mut c = Connector::new(Some("home".to_string()));
    c.scan_failed("nmcli not found".to_string());
    assert_eq!(c.status.as_deref(), Some("nmcli not found"));
    assert_eq!(c.state, LinkState::Searching);
    assert_eq!(c.label.as_deref(), Some("home"));
}
