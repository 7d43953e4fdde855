//! The wizard controller: for each step, what the user's answer does to the
//! session and which step comes next.
use vstd::prelude::*;
use crate::disk::DiskInfo;
use crate::events::opt_text;
use crate::model::text_lines;
use crate::session::{
    disk_view, initial_session, AppFlags, AppFlagsView, SessionState, SessionView, DEFAULT_HOSTNAME,
    DEFAULT_KEYMAP,
};
use crate::network::{entry_of, NetworkEntry};
use crate::steps::{summary_index, SetupStep};
use crate::text::{trim, trim_of};
use crate::validation::{hostname_ok, username_ok, utc_variant, is_utc_variant, valid_hostname,
    valid_username};

verus! {

#[derive(Clone, Copy, Debug, PartialEq, Eq, Structural)]
pub enum StepOutcome {
    Next(SetupStep),
    Quit,
    Finish,
}

/// An answer to a step that picks one entry of a list.
#[derive(Debug)]
pub enum ListChoice {
    Pick(usize),
    Back,
    Quit,
}

/// An answer to a yes-or-no step.
#[derive(Clone, Copy, Debug, PartialEq, Eq, Structural)]
pub enum Confirm {
    Yes,
    No,
    Back,
    Quit,
}

/// An answer to a step that asks for one line of text.
#[derive(Debug)]
pub enum TextEntry {
    Submit(String),
    Back,
    Quit,
}

/// An answer to a step that asks for a secret twice. `Entered` holds the
/// first entry and the answer to the confirmation prompt; when the first entry
/// is empty the confirmation is never asked and its answer is ignored.
#[derive(Debug)]
pub enum SecretEntry {
    Entered(String, TextEntry),
    Back,
    Quit,
}

/// An answer to the proprietary-driver step.
#[derive(Debug)]
pub enum DriverInput {
    /// A driver variant, by its label.
    Select(String),
    Skip,
    /// Back to the network step; `wifi_present` tells whether a wireless
    /// device exists, in which case the network screen is shown again.
    Back { wifi_present: bool },
    Quit,
}

/// What the network step came to.
#[derive(Debug)]
pub enum NetworkInput {
    /// The development switch that skips the network step is set.
    Skipped,
    /// Internet access is ready; the label names the connection.
    Proceed(String),
    /// No wireless device: the user asked to look again.
    Retry,
    Quit,
}

#[derive(Debug)]
pub enum AppsInput {
    Submit(AppFlags),
    Back,
    Quit,
}

#[derive(Clone, Copy, Debug, PartialEq, Eq, Structural)]
pub enum ReviewAction {
    Confirm,
    Back,
    Edit,
    Quit,
}

/// The user's answer to the step on screen.
#[derive(Debug)]
pub enum StepInput {
    Network(NetworkInput),
    Drivers(DriverInput),
    Disk(ListChoice),
    ConfirmDisk(Confirm),
    Keymap(ListChoice),
    /// `detected` is the timezone that detection found, where detection ran.
    Timezone { detected: Option<String>, choice: ListChoice },
    Hostname(TextEntry),
    Username(TextEntry),
    UserPassword(SecretEntry),
    EncryptDisk(Confirm),
    LuksPassword(SecretEntry),
    Swap(Confirm),
    Applications(AppsInput),
    Review(ReviewAction),
}

/// What the wizard offers to choose from, loaded once at the start.
#[derive(Debug)]
pub struct WizardData {
    pub disks: Vec<DiskInfo>,
    pub keymaps: Vec<String>,
    pub timezones: Vec<String>,
}

/// The timezone offered when the list of timezones could not be loaded.
pub const FALLBACK_TIMEZONE: &'static str = "UTC";

/// The keyboard layouts offered: those loaded, or the preselected layout
/// alone where loading failed.
pub fn load_setup_keymaps(loaded: Option<Vec<String>>) -> (r: Vec<String>)
    ensures
        match loaded {
            Some(v) => r@ == v@,
            None => text_lines(r@) == seq![DEFAULT_KEYMAP@],
        },
{
    match loaded {
        Some(v) => v,
        None => {
            let r = vec![String::from_str(DEFAULT_KEYMAP)];
            assert(text_lines(r@) =~= seq![DEFAULT_KEYMAP@]);
            r
        },
    }
}

/// The timezones offered: those loaded, or UTC alone where loading failed.
pub fn load_setup_timezones(loaded: Option<Vec<String>>) -> (r: Vec<String>)
    ensures
        match loaded {
            Some(v) => r@ == v@,
            None => text_lines(r@) == seq![FALLBACK_TIMEZONE@],
        },
{
    match loaded {
        Some(v) => v,
        None => {
            let r = vec![String::from_str(FALLBACK_TIMEZONE)];
            assert(text_lines(r@) =~= seq![FALLBACK_TIMEZONE@]);
            r
        },
    }
}

/// The label shown when the development switch skipped the network step.
pub const SKIPPED_NETWORK_LABEL: &'static str = "Skipped (dev)";

pub open spec fn after_network(v: SessionView) -> SetupStep {
    if v.nvidia_detected {
        SetupStep::Drivers
    } else {
        SetupStep::Disk
    }
}

pub open spec fn network_transition(v: SessionView, input: NetworkInput) -> (SessionView, StepOutcome) {
    match input {
        NetworkInput::Skipped => (
            SessionView { network_label: Some(SKIPPED_NETWORK_LABEL@), ..v },
            StepOutcome::Next(after_network(v)),
        ),
        NetworkInput::Proceed(label) => (
            SessionView { network_label: Some(label@), force_network: false, ..v },
            StepOutcome::Next(after_network(v)),
        ),
        NetworkInput::Retry => (
            SessionView { force_network: false, ..v },
            StepOutcome::Next(SetupStep::Network),
        ),
        NetworkInput::Quit => (SessionView { force_network: false, ..v }, StepOutcome::Quit),
    }
}

pub open spec fn drivers_transition(v: SessionView, input: DriverInput) -> (SessionView, StepOutcome) {
    match input {
        DriverInput::Select(label) => (
            SessionView { driver_variant: Some(label@), ..v },
            StepOutcome::Next(SetupStep::Disk),
        ),
        DriverInput::Skip => (
            SessionView { driver_variant: None, ..v },
            StepOutcome::Next(SetupStep::Disk),
        ),
        DriverInput::Back { wifi_present } => (
            SessionView { force_network: wifi_present, ..v },
            StepOutcome::Next(SetupStep::Network),
        ),
        DriverInput::Quit => (v, StepOutcome::Quit),
    }
}

pub open spec fn disk_transition(v: SessionView, data: WizardData, input: ListChoice) -> (
    SessionView,
    StepOutcome,
) {
    match input {
        ListChoice::Pick(i) => (
            SessionView {
                selected_disk: if i < data.disks@.len() {
                    Some(disk_view(data.disks@[i as int]))
                } else {
                    None
                },
                ..v
            },
            StepOutcome::Next(SetupStep::ConfirmDisk),
        ),
        ListChoice::Back => if v.nvidia_detected {
            (v, StepOutcome::Next(SetupStep::Drivers))
        } else {
            (SessionView { force_network: true, ..v }, StepOutcome::Next(SetupStep::Network))
        },
        ListChoice::Quit => (v, StepOutcome::Quit),
    }
}

pub open spec fn confirm_disk_transition(v: SessionView, input: Confirm) -> (SessionView, StepOutcome) {
    if v.selected_disk is None {
        (v, StepOutcome::Next(SetupStep::Disk))
    } else {
        match input {
            Confirm::Yes => (v, StepOutcome::Next(SetupStep::Keymap)),
            Confirm::No | Confirm::Back => (v, StepOutcome::Next(SetupStep::Disk)),
            Confirm::Quit => (v, StepOutcome::Quit),
        }
    }
}

pub open spec fn keymap_transition(v: SessionView, data: WizardData, input: ListChoice) -> (
    SessionView,
    StepOutcome,
) {
    match input {
        ListChoice::Pick(i) => (
            if i < data.keymaps@.len() {
                SessionView { keymap: data.keymaps@[i as int]@, ..v }
            } else {
                v
            },
            StepOutcome::Next(SetupStep::Timezone),
        ),
        ListChoice::Back => (v, StepOutcome::Next(SetupStep::ConfirmDisk)),
        ListChoice::Quit => (v, StepOutcome::Quit),
    }
}

/// The timezone is looked up anew when none is set or it is plain UTC.
pub open spec fn timezone_wanted(tz: Seq<char>) -> bool {
    tz.len() == 0 || utc_variant(tz)
}

pub open spec fn timezone_transition(
    v: SessionView,
    data: WizardData,
    detected: Option<String>,
    choice: ListChoice,
) -> (SessionView, StepOutcome) {
    let tz = if timezone_wanted(v.timezone) && detected is Some {
        detected->0@
    } else {
        v.timezone
    };
    let w = SessionView { timezone: tz, ..v };
    match choice {
        ListChoice::Pick(i) => (
            if i < data.timezones@.len() {
                SessionView { timezone: data.timezones@[i as int]@, ..v }
            } else {
                w
            },
            StepOutcome::Next(SetupStep::Hostname),
        ),
        ListChoice::Back => (w, StepOutcome::Next(SetupStep::Keymap)),
        ListChoice::Quit => (w, StepOutcome::Quit),
    }
}

pub open spec fn hostname_transition(v: SessionView, input: TextEntry) -> (SessionView, StepOutcome) {
    match input {
        TextEntry::Submit(value) => {
            let t = trim_of(value@);
            if t.len() == 0 {
                (
                    SessionView { hostname: DEFAULT_HOSTNAME@, ..v },
                    StepOutcome::Next(SetupStep::Username),
                )
            } else if hostname_ok(t) {
                (SessionView { hostname: t, ..v }, StepOutcome::Next(SetupStep::Username))
            } else {
                (v, StepOutcome::Next(SetupStep::Hostname))
            }
        },
        TextEntry::Back => (v, StepOutcome::Next(SetupStep::Timezone)),
        TextEntry::Quit => (v, StepOutcome::Quit),
    }
}

pub open spec fn username_transition(v: SessionView, input: TextEntry) -> (SessionView, StepOutcome) {
    match input {
        TextEntry::Submit(value) => {
            let t = trim_of(value@);
            if username_ok(t) {
                (SessionView { username: t, ..v }, StepOutcome::Next(SetupStep::UserPassword))
            } else {
                (v, StepOutcome::Next(SetupStep::Username))
            }
        },
        TextEntry::Back => (v, StepOutcome::Next(SetupStep::Hostname)),
        TextEntry::Quit => (v, StepOutcome::Quit),
    }
}

/// Where a secret entered twice leads: the accepted secret, if any, and the
/// next step. An empty entry, a confirmation that differs, or going back from
/// the confirmation all ask again.
pub open spec fn secret_result(input: SecretEntry, here: SetupStep, before: SetupStep, after: SetupStep) -> (
    Option<Seq<char>>,
    StepOutcome,
) {
    match input {
        SecretEntry::Entered(value, confirm) => if value@.len() == 0 {
            (None, StepOutcome::Next(here))
        } else {
            match confirm {
                TextEntry::Submit(again) => if again@ == value@ {
                    (Some(value@), StepOutcome::Next(after))
                } else {
                    (None, StepOutcome::Next(here))
                },
                TextEntry::Back => (None, StepOutcome::Next(here)),
                TextEntry::Quit => (None, StepOutcome::Quit),
            }
        },
        SecretEntry::Back => (None, StepOutcome::Next(before)),
        SecretEntry::Quit => (None, StepOutcome::Quit),
    }
}

pub open spec fn user_password_transition(v: SessionView, input: SecretEntry) -> (
    SessionView,
    StepOutcome,
) {
    let (accepted, out) = secret_result(
        input,
        SetupStep::UserPassword,
        SetupStep::Username,
        SetupStep::EncryptDisk,
    );
    match accepted {
        Some(p) => (SessionView { user_password: p, ..v }, out),
        None => (v, out),
    }
}

pub open spec fn encrypt_disk_transition(v: SessionView, input: Confirm) -> (SessionView, StepOutcome) {
    match input {
        Confirm::Yes => (
            SessionView { encrypt_disk: true, ..v },
            StepOutcome::Next(SetupStep::LuksPassword),
        ),
        Confirm::No => (
            SessionView { encrypt_disk: false, luks_password: Seq::empty(), ..v },
            StepOutcome::Next(SetupStep::Swap),
        ),
        Confirm::Back => (v, StepOutcome::Next(SetupStep::UserPassword)),
        Confirm::Quit => (v, StepOutcome::Quit),
    }
}

pub open spec fn luks_password_transition(v: SessionView, input: SecretEntry) -> (
    SessionView,
    StepOutcome,
) {
    let (accepted, out) = secret_result(
        input,
        SetupStep::LuksPassword,
        SetupStep::EncryptDisk,
        SetupStep::Swap,
    );
    match accepted {
        Some(p) => (SessionView { luks_password: p, ..v }, out),
        None => (v, out),
    }
}

pub open spec fn swap_transition(v: SessionView, input: Confirm) -> (SessionView, StepOutcome) {
    match input {
        Confirm::Yes => (
            SessionView { swap_enabled: true, ..v },
            StepOutcome::Next(SetupStep::Applications),
        ),
        Confirm::No => (
            SessionView { swap_enabled: false, ..v },
            StepOutcome::Next(SetupStep::Applications),
        ),
        Confirm::Back => if v.encrypt_disk {
            (v, StepOutcome::Next(SetupStep::LuksPassword))
        } else {
            (v, StepOutcome::Next(SetupStep::EncryptDisk))
        },
        Confirm::Quit => (v, StepOutcome::Quit),
    }
}

pub open spec fn applications_transition(v: SessionView, input: AppsInput) -> (
    SessionView,
    StepOutcome,
) {
    match input {
        AppsInput::Submit(flags) => (
            SessionView { app_flags: flags@, ..v },
            StepOutcome::Next(SetupStep::Review),
        ),
        AppsInput::Back => (v, StepOutcome::Next(SetupStep::Swap)),
        AppsInput::Quit => (v, StepOutcome::Quit),
    }
}

pub open spec fn review_transition(v: SessionView, input: ReviewAction) -> (SessionView, StepOutcome) {
    if v.selected_disk is None {
        (v, StepOutcome::Next(SetupStep::Disk))
    } else {
        match input {
            ReviewAction::Confirm => (v, StepOutcome::Finish),
            ReviewAction::Back => (v, StepOutcome::Next(SetupStep::Applications)),
            ReviewAction::Edit => (v, StepOutcome::Next(SetupStep::Network)),
            ReviewAction::Quit => (v, StepOutcome::Quit),
        }
    }
}

/// One step of the wizard: the session after the answer, and what follows.
/// An answer that belongs to another step leaves the session as it is and
/// shows the same step again.
pub open spec fn transition(v: SessionView, data: WizardData, step: SetupStep, input: StepInput) -> (
    SessionView,
    StepOutcome,
) {
    match (step, input) {
        (SetupStep::Network, StepInput::Network(i)) => network_transition(v, i),
        (SetupStep::Drivers, StepInput::Drivers(i)) => drivers_transition(v, i),
        (SetupStep::Disk, StepInput::Disk(i)) => disk_transition(v, data, i),
        (SetupStep::ConfirmDisk, StepInput::ConfirmDisk(i)) => confirm_disk_transition(v, i),
        (SetupStep::Keymap, StepInput::Keymap(i)) => keymap_transition(v, data, i),
        (SetupStep::Timezone, StepInput::Timezone { detected, choice }) => timezone_transition(
            v,
            data,
            detected,
            choice,
        ),
        (SetupStep::Hostname, StepInput::Hostname(i)) => hostname_transition(v, i),
        (SetupStep::Username, StepInput::Username(i)) => username_transition(v, i),
        (SetupStep::UserPassword, StepInput::UserPassword(i)) => user_password_transition(v, i),
        (SetupStep::EncryptDisk, StepInput::EncryptDisk(i)) => encrypt_disk_transition(v, i),
        (SetupStep::LuksPassword, StepInput::LuksPassword(i)) => luks_password_transition(v, i),
        (SetupStep::Swap, StepInput::Swap(i)) => swap_transition(v, i),
        (SetupStep::Applications, StepInput::Applications(i)) => applications_transition(v, i),
        (SetupStep::Review, StepInput::Review(i)) => review_transition(v, i),
        _ => (v, StepOutcome::Next(step)),
    }
}

pub fn handle_network_step(s: &mut SessionState, input: NetworkInput) -> (out: StepOutcome)
    ensures
        (final(s)@, out) == network_transition(old(s)@, input),
{
    let next = if s.nvidia_detected {
        SetupStep::Drivers
    } else {
        SetupStep::Disk
    };
    match input {
        NetworkInput::Skipped => {
            s.network_label = Some(String::from_str(SKIPPED_NETWORK_LABEL));
            StepOutcome::Next(next)
        },
        NetworkInput::Proceed(label) => {
            s.force_network = false;
            s.network_label = Some(label);
            StepOutcome::Next(next)
        },
        NetworkInput::Retry => {
            s.force_network = false;
            StepOutcome::Next(SetupStep::Network)
        },
        NetworkInput::Quit => {
            s.force_network = false;
            StepOutcome::Quit
        },
    }
}

pub fn handle_drivers_step(s: &mut SessionState, input: DriverInput) -> (out: StepOutcome)
    ensures
        (final(s)@, out) == drivers_transition(old(s)@, input),
{
    match input {
        DriverInput::Select(label) => {
            s.driver_variant = Some(label);
            StepOutcome::Next(SetupStep::Disk)
        },
        DriverInput::Skip => {
            s.driver_variant = None;
            StepOutcome::Next(SetupStep::Disk)
        },
        DriverInput::Back { wifi_present } => {
            s.force_network = wifi_present;
            StepOutcome::Next(SetupStep::Network)
        },
        DriverInput::Quit => StepOutcome::Quit,
    }
}

pub fn handle_disk_step(s: &mut SessionState, data: &WizardData, input: ListChoice) -> (out:
    StepOutcome)
    ensures
        (final(s)@, out) == disk_transition(old(s)@, *data, input),
{
    match input {
        ListChoice::Pick(i) => {
            if i < data.disks.len() {
                s.selected_disk = Some(data.disks[i].duplicate());
            } else {
                s.selected_disk = None;
            }
            StepOutcome::Next(SetupStep::ConfirmDisk)
        },
        ListChoice::Back => {
            if s.nvidia_detected {
                StepOutcome::Next(SetupStep::Drivers)
            } else {
                s.force_network = true;
                StepOutcome::Next(SetupStep::Network)
            }
        },
        ListChoice::Quit => StepOutcome::Quit,
    }
}

pub fn handle_confirm_disk_step(s: &mut SessionState, input: Confirm) -> (out: StepOutcome)
    ensures
        (final(s)@, out) == confirm_disk_transition(old(s)@, input),
{
    if s.selected_disk.is_none() {
        return StepOutcome::Next(SetupStep::Disk);
    }
    match input {
        Confirm::Yes => StepOutcome::Next(SetupStep::Keymap),
        Confirm::No | Confirm::Back => StepOutcome::Next(SetupStep::Disk),
        Confirm::Quit => StepOutcome::Quit,
    }
}

pub fn handle_keymap_step(s: &mut SessionState, data: &WizardData, input: ListChoice) -> (out:
    StepOutcome)
    ensures
        (final(s)@, out) == keymap_transition(old(s)@, *data, input),
{
    match input {
        ListChoice::Pick(i) => {
            if i < data.keymaps.len() {
                s.keymap = data.keymaps[i].clone();
            }
            StepOutcome::Next(SetupStep::Timezone)
        },
        ListChoice::Back => StepOutcome::Next(SetupStep::ConfirmDisk),
        ListChoice::Quit => StepOutcome::Quit,
    }
}

/// Whether the timezone step should first look the timezone up: none is set
/// yet, or it is plain UTC.
pub fn wants_timezone_detection(timezone: &str) -> (r: bool)
    ensures
        r == timezone_wanted(timezone@),
{
    timezone.unicode_len() == 0 || is_utc_variant(timezone)
}

pub fn handle_timezone_step(
    s: &mut SessionState,
    data: &WizardData,
    detected: Option<String>,
    choice: ListChoice,
) -> (out: StepOutcome)
    ensures
        (final(s)@, out) == timezone_transition(old(s)@, *data, detected, choice),
{
    if wants_timezone_detection(s.timezone.as_str()) {
        match detected {
            Some(tz) => {
                s.timezone = tz;
            },
            None => {},
        }
    }
    match choice {
        ListChoice::Pick(i) => {
            if i < data.timezones.len() {
                s.timezone = data.timezones[i].clone();
            }
            StepOutcome::Next(SetupStep::Hostname)
        },
        ListChoice::Back => StepOutcome::Next(SetupStep::Keymap),
        ListChoice::Quit => StepOutcome::Quit,
    }
}

pub fn handle_hostname_step(s: &mut SessionState, input: TextEntry) -> (out: StepOutcome)
    ensures
        (final(s)@, out) == hostname_transition(old(s)@, input),
{
    match input {
        TextEntry::Submit(value) => {
            let t = trim(value.as_str());
            if t.as_str().unicode_len() == 0 {
                s.hostname = String::from_str(DEFAULT_HOSTNAME);
                StepOutcome::Next(SetupStep::Username)
            } else if valid_hostname(t.as_str()) {
                s.hostname = t;
                StepOutcome::Next(SetupStep::Username)
            } else {
                StepOutcome::Next(SetupStep::Hostname)
            }
        },
        TextEntry::Back => StepOutcome::Next(SetupStep::Timezone),
        TextEntry::Quit => StepOutcome::Quit,
    }
}

pub fn handle_username_step(s: &mut SessionState, input: TextEntry) -> (out: StepOutcome)
    ensures
        (final(s)@, out) == username_transition(old(s)@, input),
{
    match input {
        TextEntry::Submit(value) => {
            let t = trim(value.as_str());
            if valid_username(t.as_str()) {
                s.username = t;
                StepOutcome::Next(SetupStep::UserPassword)
            } else {
                StepOutcome::Next(SetupStep::Username)
            }
        },
        TextEntry::Back => StepOutcome::Next(SetupStep::Hostname),
        TextEntry::Quit => StepOutcome::Quit,
    }
}

/// Whether a password or passphrase was given: an empty entry is asked for
/// again at once, before any confirmation or connection attempt.
pub fn entry_given(first: &str) -> (r: bool)
    ensures
        r == (first@.len() > 0),
{
    first.unicode_len() > 0
}

fn accept_secret(input: SecretEntry, here: SetupStep, before: SetupStep, after: SetupStep) -> (r: (
    Option<String>,
    StepOutcome,
))
    ensures
        (opt_text(r.0), r.1) == secret_result(input, here, before, after),
{
    match input {
        SecretEntry::Entered(value, confirm) => {
            if value.as_str().unicode_len() == 0 {
                return (None, StepOutcome::Next(here));
            }
            match confirm {
                TextEntry::Submit(again) => {
                    if again == value {
                        (Some(value), StepOutcome::Next(after))
                    } else {
                        (None, StepOutcome::Next(here))
                    }
                },
                TextEntry::Back => (None, StepOutcome::Next(here)),
                TextEntry::Quit => (None, StepOutcome::Quit),
            }
        },
        SecretEntry::Back => (None, StepOutcome::Next(before)),
        SecretEntry::Quit => (None, StepOutcome::Quit),
    }
}

pub fn handle_user_password_step(s: &mut SessionState, input: SecretEntry) -> (out: StepOutcome)
    ensures
        (final(s)@, out) == user_password_transition(old(s)@, input),
{
    let (accepted, out) = accept_secret(
        input,
        SetupStep::UserPassword,
        SetupStep::Username,
        SetupStep::EncryptDisk,
    );
    match accepted {
        Some(p) => {
            s.user_password = p;
        },
        None => {},
    }
    out
}

pub fn handle_encrypt_disk_step(s: &mut SessionState, input: Confirm) -> (out: StepOutcome)
    ensures
        (final(s)@, out) == encrypt_disk_transition(old(s)@, input),
{
    match input {
        Confirm::Yes => {
            s.encrypt_disk = true;
            StepOutcome::Next(SetupStep::LuksPassword)
        },
        Confirm::No => {
            s.encrypt_disk = false;
            s.luks_password = String::new();
            StepOutcome::Next(SetupStep::Swap)
        },
        Confirm::Back => StepOutcome::Next(SetupStep::UserPassword),
        Confirm::Quit => StepOutcome::Quit,
    }
}

pub fn handle_luks_password_step(s: &mut SessionState, input: SecretEntry) -> (out: StepOutcome)
    ensures
        (final(s)@, out) == luks_password_transition(old(s)@, input),
{
    let (accepted, out) = accept_secret(
        input,
        SetupStep::LuksPassword,
        SetupStep::EncryptDisk,
        SetupStep::Swap,
    );
    match accepted {
        Some(p) => {
            s.luks_password = p;
        },
        None => {},
    }
    out
}

pub fn handle_swap_step(s: &mut SessionState, input: Confirm) -> (out: StepOutcome)
    ensures
        (final(s)@, out) == swap_transition(old(s)@, input),
{
    match input {
        Confirm::Yes => {
            s.swap_enabled = true;
            StepOutcome::Next(SetupStep::Applications)
        },
        Confirm::No => {
            s.swap_enabled = false;
            StepOutcome::Next(SetupStep::Applications)
        },
        Confirm::Back => {
            if s.encrypt_disk {
                StepOutcome::Next(SetupStep::LuksPassword)
            } else {
                StepOutcome::Next(SetupStep::EncryptDisk)
            }
        },
        Confirm::Quit => StepOutcome::Quit,
    }
}

pub fn handle_applications_step(s: &mut SessionState, input: AppsInput) -> (out: StepOutcome)
    ensures
        (final(s)@, out) == applications_transition(old(s)@, input),
{
    match input {
        AppsInput::Submit(flags) => {
            s.app_flags = flags;
            StepOutcome::Next(SetupStep::Review)
        },
        AppsInput::Back => StepOutcome::Next(SetupStep::Swap),
        AppsInput::Quit => StepOutcome::Quit,
    }
}

pub fn handle_review_step(s: &mut SessionState, input: ReviewAction) -> (out: StepOutcome)
    ensures
        (final(s)@, out) == review_transition(old(s)@, input),
{
    if s.selected_disk.is_none() {
        return StepOutcome::Next(SetupStep::Disk);
    }
    match input {
        ReviewAction::Confirm => StepOutcome::Finish,
        ReviewAction::Back => StepOutcome::Next(SetupStep::Applications),
        ReviewAction::Edit => StepOutcome::Next(SetupStep::Network),
        ReviewAction::Quit => StepOutcome::Quit,
    }
}

/// Where a step cannot be shown with the session as it is, the step to show
/// instead: confirming the disk and the review both need a chosen disk.
pub fn redirect_of(s: &SessionState, step: SetupStep) -> (r: Option<SetupStep>)
    ensures
        r == (if (step == SetupStep::ConfirmDisk || step == SetupStep::Review)
            && s.selected_disk is None {
            Some(SetupStep::Disk)
        } else {
            None::<SetupStep>
        }),
{
    match step {
        SetupStep::ConfirmDisk | SetupStep::Review => {
            if s.selected_disk.is_none() {
                Some(SetupStep::Disk)
            } else {
                None
            }
        },
        _ => None,
    }
}

/// Takes the user's answer to `step` and returns what follows.
pub fn run_step(s: &mut SessionState, data: &WizardData, step: SetupStep, input: StepInput) -> (out:
    StepOutcome)
    ensures
        (final(s)@, out) == transition(old(s)@, *data, step, input),
{
    match (step, input) {
        (SetupStep::Network, StepInput::Network(i)) => handle_network_step(s, i),
        (SetupStep::Drivers, StepInput::Drivers(i)) => handle_drivers_step(s, i),
        (SetupStep::Disk, StepInput::Disk(i)) => handle_disk_step(s, data, i),
        (SetupStep::ConfirmDisk, StepInput::ConfirmDisk(i)) => handle_confirm_disk_step(s, i),
        (SetupStep::Keymap, StepInput::Keymap(i)) => handle_keymap_step(s, data, i),
        (SetupStep::Timezone, StepInput::Timezone { detected, choice }) => handle_timezone_step(
            s,
            data,
            detected,
            choice,
        ),
        (SetupStep::Hostname, StepInput::Hostname(i)) => handle_hostname_step(s, i),
        (SetupStep::Username, StepInput::Username(i)) => handle_username_step(s, i),
        (SetupStep::UserPassword, StepInput::UserPassword(i)) => handle_user_password_step(s, i),
        (SetupStep::EncryptDisk, StepInput::EncryptDisk(i)) => handle_encrypt_disk_step(s, i),
        (SetupStep::LuksPassword, StepInput::LuksPassword(i)) => handle_luks_password_step(s, i),
        (SetupStep::Swap, StepInput::Swap(i)) => handle_swap_step(s, i),
        (SetupStep::Applications, StepInput::Applications(i)) => handle_applications_step(s, i),
        (SetupStep::Review, StepInput::Review(i)) => handle_review_step(s, i),
        _ => StepOutcome::Next(step),
    }
}

/// The session and the outcome after the answers `inputs`, starting at
/// `step`: `Next` names the step on screen where the answers ran out.
pub open spec fn run_wizard(v: SessionView, data: WizardData, step: SetupStep, inputs: Seq<StepInput>) -> (
    SessionView,
    StepOutcome,
)
    decreases inputs.len(),
{
    if inputs.len() == 0 {
        (v, StepOutcome::Next(step))
    } else {
        let (w, out) = transition(v, data, step, inputs[0]);
        match out {
            StepOutcome::Next(next) => run_wizard(w, data, next, inputs.drop_first()),
            _ => (w, out),
        }
    }
}

/// The encryption passphrase is set exactly when the disk is to be encrypted.
pub open spec fn passphrase_matches(v: SessionView) -> bool {
    v.luks_password.len() == 0 <==> !v.encrypt_disk
}

/// What holds of the passphrase while the wizard runs: it is empty whenever
/// encryption is off; the passphrase step comes only with encryption on; and
/// from the swap step on it matches the choice of encryption.
pub open spec fn passphrase_invariant(v: SessionView, step: SetupStep) -> bool {
    &&& !v.encrypt_disk ==> v.luks_password.len() == 0
    &&& step == SetupStep::LuksPassword ==> v.encrypt_disk
    &&& (step == SetupStep::Swap || step == SetupStep::Applications || step == SetupStep::Review)
        ==> passphrase_matches(v)
}

proof fn lemma_transition_keeps_passphrase(
    v: SessionView,
    data: WizardData,
    step: SetupStep,
    input: StepInput,
)
    requires
        passphrase_invariant(v, step),
    ensures
        ({
            let (w, out) = transition(v, data, step, input);
            &&& out is Next ==> passphrase_invariant(w, out->Next_0)
            &&& out is Finish ==> passphrase_matches(w) && w.selected_disk is Some
        }),
{
}

proof fn lemma_run_keeps_passphrase(
    v: SessionView,
    data: WizardData,
    step: SetupStep,
    inputs: Seq<StepInput>,
)
    requires
        passphrase_invariant(v, step),
    ensures
        ({
            let (w, out) = run_wizard(v, data, step, inputs);
            &&& out is Next ==> passphrase_invariant(w, out->Next_0)
            &&& out is Finish ==> passphrase_matches(w) && w.selected_disk is Some
        }),
    decreases inputs.len(),
{
    if inputs.len() > 0 {
        lemma_transition_keeps_passphrase(v, data, step, inputs[0]);
        let (w, out) = transition(v, data, step, inputs[0]);
        if out is Next {
            lemma_run_keeps_passphrase(w, data, out->Next_0, inputs.drop_first());
        }
    }
}

/// Whatever the user answers, a wizard that finishes has chosen a disk, and
/// holds an encryption passphrase exactly when the disk is to be encrypted.
pub proof fn lemma_finished_passphrase(
    nvidia_detected: bool,
    timezone: Seq<char>,
    flags: AppFlagsView,
    data: WizardData,
    inputs: Seq<StepInput>,
)
    ensures
        ({
            let (w, out) = run_wizard(
                initial_session(nvidia_detected, timezone, flags),
                data,
                SetupStep::Network,
                inputs,
            );
            out is Finish ==> passphrase_matches(w) && w.selected_disk is Some
        }),
{
    lemma_run_keeps_passphrase(
        initial_session(nvidia_detected, timezone, flags),
        data,
        SetupStep::Network,
        inputs,
    );
}

/// Going back from the disk step leads to the driver step when an Nvidia GPU
/// was found, else to the network step; in that case the network step, with
/// a wireless device present, shows the network screen even where the
/// connection looks ready.
pub proof fn lemma_back_from_disk(v: SessionView, data: WizardData, internet_ready: bool)
    ensures
        ({
            let (w, out) = transition(v, data, SetupStep::Disk, StepInput::Disk(ListChoice::Back));
            &&& v.nvidia_detected ==> out == StepOutcome::Next(SetupStep::Drivers)
            &&& !v.nvidia_detected ==> {
                &&& out == StepOutcome::Next(SetupStep::Network)
                &&& entry_of(w.force_network, true, internet_ready) == NetworkEntry::Edit
            }
        }),
{
}

/// The driver step is reached from another step only when an Nvidia GPU was
/// found, which is when the progress indicator has an entry for it, between
/// the network entry and the disk entry.
pub proof fn lemma_drivers_step_guarded(v: SessionView, data: WizardData, step: SetupStep, input: StepInput)
    ensures
        ({
            let (w, out) = transition(v, data, step, input);
            step != SetupStep::Drivers && out == StepOutcome::Next(SetupStep::Drivers)
                ==> w.nvidia_detected && summary_index(SetupStep::Network, true) < summary_index(
                SetupStep::Drivers,
                true,
            ) < summary_index(SetupStep::Disk, true)
        }),
        v.nvidia_detected == transition(v, data, step, input).0.nvidia_detected,
{
}

/// A review reached without a chosen disk sends the user to the disk step
/// and changes nothing, whatever the answer.
pub proof fn lemma_review_needs_disk(v: SessionView, data: WizardData, answer: ReviewAction)
    requires
        v.selected_disk is None,
    ensures
        transition(v, data, SetupStep::Review, StepInput::Review(answer)) == (v, StepOutcome::Next(
            SetupStep::Disk,
        )),
{
}

} // verus!
