//! The answers that the wizard collects, and their mathematical view.
use vstd::prelude::*;
use crate::disk::DiskInfo;
use crate::events::opt_text;

verus! {

/// Which applications the user picked, one flag per offered choice of each kind.
#[derive(Debug)]
pub struct AppFlags {
    pub compositors: Vec<bool>,
    pub browsers: Vec<bool>,
    pub editors: Vec<bool>,
    pub terminals: Vec<bool>,
}

pub struct AppFlagsView {
    pub compositors: Seq<bool>,
    pub browsers: Seq<bool>,
    pub editors: Seq<bool>,
    pub terminals: Seq<bool>,
}

impl View for AppFlags {
    type V = AppFlagsView;

    open spec fn view(&self) -> AppFlagsView {
        AppFlagsView {
            compositors: self.compositors@,
            browsers: self.browsers@,
            editors: self.editors@,
            terminals: self.terminals@,
        }
    }
}

pub fn no_flags(n: usize) -> (r: Vec<bool>)
    ensures
        r@ == Seq::new(n as nat, |i: int| false),
{
    let mut out: Vec<bool> = Vec::new();
    let mut i: usize = 0;
    while i < n
        invariant
            i <= n,
            out@ == Seq::new(i as nat, |j: int| false),
        decreases n - i,
    {
        out.push(false);
        i = i + 1;
        assert(out@ =~= Seq::new(i as nat, |j: int| false));
    }
    out
}

/// Every answer of the wizard, from the first step to the review.
#[derive(Debug)]
pub struct SessionState {
    pub selected_disk: Option<DiskInfo>,
    pub keymap: String,
    pub timezone: String,
    pub hostname: String,
    pub username: String,
    pub user_password: String,
    pub luks_password: String,
    pub encrypt_disk: bool,
    pub swap_enabled: bool,
    /// An Nvidia GPU was found when the wizard started: the driver step is offered.
    pub nvidia_detected: bool,
    /// The proprietary driver variant chosen, by its label.
    pub driver_variant: Option<String>,
    /// What the summary shows of the network connection.
    pub network_label: Option<String>,
    /// The next network step shows the network screen even where the
    /// connection already looks ready.
    pub force_network: bool,
    pub app_flags: AppFlags,
}

pub struct DiskView {
    pub name: Seq<char>,
    pub size: Seq<char>,
    pub model: Seq<char>,
}

pub open spec fn disk_view(d: DiskInfo) -> DiskView {
    DiskView { name: d.name@, size: d.size@, model: d.model@ }
}

pub open spec fn opt_disk_view(d: Option<DiskInfo>) -> Option<DiskView> {
    match d {
        Some(x) => Some(disk_view(x)),
        None => None,
    }
}

pub struct SessionView {
    pub selected_disk: Option<DiskView>,
    pub keymap: Seq<char>,
    pub timezone: Seq<char>,
    pub hostname: Seq<char>,
    pub username: Seq<char>,
    pub user_password: Seq<char>,
    pub luks_password: Seq<char>,
    pub encrypt_disk: bool,
    pub swap_enabled: bool,
    pub nvidia_detected: bool,
    pub driver_variant: Option<Seq<char>>,
    pub network_label: Option<Seq<char>>,
    pub force_network: bool,
    pub app_flags: AppFlagsView,
}

impl View for SessionState {
    type V = SessionView;

    open spec fn view(&self) -> SessionView {
        SessionView {
            selected_disk: opt_disk_view(self.selected_disk),
            keymap: self.keymap@,
            timezone: self.timezone@,
            hostname: self.hostname@,
            username: self.username@,
            user_password: self.user_password@,
            luks_password: self.luks_password@,
            encrypt_disk: self.encrypt_disk,
            swap_enabled: self.swap_enabled,
            nvidia_detected: self.nvidia_detected,
            driver_variant: opt_text(self.driver_variant),
            network_label: opt_text(self.network_label),
            force_network: self.force_network,
            app_flags: self.app_flags@,
        }
    }
}

/// The host name used when the user leaves it empty.
pub const DEFAULT_HOSTNAME: &'static str = "kwimy";

/// The keyboard layout preselected at the start.
pub const DEFAULT_KEYMAP: &'static str = "us";

/// The session at the start of the wizard.
pub open spec fn initial_session(
    nvidia_detected: bool,
    timezone: Seq<char>,
    flags: AppFlagsView,
) -> SessionView {
    SessionView {
        selected_disk: None,
        keymap: DEFAULT_KEYMAP@,
        timezone,
        hostname: DEFAULT_HOSTNAME@,
        username: Seq::empty(),
        user_password: Seq::empty(),
        luks_password: Seq::empty(),
        encrypt_disk: true,
        swap_enabled: true,
        nvidia_detected,
        driver_variant: None,
        network_label: None,
        force_network: false,
        app_flags: flags,
    }
}

impl SessionState {
    /// The session at the start of the wizard: nothing chosen yet, the
    /// preselected keyboard layout and host name, a timezone guessed from the
    /// machine (or empty), encryption and swap on, no application picked.
    pub fn new(
        nvidia_detected: bool,
        timezone: String,
        n_compositors: usize,
        n_browsers: usize,
        n_editors: usize,
        n_terminals: usize,
    ) -> (r: SessionState)
        ensures
            r@ == initial_session(
                nvidia_detected,
                timezone@,
                AppFlagsView {
                    compositors: Seq::new(n_compositors as nat, |i: int| false),
                    browsers: Seq::new(n_browsers as nat, |i: int| false),
                    editors: Seq::new(n_editors as nat, |i: int| false),
                    terminals: Seq::new(n_terminals as nat, |i: int| false),
                },
            ),
    {
        SessionState {
            selected_disk: None,
            keymap: String::from_str(DEFAULT_KEYMAP),
            timezone,
            hostname: String::from_str(DEFAULT_HOSTNAME),
            username: String::new(),
            user_password: String::new(),
            luks_password: String::new(),
            encrypt_disk: true,
            swap_enabled: true,
            nvidia_detected,
            driver_variant: None,
            network_label: None,
            force_network: false,
            app_flags: AppFlags {
                compositors: no_flags(n_compositors),
                browsers: no_flags(n_browsers),
                editors: no_flags(n_editors),
                terminals: no_flags(n_terminals),
            },
        }
    }
}

} // verus!
