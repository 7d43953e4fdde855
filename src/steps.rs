//! The wizard's steps, where each stands in the progress indicator, and the
//! summary of all answers shown beside every step.
use vstd::prelude::*;
use crate::disk::{disk_label_of, DiskInfo};
use crate::events::{copy_opt_text, opt_text};
use crate::session::SessionState;

verus! {

#[derive(Clone, Copy, Debug, PartialEq, Eq, Structural)]
pub enum SetupStep {
    Network,
    Disk,
    ConfirmDisk,
    Keymap,
    Timezone,
    Hostname,
    Username,
    UserPassword,
    EncryptDisk,
    LuksPassword,
    Drivers,
    Swap,
    Applications,
    Review,
}

/// Entries of the progress indicator without the driver entry; the last one,
/// shared by the application choice and the review, stands at this index.
pub const SUMMARY_STEP_COUNT: usize = 8;

/// Where a step stands in the progress indicator; the driver entry, offered
/// only when an Nvidia GPU was found, shifts every later entry by one.
pub open spec fn summary_index(step: SetupStep, include_drivers: bool) -> nat {
    let d: nat = if include_drivers { 1 } else { 0 };
    match step {
        SetupStep::Network => 0,
        SetupStep::Drivers => 1,
        SetupStep::Disk | SetupStep::ConfirmDisk => 1 + d,
        SetupStep::Keymap => 2 + d,
        SetupStep::Timezone => 3 + d,
        SetupStep::Hostname => 4 + d,
        SetupStep::Username | SetupStep::UserPassword => 5 + d,
        SetupStep::EncryptDisk | SetupStep::LuksPassword => 6 + d,
        SetupStep::Swap => 7 + d,
        SetupStep::Applications | SetupStep::Review => SUMMARY_STEP_COUNT as nat + d,
    }
}

pub fn summary_current_index(step: SetupStep, include_drivers: bool) -> (r: usize)
    ensures
        r == summary_index(step, include_drivers),
{
    let d: usize = if include_drivers { 1 } else { 0 };
    match step {
        SetupStep::Network => 0,
        SetupStep::Drivers => 1,
        SetupStep::Disk | SetupStep::ConfirmDisk => 1 + d,
        SetupStep::Keymap => 2 + d,
        SetupStep::Timezone => 3 + d,
        SetupStep::Hostname => 4 + d,
        SetupStep::Username | SetupStep::UserPassword => 5 + d,
        SetupStep::EncryptDisk | SetupStep::LuksPassword => 6 + d,
        SetupStep::Swap => 7 + d,
        SetupStep::Applications | SetupStep::Review => SUMMARY_STEP_COUNT + d,
    }
}

/// The answers so far, as the side panel of every step shows them.
#[derive(Debug)]
pub struct InstallSummary {
    pub current_index: usize,
    pub network: Option<String>,
    pub drivers: Option<String>,
    pub disk: Option<String>,
    pub keymap: Option<String>,
    pub timezone: Option<String>,
    pub hostname: Option<String>,
    pub username: Option<String>,
    pub encryption: Option<String>,
    pub zram_swap: Option<String>,
    pub include_drivers: bool,
}

pub open spec fn summary_drivers(offered: bool, variant: Option<Seq<char>>) -> Option<Seq<char>> {
    if offered {
        Some(
            match variant {
                Some(v) => v,
                None => "Skipped"@,
            },
        )
    } else {
        None
    }
}

pub open spec fn summary_username(username: Seq<char>, password: Seq<char>) -> Option<Seq<char>> {
    if password.len() == 0 || username.len() == 0 {
        None
    } else {
        Some(username)
    }
}

pub open spec fn summary_encryption(encrypt: bool, passphrase: Seq<char>) -> Option<Seq<char>> {
    if !encrypt {
        Some("no"@)
    } else if passphrase.len() == 0 {
        None
    } else {
        Some("Btrfs (LUKS encrypted)"@)
    }
}

pub open spec fn summary_disk(d: Option<DiskInfo>) -> Option<Seq<char>> {
    match d {
        Some(x) => Some(disk_label_of(x.name@, x.size@, x.model@)),
        None => None,
    }
}

fn text_of(s: &str) -> (r: Option<String>)
    ensures
        opt_text(r) == Some(s@),
{
    Some(String::from_str(s))
}

pub fn build_install_summary(step: SetupStep, s: &SessionState) -> (r: InstallSummary)
    ensures
        r.current_index == summary_index(step, s.nvidia_detected),
        opt_text(r.network) == opt_text(s.network_label),
        opt_text(r.drivers) == summary_drivers(s.nvidia_detected, opt_text(s.driver_variant)),
        opt_text(r.disk) == summary_disk(s.selected_disk),
        opt_text(r.keymap) == Some(s.keymap@),
        opt_text(r.timezone) == Some(s.timezone@),
        opt_text(r.hostname) == Some(s.hostname@),
        opt_text(r.username) == summary_username(s.username@, s.user_password@),
        opt_text(r.encryption) == summary_encryption(s.encrypt_disk, s.luks_password@),
        opt_text(r.zram_swap) == Some(
            if s.swap_enabled {
                "yes"@
            } else {
                "no"@
            },
        ),
        r.include_drivers == s.nvidia_detected,
{
    let include_drivers = s.nvidia_detected;
    let drivers = if include_drivers {
        match &s.driver_variant {
            Some(v) => Some(v.clone()),
            None => text_of("Skipped"),
        }
    } else {
        None
    };
    let disk = match &s.selected_disk {
        Some(d) => Some(d.label()),
        None => None,
    };
    let username = if s.user_password.as_str().unicode_len() == 0
        || s.username.as_str().unicode_len() == 0 {
        None
    } else {
        Some(s.username.clone())
    };
    let encryption = if !s.encrypt_disk {
        text_of("no")
    } else if s.luks_password.as_str().unicode_len() == 0 {
        None
    } else {
        text_of("Btrfs (LUKS encrypted)")
    };
    InstallSummary {
        current_index: summary_current_index(step, include_drivers),
        network: copy_opt_text(&s.network_label),
        drivers,
        disk,
        keymap: Some(s.keymap.clone()),
        timezone: Some(s.timezone.clone()),
        hostname: Some(s.hostname.clone()),
        username,
        encryption,
        zram_swap: if s.swap_enabled {
            text_of("yes")
        } else {
            text_of("no")
        },
        include_drivers,
    }
}

} // verus!
