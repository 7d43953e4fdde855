use kwimy::config::{build_install_config, AppCatalog, AppChoice};
use kwimy::disk::DiskInfo;
use kwimy::network::{network_entry, NetworkEntry};
use kwimy::session::{AppFlags, SessionState};
use kwimy::steps::{build_install_summary, summary_current_index, SetupStep};
use kwimy::wizard::{
    handle_confirm_disk_step, handle_disk_step, handle_drivers_step, handle_encrypt_disk_step,
    handle_hostname_step, handle_luks_password_step, handle_network_step, handle_review_step,
    handle_swap_step, handle_timezone_step, handle_username_step, load_setup_keymaps,
    load_setup_timezones, redirect_of, run_step,
    wants_timezone_detection, AppsInput, Confirm, DriverInput, ListChoice, NetworkInput,
    ReviewAction, SecretEntry, StepInput, StepOutcome, TextEntry, WizardData,
};

fn data() -> WizardData {
    WizardData {
        disks: vec![DiskInfo {
            name: "sda".to_string(),
            size: "500GB".to_string(),
            model: "X".to_string(),
        }],
        keymaps: vec!["us".to_string(), "de".to_string()],
        timezones: vec!["UTC".to_string(), "Europe/Berlin".to_string()],
    }
}

fn catalog() -> AppCatalog {
    let choice = |label: &str, pkg: &str| AppChoice {
        label: label.to_string(),
        pacman: vec![pkg.to_string()],
        aur: vec![format!("{}-aur", pkg)],
    };
    AppCatalog {
        compositors: vec![choice("Hyprland", "hyprland"), choice("Sway", "sway")],
        browsers: vec![choice("Firefox", "firefox"), choice("Chromium", "chromium")],
        editors: vec![choice("Neovim", "neovim")],
        terminals: vec![choice("Kitty", "kitty")],
    }
}

fn session(nvidia: bool) -> SessionState {
    SessionState::new(nvidia, String::new(), 2, 2, 1, 1)
}

fn secret(v: &str) -> SecretEntry {
    SecretEntry::Entered(v.to_string(), TextEntry::Submit(v.to_string()))
}

fn next(step: SetupStep) -> StepOutcome {
    StepOutcome::Next(step)
}

#[test]
fn decline_encryption_scenario() {
    let d = data();
    let mut s = session(false);
    let inputs = vec![
        (SetupStep::Network, StepInput::Network(NetworkInput::Proceed("home".to_string()))),
        (SetupStep::Disk, StepInput::Disk(ListChoice::Pick(0))),
        (SetupStep::ConfirmDisk, StepInput::ConfirmDisk(Confirm::Yes)),
        (SetupStep::Keymap, StepInput::Keymap(ListChoice::Pick(0))),
        (
            SetupStep::Timezone,
            StepInput::Timezone { detected: None, choice: ListChoice::Pick(1) },
        ),
        (SetupStep::Hostname, StepInput::Hostname(TextEntry::Submit(String::new()))),
        (SetupStep::Username, StepInput::Username(TextEntry::Submit("kevin".to_string()))),
        (SetupStep::UserPassword, StepInput::UserPassword(secret("pw"))),
        (SetupStep::EncryptDisk, StepInput::EncryptDisk(Confirm::No)),
        (SetupStep::Swap, StepInput::Swap(Confirm::Yes)),
        (
            SetupStep::Applications,
            StepInput::Applications(AppsInput::Submit(AppFlags {
                compositors: vec![false, false],
                browsers: vec![false, false],
                editors: vec![false],
                terminals: vec![false],
            })),
        ),
        (SetupStep::Review, StepInput::Review(ReviewAction::Confirm)),
    ];
    let mut step = SetupStep::Network;
    let mut finished = false;
    for (expected, input) in inputs {
        assert_eq!(step, expected);
        match run_step(&mut s, &d, step, input) {
            StepOutcome::Next(n) => step = n,
            StepOutcome::Finish => finished = true,
            StepOutcome::Quit => panic!("quit"),
        }
    }
    assert!(finished);
    assert_eq!(s.hostname, "kwimy");
    assert_eq!(s.timezone, "Europe/Berlin");
    let base = vec!["base".to_string(), "linux-firmware".to_string()];
    let config = build_install_config(
        s,
        &catalog(),
        Vec::new(),
        "linux".to_string(),
        "linux-headers".to_string(),
        base.clone(),
        false,
    );
    assert_eq!(config.disk.name, "sda");
    assert_eq!(config.disk.size, "500GB");
    assert_eq!(config.disk.model, "X");
    assert!(!config.encrypt_disk);
    assert_eq!(config.luks_password, "");
    assert!(config.swap_enabled);
    assert_eq!(config.base_packages, base);
    assert!(config.extra_pacman_packages.is_empty());
    assert!(config.extra_aur_packages.is_empty());
    assert!(config.selected_browsers.is_empty());
    assert!(config.selected_editors.is_empty());
    assert!(!config.hyprland_selected);
    assert_eq!(config.compositor_label, "Hyprland");
    assert_eq!(config.username, "kevin");
    assert_eq!(config.user_password, "pw");
}

#[test]
fn review_without_disk_goes_to_disk() {
    let mut s = session(false);
    for a in [ReviewAction::Confirm, ReviewAction::Back, ReviewAction::Edit, ReviewAction::Quit] {
        assert_eq!(handle_review_step(&mut s, a), next(SetupStep::Disk));
    }
    assert_eq!(redirect_of(&s, SetupStep::Review), Some(SetupStep::Disk));
    assert_eq!(redirect_of(&s, SetupStep::Hostname), None);
}

#[test]
fn review_with_disk_actions() {
    let d = data();
    let mut s = session(false);
    handle_disk_step(&mut s, &d, ListChoice::Pick(0));
    assert_eq!(handle_review_step(&mut s, ReviewAction::Confirm), StepOutcome::Finish);
    assert_eq!(handle_review_step(&mut s, ReviewAction::Back), next(SetupStep::Applications));
    assert_eq!(handle_review_step(&mut s, ReviewAction::Edit), next(SetupStep::Network));
    assert_eq!(handle_review_step(&mut s, ReviewAction::Quit), StepOutcome::Quit);
}

#[test]
fn back_from_disk_with_nvidia_goes_to_drivers() {
    let mut s = session(true);
    assert_eq!(handle_disk_step(&mut s, &data(), ListChoice::Back), next(SetupStep::Drivers));
    assert!(!s.force_network);
}

#[test]
fn back_from_disk_without_nvidia_forces_network_screen() {
    let mut s = session(false);
    s.network_label = Some("home".to_string());
    assert_eq!(handle_disk_step(&mut s, &data(), ListChoice::Back), next(SetupStep::Network));
    assert!(s.force_network);
    assert_eq!(network_entry(s.force_network, true, true), NetworkEntry::Edit);
    assert_eq!(
        handle_network_step(&mut s, NetworkInput::Proceed("office".to_string())),
        next(SetupStep::Disk)
    );
    assert!(!s.force_network);
    assert_eq!(s.network_label.as_deref(), Some("office"));
}

#[test]
fn network_skip_and_quit() {
    let mut s = session(true);
    assert_eq!(handle_network_step(&mut s, NetworkInput::Skipped), next(SetupStep::Drivers));
    assert_eq!(s.network_label.as_deref(), Some("Skipped (dev)"));
    assert_eq!(handle_network_step(&mut s, NetworkInput::Retry), next(SetupStep::Network));
    assert_eq!(handle_network_step(&mut s, NetworkInput::Quit), StepOutcome::Quit);
}

#[test]
fn drivers_step_actions() {
    let mut s = session(true);
    assert_eq!(
        handle_drivers_step(&mut s, DriverInput::Select("Open kernel modules".to_string())),
        next(SetupStep::Disk)
    );
    assert_eq!(s.driver_variant.as_deref(), Some("Open kernel modules"));
    assert_eq!(handle_drivers_step(&mut s, DriverInput::Skip), next(SetupStep::Disk));
    assert!(s.driver_variant.is_none());
    assert_eq!(
        handle_drivers_step(&mut s, DriverInput::Back { wifi_present: true }),
        next(SetupStep::Network)
    );
    assert!(s.force_network);
    handle_drivers_step(&mut s, DriverInput::Back { wifi_present: false });
    assert!(!s.force_network);
}

#[test]
fn disk_pick_out_of_range_clears_choice() {
    let mut s = session(false);
    handle_disk_step(&mut s, &data(), ListChoice::Pick(5));
    assert!(s.selected_disk.is_none());
    assert_eq!(handle_confirm_disk_step(&mut s, Confirm::Yes), next(SetupStep::Disk));
}

#[test]
fn hostname_rules() {
    let mut s = session(false);
    assert_eq!(
        handle_hostname_step(&mut s, TextEntry::Submit("  my-box  ".to_string())),
        next(SetupStep::Username)
    );
    assert_eq!(s.hostname, "my-box");
    assert_eq!(
        handle_hostname_step(&mut s, TextEntry::Submit("bad_name".to_string())),
        next(SetupStep::Hostname)
    );
    assert_eq!(s.hostname, "my-box");
    assert_eq!(
        handle_hostname_step(&mut s, TextEntry::Submit("   ".to_string())),
        next(SetupStep::Username)
    );
    assert_eq!(s.hostname, "kwimy");
}

#[test]
fn username_rules() {
    let mut s = session(false);
    assert_eq!(
        handle_username_step(&mut s, TextEntry::Submit("root".to_string())),
        next(SetupStep::Username)
    );
    assert_eq!(s.username, "");
    assert_eq!(
        handle_username_step(&mut s, TextEntry::Submit(" alice ".to_string())),
        next(SetupStep::UserPassword)
    );
    assert_eq!(s.username, "alice");
}

#[test]
fn passphrase_mismatch_reenters() {
    let mut s = session(false);
    let out = handle_luks_password_step(
        &mut s,
        SecretEntry::Entered("one".to_string(), TextEntry::Submit("two".to_string())),
    );
    assert_eq!(out, next(SetupStep::LuksPassword));
    assert_eq!(s.luks_password, "");
    let out = handle_luks_password_step(
        &mut s,
        SecretEntry::Entered(String::new(), TextEntry::Submit(String::new())),
    );
    assert_eq!(out, next(SetupStep::LuksPassword));
    assert_eq!(handle_luks_password_step(&mut s, secret("s3cret")), next(SetupStep::Swap));
    assert_eq!(s.luks_password, "s3cret");
    assert_eq!(handle_luks_password_step(&mut s, SecretEntry::Back), next(SetupStep::EncryptDisk));
}

#[test]
fn encryption_choice_and_swap_back() {
    let mut s = session(false);
    s.luks_password = "old".to_string();
    assert_eq!(handle_encrypt_disk_step(&mut s, Confirm::No), next(SetupStep::Swap));
    assert!(!s.encrypt_disk);
    assert_eq!(s.luks_password, "");
    assert_eq!(handle_swap_step(&mut s, Confirm::Back), next(SetupStep::EncryptDisk));
    assert_eq!(handle_encrypt_disk_step(&mut s, Confirm::Yes), next(SetupStep::LuksPassword));
    assert_eq!(handle_swap_step(&mut s, Confirm::Back), next(SetupStep::LuksPassword));
    assert_eq!(handle_swap_step(&mut s, Confirm::No), next(SetupStep::Applications));
    assert!(!s.swap_enabled);
}

#[test]
fn timezone_detection_only_when_unset_or_utc() {
    assert!(wants_timezone_detection(""));
    assert!(wants_timezone_detection("Etc/UTC"));
    assert!(!wants_timezone_detection("Europe/Paris"));
    let d = data();
    let mut s = session(false);
    let out = handle_timezone_step(&mut s, &d, Some("Asia/Tokyo".to_string()), ListChoice::Back);
    assert_eq!(out, next(SetupStep::Keymap));
    assert_eq!(s.timezone, "Asia/Tokyo");
    handle_timezone_step(&mut s, &d, Some("Europe/Rome".to_string()), ListChoice::Back);
    assert_eq!(s.timezone, "Asia/Tokyo");
}

#[test]
fn mismatched_answer_keeps_step() {
    let mut s = session(false);
    let out = run_step(&mut s, &data(), SetupStep::Swap, StepInput::Review(ReviewAction::Confirm));
    assert_eq!(out, next(SetupStep::Swap));
    assert!(s.swap_enabled);
}

#[test]
fn progress_index_shifts_with_drivers() {
    assert_eq!(summary_current_index(SetupStep::Network, false), 0);
    assert_eq!(summary_current_index(SetupStep::Drivers, true), 1);
    assert_eq!(summary_current_index(SetupStep::Disk, false), 1);
    assert_eq!(summary_current_index(SetupStep::ConfirmDisk, true), 2);
    assert_eq!(summary_current_index(SetupStep::Swap, false), 7);
    assert_eq!(summary_current_index(SetupStep::Swap, true), 8);
    assert_eq!(summary_current_index(SetupStep::Review, false), 8);
    assert_eq!(summary_current_index(SetupStep::Applications, true), 9);
}

#[test]
fn summary_reflects_session() {
    let mut s = session(true);
    handle_disk_step(&mut s, &data(), ListChoice::Pick(0));
    let sum = build_install_summary(SetupStep::Keymap, &s);
    assert_eq!(sum.current_index, 3);
    assert_eq!(sum.drivers.as_deref(), Some("Skipped"));
    assert_eq!(sum.disk.as_deref(), Some("sda (500GB) X"));
    assert_eq!(sum.username, None);
    assert_eq!(sum.encryption, None);
    assert_eq!(sum.zram_swap.as_deref(), Some("yes"));
    assert_eq!(sum.hostname.as_deref(), Some("kwimy"));
    assert_eq!(sum.keymap.as_deref(), Some("us"));
    s.encrypt_disk = false;
    let sum = build_install_summary(SetupStep::Swap, &s);
    assert_eq!(sum.encryption.as_deref(), Some("no"));
}

#[test]
fn keymap_and_timezone_fallbacks() {

    assert_eq!(load_setup_keymaps(None), vec!["us".to_string()]);
    assert_eq!(load_setup_keymaps(Some(vec!["fr".to_string()])), vec!["fr".to_string()]);
    assert_eq!(load_setup_timezones(None), vec!["UTC".to_string()]);
    assert_eq!(
        load_setup_timezones(Some(vec!["Asia/Tokyo".to_string()])),
        vec!["Asia/Tokyo".to_string()]
    );
}
