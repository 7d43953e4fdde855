use kwimy::config::{build_install_config, AppCatalog, AppChoice};
use kwimy::disk::DiskInfo;
use kwimy::review::{build_review, join_labels};
use kwimy::session::SessionState;

fn choice(label: &str, pkg: &str) -> AppChoice {
    AppChoice {
        label: label.to_string(),
        pacman: vec![pkg.to_string()],
        aur: vec![format!("{}-aur", pkg)],
    }
}

fn catalog() -> AppCatalog {
    AppCatalog {
        compositors: vec![choice("Hyprland", "hyprland"), choice("Sway", "sway")],
        browsers: vec![choice("Firefox", "firefox"), choice("Chromium", "chromium")],
        editors: vec![choice("Neovim", "neovim")],
        terminals: vec![choice("Kitty", "kitty")],
    }
}

fn chosen_session() -> SessionState {
    let mut s = SessionState::new(false, "UTC".to_string(), 2, 2, 1, 1);
    s.selected_disk = Some(DiskInfo {
        name: "nvme0n1".to_string(),
        size: "1T".to_string(),
        model: String::new(),
    });
    s.username = "kevin".to_string();
    s.app_flags.compositors = vec![false, true];
    s.app_flags.browsers = vec![true, true];
    s.app_flags.terminals = vec![true];
    s
}

#[test]
fn config_with_applications() {
    let config = build_install_config(
        chosen_session(),
        &catalog(),
        vec!["nvidia-open".to_string()],
        "linux".to_string(),
        "linux-headers".to_string(),
        vec!["base".to_string()],
        true,
    );
    assert_eq!(config.base_packages, vec!["base".to_string(), "sway".to_string()]);
    assert_eq!(config.selected_browsers, vec!["Firefox".to_string(), "Chromium".to_string()]);
    assert!(config.selected_editors.is_empty());
    assert_eq!(
        config.extra_pacman_packages,
        vec!["firefox".to_string(), "chromium".to_string(), "kitty".to_string()]
    );
    assert_eq!(
        config.extra_aur_packages,
        vec![
            "firefox-aur".to_string(),
            "chromium-aur".to_string(),
            "kitty-aur".to_string(),
            "sway-aur".to_string()
        ]
    );
    assert_eq!(config.compositor_label, "Sway");
    assert!(config.hyprland_selected);
    assert!(config.offline_only);
    assert_eq!(config.driver_packages, vec!["nvidia-open".to_string()]);
    assert_eq!(config.disk.partition_path(1), "/dev/nvme0n1p1");
    assert!(config.encrypt_disk);
}

#[test]
fn config_only_first_compositor_counts() {
    let mut s = chosen_session();
    s.app_flags.compositors = vec![true, true];
    let config = build_install_config(
        s,
        &catalog(),
        Vec::new(),
        "linux".to_string(),
        "linux-headers".to_string(),
        Vec::new(),
        false,
    );
    assert_eq!(config.base_packages, vec!["hyprland".to_string()]);
    assert_eq!(config.compositor_label, "Hyprland");
}

#[test]
fn config_compositor_fallback_label() {
    let mut c = catalog();
    c.compositors.clear();
    let mut s = chosen_session();
    s.app_flags.compositors = Vec::new();
    let config = build_install_config(
        s,
        &c,
        Vec::new(),
        "linux".to_string(),
        "linux-headers".to_string(),
        Vec::new(),
        false,
    );
    assert_eq!(config.compositor_label, "Hyprland (Caelestia)");
    assert!(!config.hyprland_selected);
}

#[test]
fn review_lists_everything() {
    let s = chosen_session();
    let r = build_review(&s, &catalog(), None).unwrap();
    let system: Vec<(String, String)> =
        r.system.iter().map(|i| (i.label.clone(), i.value.clone())).collect();
    assert_eq!(system[0], ("Network".to_string(), "Not connected".to_string()));
    assert_eq!(system[1], ("Disk".to_string(), "nvme0n1 (1T)".to_string()));
    assert_eq!(system[2], ("Filesystem".to_string(), "Btrfs (LUKS encrypted)".to_string()));
    assert_eq!(system[3], ("GPU".to_string(), "Not detected".to_string()));
    assert_eq!(system[4], ("Swap".to_string(), "Enabled (zram)".to_string()));
    assert_eq!(system[6], ("Username".to_string(), "kevin".to_string()));
    assert_eq!(system[8], ("Timezone".to_string(), "UTC".to_string()));
    let packages: Vec<(String, String)> =
        r.packages.iter().map(|i| (i.label.clone(), i.value.clone())).collect();
    assert_eq!(packages[0], ("Compositor".to_string(), "Sway".to_string()));
    assert_eq!(packages[1], ("Browsers".to_string(), "Firefox, Chromium".to_string()));
    assert_eq!(packages[2], ("Editors".to_string(), "None".to_string()));
    assert_eq!(packages[3], ("Terminals".to_string(), "Kitty".to_string()));
    assert_eq!(r.selected_packages, 4);
}

#[test]
fn review_needs_disk() {
    let mut s = chosen_session();
    s.selected_disk = None;
    assert!(build_review(&s, &catalog(), Some("NVIDIA".to_string())).is_none());
}

#[test]
fn join_labels_separates() {
    assert_eq!(join_labels(&Vec::new(), ", "), "");
    assert_eq!(join_labels(&vec!["a".to_string()], ", "), "a");
    assert_eq!(join_labels(&vec!["a".to_string(), "b".to_string()], ", "), "a, b");
}
