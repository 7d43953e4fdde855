//! The applications offered, and the installation configuration that the
//! finished wizard hands to the installation engine.
use vstd::prelude::*;
use crate::disk::{same_disk, DiskInfo};
use crate::model::text_lines;
use crate::session::SessionState;

verus! {

/// One application on offer, with the packages it needs from the
/// distribution's repositories and from the AUR.
#[derive(Debug)]
pub struct AppChoice {
    pub label: String,
    pub pacman: Vec<String>,
    pub aur: Vec<String>,
}

/// Everything on offer, by kind; the flags of the session follow this order.
#[derive(Debug)]
pub struct AppCatalog {
    pub compositors: Vec<AppChoice>,
    pub browsers: Vec<AppChoice>,
    pub editors: Vec<AppChoice>,
    pub terminals: Vec<AppChoice>,
}

/// The compositor label used when the catalog offers none.
pub const FALLBACK_COMPOSITOR: &'static str = "Hyprland (Caelestia)";

/// Everything the installation engine needs.
#[derive(Debug)]
pub struct InstallConfig {
    pub disk: DiskInfo,
    pub keymap: String,
    pub timezone: String,
    pub hostname: String,
    pub username: String,
    pub user_password: String,
    pub luks_password: String,
    pub encrypt_disk: bool,
    pub swap_enabled: bool,
    pub driver_packages: Vec<String>,
    pub kernel_package: String,
    pub kernel_headers: String,
    pub base_packages: Vec<String>,
    pub selected_browsers: Vec<String>,
    pub selected_editors: Vec<String>,
    pub extra_pacman_packages: Vec<String>,
    pub extra_aur_packages: Vec<String>,
    pub compositor_label: String,
    pub offline_only: bool,
    pub hyprland_selected: bool,
}

pub open spec fn picked(flags: Seq<bool>, i: int) -> bool {
    0 <= i < flags.len() && flags[i]
}

/// The labels of the first `n` choices that are picked, in catalog order.
pub open spec fn picked_labels(choices: Seq<AppChoice>, flags: Seq<bool>, n: nat) -> Seq<Seq<char>>
    decreases n,
{
    if n == 0 {
        Seq::empty()
    } else {
        let before = picked_labels(choices, flags, (n - 1) as nat);
        if picked(flags, n - 1) {
            before.push(choices[n - 1].label@)
        } else {
            before
        }
    }
}

/// The packages of the first `n` choices that are picked, in catalog order;
/// `aur` selects AUR packages instead of repository ones.
pub open spec fn picked_packages(choices: Seq<AppChoice>, flags: Seq<bool>, n: nat, aur: bool) -> Seq<
    Seq<char>,
>
    decreases n,
{
    if n == 0 {
        Seq::empty()
    } else {
        let before = picked_packages(choices, flags, (n - 1) as nat, aur);
        if picked(flags, n - 1) {
            before + text_lines(
                if aur {
                    choices[n - 1].aur@
                } else {
                    choices[n - 1].pacman@
                },
            )
        } else {
            before
        }
    }
}

pub open spec fn all_picked_labels(choices: Seq<AppChoice>, flags: Seq<bool>) -> Seq<Seq<char>> {
    picked_labels(choices, flags, choices.len())
}

pub open spec fn all_picked_packages(choices: Seq<AppChoice>, flags: Seq<bool>, aur: bool) -> Seq<
    Seq<char>,
> {
    picked_packages(choices, flags, choices.len(), aur)
}

/// The packages of the browsers, editors and terminals picked.
pub open spec fn selection_packages(catalog: AppCatalog, s: SessionState, aur: bool) -> Seq<Seq<char>> {
    all_picked_packages(catalog.browsers@, s.app_flags.browsers@, aur) + all_picked_packages(
        catalog.editors@,
        s.app_flags.editors@,
        aur,
    ) + all_picked_packages(catalog.terminals@, s.app_flags.terminals@, aur)
}

/// The first flag that is set, if any.
pub open spec fn first_picked(flags: Seq<bool>) -> Option<nat> {
    if exists|i: int| picked(flags, i) {
        Some((choose|i: int| picked(flags, i) && forall|j: int| 0 <= j < i ==> !flags[j]) as nat)
    } else {
        None
    }
}

/// Only one compositor is installed: the first one picked, where the catalog offers it.
pub open spec fn chosen_compositor(catalog: AppCatalog, s: SessionState) -> Option<AppChoice> {
    match first_picked(s.app_flags.compositors@) {
        Some(i) => if i < catalog.compositors@.len() {
            Some(catalog.compositors@[i as int])
        } else {
            None
        },
        None => None,
    }
}

pub open spec fn compositor_label_of(catalog: AppCatalog, s: SessionState) -> Seq<char> {
    match chosen_compositor(catalog, s) {
        Some(c) => c.label@,
        None => if catalog.compositors@.len() > 0 {
            catalog.compositors@[0].label@
        } else {
            FALLBACK_COMPOSITOR@
        },
    }
}

fn append_lines(out: &mut Vec<String>, v: &Vec<String>)
    ensures
        text_lines(final(out)@) == text_lines(old(out)@) + text_lines(v@),
{
    let ghost start = out@;
    let mut i: usize = 0;
    while i < v.len()
        invariant
            i <= v@.len(),
            out@.len() == start.len() + i,
            forall|j: int| 0 <= j < start.len() ==> #[trigger] out@[j] == start[j],
            forall|j: int| 0 <= j < i ==> #[trigger] out@[start.len() + j]@ == v@[j]@,
        decreases v@.len() - i,
    {
        out.push(v[i].clone());
        i = i + 1;
    }
    assert(text_lines(out@) =~= text_lines(start) + text_lines(v@)) by {
        assert forall|j: int| 0 <= j < out@.len() implies #[trigger] text_lines(out@)[j] == (
        text_lines(start) + text_lines(v@))[j] by {
            if j >= start.len() {
                assert(out@[start.len() + (j - start.len())]@ == v@[j - start.len()]@);
            }
        }
    }
}

fn flag_at(flags: &Vec<bool>, i: usize) -> (r: bool)
    ensures
        r == picked(flags@, i as int),
{
    i < flags.len() && flags[i]
}

/// The labels of the choices picked, in catalog order.
pub fn picked_choice_labels(choices: &Vec<AppChoice>, flags: &Vec<bool>) -> (r: Vec<String>)
    ensures
        text_lines(r@) == all_picked_labels(choices@, flags@),
{
    let mut out: Vec<String> = Vec::new();
    let mut i: usize = 0;
    while i < choices.len()
        invariant
            i <= choices@.len(),
            text_lines(out@) == picked_labels(choices@, flags@, i as nat),
        decreases choices@.len() - i,
    {
        if flag_at(flags, i) {
            out.push(choices[i].label.clone());
            assert(text_lines(out@) =~= picked_labels(choices@, flags@, (i + 1) as nat));
        }
        i = i + 1;
    }
    out
}

/// Appends the packages of the choices picked, in catalog order.
pub fn append_picked_packages(out: &mut Vec<String>, choices: &Vec<AppChoice>, flags: &Vec<bool>, aur: bool)
    ensures
        text_lines(final(out)@) == text_lines(old(out)@) + all_picked_packages(choices@, flags@, aur),
{
    let mut i: usize = 0;
    while i < choices.len()
        invariant
            i <= choices@.len(),
            text_lines(out@) == text_lines(old(out)@) + picked_packages(choices@, flags@, i as nat, aur),
        decreases choices@.len() - i,
    {
        if flag_at(flags, i) {
            if aur {
                append_lines(out, &choices[i].aur);
            } else {
                append_lines(out, &choices[i].pacman);
            }
            assert(text_lines(out@) =~= text_lines(old(out)@) + picked_packages(
                choices@,
                flags@,
                (i + 1) as nat,
                aur,
            ));
        }
        i = i + 1;
    }
}

/// The index of the first flag that is set, if any.
pub fn first_picked_index(flags: &Vec<bool>) -> (r: Option<usize>)
    ensures
        match r {
            Some(i) => first_picked(flags@) == Some(i as nat),
            None => first_picked(flags@) is None,
        },
{
    let mut i: usize = 0;
    while i < flags.len()
        invariant
            i <= flags@.len(),
            forall|j: int| 0 <= j < i ==> !flags@[j],
        decreases flags@.len() - i,
    {
        if flags[i] {
            let ghost k = choose|k: int| picked(flags@, k) && forall|j: int| 0 <= j < k ==> !flags@[j];
            assert(picked(flags@, i as int));
            assert(k == i) by {
                if k < i {
                } else if k > i {
                    assert(!flags@[i as int]);
                }
            }
            return Some(i);
        }
        i = i + 1;
    }
    assert(!exists|k: int| picked(flags@, k));
    None
}

/// The configuration that the finished wizard hands to the installation
/// engine. The session's answers pass unchanged. Only the first compositor
/// picked is installed: its repository packages join the base packages and
/// its AUR packages follow those of the other applications picked.
pub fn build_install_config(
    s: SessionState,
    catalog: &AppCatalog,
    driver_packages: Vec<String>,
    kernel_package: String,
    kernel_headers: String,
    base_packages: Vec<String>,
    offline_only: bool,
) -> (r: InstallConfig)
    requires
        s.selected_disk is Some,
    ensures
        same_disk(r.disk, s.selected_disk->0),
        r.keymap@ == s.keymap@,
        r.timezone@ == s.timezone@,
        r.hostname@ == s.hostname@,
        r.username@ == s.username@,
        r.user_password@ == s.user_password@,
        r.luks_password@ == s.luks_password@,
        r.encrypt_disk == s.encrypt_disk,
        r.swap_enabled == s.swap_enabled,
        text_lines(r.driver_packages@) == text_lines(driver_packages@),
        r.kernel_package@ == kernel_package@,
        r.kernel_headers@ == kernel_headers@,
        text_lines(r.base_packages@) == text_lines(base_packages@) + match chosen_compositor(
            *catalog,
            s,
        ) {
            Some(c) => text_lines(c.pacman@),
            None => Seq::empty(),
        },
        text_lines(r.selected_browsers@) == all_picked_labels(
            catalog.browsers@,
            s.app_flags.browsers@,
        ),
        text_lines(r.selected_editors@) == all_picked_labels(catalog.editors@, s.app_flags.editors@),
        text_lines(r.extra_pacman_packages@) == selection_packages(*catalog, s, false),
        text_lines(r.extra_aur_packages@) == selection_packages(*catalog, s, true) + match chosen_compositor(
            *catalog,
            s,
        ) {
            Some(c) => text_lines(c.aur@),
            None => Seq::empty(),
        },
        r.compositor_label@ == compositor_label_of(*catalog, s),
        r.offline_only == offline_only,
        r.hyprland_selected == first_picked(s.app_flags.compositors@) is Some,
{
    let first = first_picked_index(&s.app_flags.compositors);
    let mut base = base_packages;
    let mut extra_pacman: Vec<String> = Vec::new();
    append_picked_packages(&mut extra_pacman, &catalog.browsers, &s.app_flags.browsers, false);
    append_picked_packages(&mut extra_pacman, &catalog.editors, &s.app_flags.editors, false);
    append_picked_packages(&mut extra_pacman, &catalog.terminals, &s.app_flags.terminals, false);
    let mut extra_aur: Vec<String> = Vec::new();
    append_picked_packages(&mut extra_aur, &catalog.browsers, &s.app_flags.browsers, true);
    append_picked_packages(&mut extra_aur, &catalog.editors, &s.app_flags.editors, true);
    append_picked_packages(&mut extra_aur, &catalog.terminals, &s.app_flags.terminals, true);
    let compositor_label = match first {
        Some(i) => {
            if i < catalog.compositors.len() {
                append_lines(&mut base, &catalog.compositors[i].pacman);
                append_lines(&mut extra_aur, &catalog.compositors[i].aur);
                catalog.compositors[i].label.clone()
            } else if catalog.compositors.len() > 0 {
                catalog.compositors[0].label.clone()
            } else {
                String::from_str(FALLBACK_COMPOSITOR)
            }
        },
        None => {
            if catalog.compositors.len() > 0 {
                catalog.compositors[0].label.clone()
            } else {
                String::from_str(FALLBACK_COMPOSITOR)
            }
        },
    };
    proof {
        assert(text_lines(base@) =~= text_lines(base_packages@) + match chosen_compositor(*catalog, s) {
            Some(c) => text_lines(c.pacman@),
            None => Seq::empty(),
        });
        assert(text_lines(extra_aur@) =~= selection_packages(*catalog, s, true) + match chosen_compositor(
            *catalog,
            s,
        ) {
            Some(c) => text_lines(c.aur@),
            None => Seq::empty(),
        });
    }
    let selected_browsers = picked_choice_labels(&catalog.browsers, &s.app_flags.browsers);
    let selected_editors = picked_choice_labels(&catalog.editors, &s.app_flags.editors);
    let disk = match &s.selected_disk {
        Some(d) => d.duplicate(),
        None => {
            proof {
                assert(false);
            }
            DiskInfo { name: String::new(), size: String::new(), model: String::new() }
        },
    };
    InstallConfig {
        disk,
        keymap: s.keymap,
        timezone: s.timezone,
        hostname: s.hostname,
        username: s.username,
        user_password: s.user_password,
        luks_password: s.luks_password,
        encrypt_disk: s.encrypt_disk,
        swap_enabled: s.swap_enabled,
        driver_packages,
        kernel_package,
        kernel_headers,
        base_packages: base,
        selected_browsers,
        selected_editors,
        extra_pacman_packages: extra_pacman,
        extra_aur_packages: extra_aur,
        compositor_label,
        offline_only,
        hyprland_selected: first.is_some(),
    }
}

} // verus!
